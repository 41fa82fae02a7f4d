//! Properties that relate several operations of the supervisor, proved over
//! the specifications that the operations' contracts use.

use std::collections::HashMap;
use vstd::prelude::*;
use crate::client::{
    generate_blocks_url, generate_blocks_verdict, is_success_status, set_address_keys_verdict,
    set_state_verdict, GenerateBlocksResponse, GenerateBlocksResponseEmpty, HttpReply,
    HttpRequest, SetAddressKeysEmpty, SetAddressKeysResponse, SetStateResponse,
    SetStateResponseEmpty,
};
use crate::errors::{LibError, SimulatorError};
use crate::json::json_quoted;
use crate::options::{epoch_blocks, SimulatorOptions};
use crate::process::{
    after_launch, deposed_pid, plans_generate_blocks, plans_generate_epochs,
    plans_initial_wallets, plans_set_address_keys, plans_set_state, slot_run,
    slot_step, Owned, SlotEvent,
};
use crate::readiness::{readiness_decision, readiness_outcome, ReadinessStep};
use crate::requests::{entry_members, SetStateAddress};

verus! {

/// Generating `num_epochs` epochs is one request for
/// `(rounds_per_epoch + 1) * num_epochs` blocks on the owned process's port,
/// whatever its options.
pub proof fn law_epochs_are_block_counts(owned: Owned, alive: bool, num_epochs: u64, r: Result<HttpRequest, LibError>)
    requires
        plans_generate_epochs(owned, alive, num_epochs, r),
        r is Ok,
    ensures
        owned matches Some((_, o)) && r->Ok_0.url@ == generate_blocks_url(
            o.server_port,
            epoch_blocks(o, num_epochs) as u64,
        ),
{
}

/// Once a start has deposed what was owned and its new process became ready,
/// exactly that process is owned; the epoch that the start then generates is
/// requested only if the process is found alive.
pub proof fn law_start_owns_one_live_process(
    pid: u32,
    options: SimulatorOptions,
    alive: bool,
    r: Result<HttpRequest, LibError>,
)
    requires
        plans_generate_epochs(after_launch(None, pid, options, true), alive, 1, r),
    ensures
        after_launch(None, pid, options, true) == Some((pid, options)),
        r is Ok ==> alive,
{
}

/// Before any start, every control-plane operation fails with "process not
/// started"; the operation that finds the owned process exited fails with
/// "process already finished". Either way the outcome is an error, so no
/// request is sent.
pub proof fn law_operations_need_a_live_process(
    p: (u32, SimulatorOptions),
    alive: bool,
    num: u64,
    address: Seq<char>,
    keys: Map<String, String>,
    entries: Seq<SetStateAddress>,
    r: Result<HttpRequest, LibError>,
)
    ensures
        plans_generate_blocks(None, alive, num, r) ==> r == Err::<HttpRequest, LibError>(
            LibError::Simulator(SimulatorError::ProcessNotStarted),
        ),
        plans_generate_epochs(None, alive, num, r) ==> r == Err::<HttpRequest, LibError>(
            LibError::Simulator(SimulatorError::ProcessNotStarted),
        ),
        plans_initial_wallets(None, alive, r) ==> r == Err::<HttpRequest, LibError>(
            LibError::Simulator(SimulatorError::ProcessNotStarted),
        ),
        plans_set_address_keys(None, alive, address, keys, r) ==> r == Err::<
            HttpRequest,
            LibError,
        >(LibError::Simulator(SimulatorError::ProcessNotStarted)),
        plans_set_state(None, alive, entries, r) ==> r == Err::<HttpRequest, LibError>(
            LibError::Simulator(SimulatorError::ProcessNotStarted),
        ),
        plans_generate_blocks(Some(p), false, num, r) ==> r == Err::<HttpRequest, LibError>(
            LibError::Simulator(SimulatorError::ProcessAlreadyFinished),
        ),
        plans_generate_epochs(Some(p), false, num, r) ==> r == Err::<HttpRequest, LibError>(
            LibError::Simulator(SimulatorError::ProcessAlreadyFinished),
        ),
        plans_initial_wallets(Some(p), false, r) ==> r == Err::<HttpRequest, LibError>(
            LibError::Simulator(SimulatorError::ProcessAlreadyFinished),
        ),
        plans_set_address_keys(Some(p), false, address, keys, r) ==> r == Err::<
            HttpRequest,
            LibError,
        >(LibError::Simulator(SimulatorError::ProcessAlreadyFinished)),
        plans_set_state(Some(p), false, entries, r) ==> r == Err::<HttpRequest, LibError>(
            LibError::Simulator(SimulatorError::ProcessAlreadyFinished),
        ),
{
}

/// A second start never leaves two processes owned: the first one, if alive,
/// is sent SIGKILL before the second is launched, and afterwards only the
/// second is owned.
pub proof fn law_restart_deposes_the_first(
    first: (u32, SimulatorOptions),
    second_pid: u32,
    second_options: SimulatorOptions,
)
    ensures
        deposed_pid(Some(first), true) == Some(first.0),
        deposed_pid(Some(first), false) is None,
        after_launch(None, second_pid, second_options, true) == Some((second_pid, second_options)),
{
}

/// Probes that never see a success status, of which one comes after the
/// timeout, end the wait with a timeout; the start then records no process.
pub proof fn law_readiness_times_out_without_success(
    probes: Seq<(u64, Option<u16>)>,
    timeout_millis: u64,
    pid: u32,
    options: SimulatorOptions,
)
    requires
        forall|i: int|
            0 <= i < probes.len() ==> !(#[trigger] probes[i].1 matches Some(s) && is_success_status(s)),
        exists|i: int| 0 <= i < probes.len() && #[trigger] probes[i].0 > timeout_millis,
    ensures
        readiness_outcome(probes, timeout_millis) == ReadinessStep::TimedOut,
        after_launch(None, pid, options, false) is None,
    decreases probes.len(),
{
    let d = readiness_decision(probes[0].0, timeout_millis, probes[0].1);
    if probes[0].0 > timeout_millis {
        assert(d == ReadinessStep::TimedOut);
    } else {
        assert(!(probes[0].1 matches Some(s) && is_success_status(s)));
        assert(d == ReadinessStep::Retry);
        let rest = probes.drop_first();
        let k = choose|i: int| 0 <= i < probes.len() && #[trigger] probes[i].0 > timeout_millis;
        assert(k > 0);
        assert(rest[k - 1] == probes[k]);
        assert forall|i: int| 0 <= i < rest.len() implies !(#[trigger] rest[i].1 matches Some(s)
            && is_success_status(s)) by {
            assert(rest[i] == probes[i + 1]);
        }
        law_readiness_times_out_without_success(rest, timeout_millis, pid, options);
    }
}

/// An entry with only a balance and keys is sent with exactly those two
/// members, in that order.
pub proof fn law_sparse_entry_members(balance: String, keys: HashMap<String, String>, keys_text: Seq<char>)
    ensures
        ({
            let e = SetStateAddress {
                address: None,
                balance: Some(balance),
                code: None,
                root_hash: None,
                code_metadata: None,
                code_hash: None,
                developer_reward: None,
                owner_address: None,
                keys: Some(keys),
            };
            entry_members(e, keys_text) =~= seq![
                ("\"balance\""@, json_quoted(balance@)),
                ("\"keys\""@, keys_text),
            ]
        }),
{
}

/// A reply with a success status whose envelope's code is `successful` is a
/// success for every write operation, with or without a payload.
pub proof fn law_successful_envelope_is_accepted(
    url: String,
    status: u16,
    text: String,
    error: String,
    code: String,
    with_data: bool,
)
    requires
        is_success_status(status),
        code@ == "successful"@,
    ensures
        generate_blocks_verdict(
            url,
            Some(HttpReply { status, text: Some(text) }),
            Some(
                GenerateBlocksResponse {
                    data: if with_data {
                        Some(GenerateBlocksResponseEmpty {  })
                    } else {
                        None
                    },
                    error,
                    code,
                },
            ),
        ) is Ok,
        set_address_keys_verdict(
            url,
            Some(HttpReply { status, text: Some(text) }),
            Some(
                SetAddressKeysResponse {
                    data: if with_data {
                        Some(SetAddressKeysEmpty {  })
                    } else {
                        None
                    },
                    error,
                    code,
                },
            ),
        ) is Ok,
        set_state_verdict(
            url,
            Some(HttpReply { status, text: Some(text) }),
            Some(
                SetStateResponse {
                    data: if with_data {
                        Some(SetStateResponseEmpty {  })
                    } else {
                        None
                    },
                    error,
                    code,
                },
            ),
        ) is Ok,
{
}

/// Over any history of the cell's operations, starting from a cell that owns
/// nothing, at most one process is owned at every point, and it is one that
/// a start recorded once it became ready, with the options of that start:
/// resolutions and kills never install a process.
pub proof fn law_owned_process_comes_from_a_ready_start(events: Seq<SlotEvent>)
    ensures
        slot_run(events) matches Some((pid, options)) ==> exists|i: int|
            0 <= i < events.len() && #[trigger] events[i] == (SlotEvent::Launch {
                pid,
                options,
                ready: true,
            }),
    decreases events.len(),
{
    if events.len() > 0 {
        let prev = events.drop_last();
        law_owned_process_comes_from_a_ready_start(prev);
        let last = events.last();
        assert(slot_run(events) == slot_step(slot_run(prev), last));
        if let Some((pid, options)) = slot_run(events) {
            if slot_run(events) == slot_run(prev) {
                let i = choose|i: int|
                    0 <= i < prev.len() && #[trigger] prev[i] == (SlotEvent::Launch {
                        pid,
                        options,
                        ready: true,
                    });
                assert(events[i] == prev[i]);
            } else {
                assert(events[events.len() - 1] == last);
            }
        }
    }
}

} // verus!
