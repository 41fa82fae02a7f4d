//! The single owned simulator process: how it is recorded, resolved before a
//! control-plane operation, and deposed before a restart or at teardown.

use std::collections::HashMap;
use vstd::prelude::*;
use crate::client::{
    generate_blocks_request, generate_blocks_url, initial_wallets_request, initial_wallets_url,
    set_address_keys_request, set_address_keys_url, set_state_request, set_state_url, HttpMethod,
    HttpRequest,
};
use crate::config::{is_config_for, SimulatorConfig};
use crate::errors::{LibError, SimulatorError};
use crate::json::encodes_string_map;
use crate::options::{cli_args, epoch_blocks, SimulatorOptions};
use crate::requests::{encodes_entries, SetStateAddress};

verus! {

/// A process id that a signal can be addressed to: positive, and within the
/// range of the operating system's `pid_t`.
pub open spec fn valid_pid(pid: u32) -> bool {
    0 < pid <= i32::MAX
}

/// The owned process and the options it was launched with, if any.
pub type Owned = Option<(u32, SimulatorOptions)>;

/// What a signal-free probe of a process id tells.
#[derive(Clone, Copy, PartialEq, Eq, Debug)]
pub enum ProbeOutcome {
    /// The process exists and may be signalled.
    Present,
    /// No process has this id.
    Absent,
    /// Some other failure: the process exists, but may not be signalled.
    Denied,
}

/// Relies on nix::sys::signal::kill with no signal, which only checks that
/// the process exists: `ESRCH` means that there is no such process.
#[verifier::external_body]
fn probe_process(pid: u32) -> (r: ProbeOutcome)
    requires
        valid_pid(pid),
{
    let target = nix::unistd::Pid::from_raw(pid as i32);
    match nix::sys::signal::kill(target, None::<nix::sys::signal::Signal>) {
        Ok(()) => ProbeOutcome::Present,
        Err(nix::errno::Errno::ESRCH) => ProbeOutcome::Absent,
        Err(_) => ProbeOutcome::Denied,
    }
}

/// Whether a probe says that the process is still running. A process that
/// may not be signalled still exists.
pub fn is_running(probe: ProbeOutcome) -> (r: bool)
    ensures
        r == !(probe is Absent),
{
    !matches!(probe, ProbeOutcome::Absent)
}

/// Whether the process `pid` is still running, by a signal-free probe.
fn is_process_running(pid: u32) -> (r: bool)
    requires
        valid_pid(pid),
{
    is_running(probe_process(pid))
}

/// The resolution of the owned process before a control-plane operation,
/// where `alive` is what the liveness probe said.
pub open spec fn resolution(owned: Owned, alive: bool) -> Result<(u32, SimulatorOptions), SimulatorError> {
    match owned {
        None => Err(SimulatorError::ProcessNotStarted),
        Some(p) => if alive {
            Ok(p)
        } else {
            Err(SimulatorError::ProcessAlreadyFinished)
        },
    }
}

/// Resolves `owned` given the answer `alive` of the liveness probe.
pub fn resolve_with(owned: Owned, alive: bool) -> (r: Result<(u32, SimulatorOptions), SimulatorError>)
    ensures
        r == resolution(owned, alive),
{
    match owned {
        None => Err(SimulatorError::ProcessNotStarted),
        Some(p) => if alive {
            Ok(p)
        } else {
            Err(SimulatorError::ProcessAlreadyFinished)
        },
    }
}

/// The pid that the first step of a start sends SIGKILL to: the owned
/// process, where the probe finds it alive.
pub open spec fn deposed_pid(owned: Owned, alive: bool) -> Option<u32> {
    match resolution(owned, alive) {
        Ok((pid, _)) => Some(pid),
        Err(_) => None,
    }
}

/// What is owned once a launch whose readiness came out as `ready` is
/// recorded: the new process if it became ready, else what was owned before.
pub open spec fn after_launch(owned: Owned, pid: u32, options: SimulatorOptions, ready: bool) -> Owned {
    if ready {
        Some((pid, options))
    } else {
        owned
    }
}

/// The request that generates `num_blocks` blocks on the simulator run with `o`.
pub open spec fn sends_generate_blocks(o: SimulatorOptions, num_blocks: u64, r: Result<HttpRequest, LibError>) -> bool {
    &&& r is Ok
    &&& r->Ok_0.method == HttpMethod::Post
    &&& r->Ok_0.url@ == generate_blocks_url(o.server_port, num_blocks)
    &&& r->Ok_0.body is None
}

/// The request that lists the initial wallets of the simulator run with `o`.
pub open spec fn sends_initial_wallets(o: SimulatorOptions, r: Result<HttpRequest, LibError>) -> bool {
    &&& r is Ok
    &&& r->Ok_0.method == HttpMethod::Get
    &&& r->Ok_0.url@ == initial_wallets_url(o.server_port)
    &&& r->Ok_0.body is None
}

/// The request that sets the `keys` of `address` on the simulator run with `o`.
pub open spec fn sends_set_address_keys(
    o: SimulatorOptions,
    address: Seq<char>,
    keys: Map<String, String>,
    r: Result<HttpRequest, LibError>,
) -> bool {
    &&& r is Ok
    &&& r->Ok_0.method == HttpMethod::Post
    &&& r->Ok_0.url@ == set_address_keys_url(o.server_port, address)
    &&& r->Ok_0.body is Some
    &&& encodes_string_map(r->Ok_0.body->0@, keys)
}

/// The request that applies `entries` on the simulator run with `o`.
pub open spec fn sends_set_state(o: SimulatorOptions, entries: Seq<SetStateAddress>, r: Result<HttpRequest, LibError>) -> bool {
    &&& r is Ok
    &&& r->Ok_0.method == HttpMethod::Post
    &&& r->Ok_0.url@ == set_state_url(o.server_port)
    &&& r->Ok_0.body is Some
    &&& encodes_entries(r->Ok_0.body->0@, entries)
}

/// Whether `r` is the outcome of the operation that generates `num_blocks` blocks on
/// `owned`, where the liveness probe answered `alive`: the resolution's error
/// where it failed, else the operation's request for the owned options.
pub open spec fn plans_generate_blocks(owned: Owned, alive: bool, num_blocks: u64, r: Result<HttpRequest, LibError>) -> bool {
    match resolution(owned, alive) {
        Err(e) => r == Err::<HttpRequest, LibError>(LibError::Simulator(e)),
        Ok((_, o)) => sends_generate_blocks(o, num_blocks, r),
    }
}

/// Whether `r` is the outcome of the operation that lists the initial wallets on
/// `owned`, where the liveness probe answered `alive`: the resolution's error
/// where it failed, else the operation's request for the owned options.
pub open spec fn plans_initial_wallets(owned: Owned, alive: bool, r: Result<HttpRequest, LibError>) -> bool {
    match resolution(owned, alive) {
        Err(e) => r == Err::<HttpRequest, LibError>(LibError::Simulator(e)),
        Ok((_, o)) => sends_initial_wallets(o, r),
    }
}

/// Whether `r` is the outcome of the operation that sets the storage keys of an address on
/// `owned`, where the liveness probe answered `alive`: the resolution's error
/// where it failed, else the operation's request for the owned options.
pub open spec fn plans_set_address_keys(owned: Owned, alive: bool, address: Seq<char>, keys: Map<String, String>, r: Result<HttpRequest, LibError>) -> bool {
    match resolution(owned, alive) {
        Err(e) => r == Err::<HttpRequest, LibError>(LibError::Simulator(e)),
        Ok((_, o)) => sends_set_address_keys(o, address, keys, r),
    }
}

/// Whether `r` is the outcome of the operation that applies account-state entries on
/// `owned`, where the liveness probe answered `alive`: the resolution's error
/// where it failed, else the operation's request for the owned options.
pub open spec fn plans_set_state(owned: Owned, alive: bool, entries: Seq<SetStateAddress>, r: Result<HttpRequest, LibError>) -> bool {
    match resolution(owned, alive) {
        Err(e) => r == Err::<HttpRequest, LibError>(LibError::Simulator(e)),
        Ok((_, o)) => sends_set_state(o, entries, r),
    }
}

/// Whether `r` is the outcome of generating `num_epochs` epochs on `owned`,
/// where the liveness probe answered `alive`: one request for
/// `(rounds_per_epoch + 1) * num_epochs` blocks, or an error where that count
/// does not fit in a `u64`.
pub open spec fn plans_generate_epochs(owned: Owned, alive: bool, num_epochs: u64, r: Result<HttpRequest, LibError>) -> bool {
    match resolution(owned, alive) {
        Err(e) => r == Err::<HttpRequest, LibError>(LibError::Simulator(e)),
        Ok((_, o)) => if epoch_blocks(o, num_epochs) <= u64::MAX {
            sends_generate_blocks(o, epoch_blocks(o, num_epochs) as u64, r)
        } else {
            r == Err::<HttpRequest, LibError>(
                LibError::Simulator(SimulatorError::BlockCountOverflow { num_epochs }),
            )
        },
    }
}

/// A change of the owned process, as one of the cell's operations makes it.
pub enum SlotEvent {
    /// A resolution, where the liveness probe answered `alive`.
    Probe { alive: bool },
    /// An explicit kill, or the first step of a start: whatever the outcome,
    /// nothing is owned afterwards.
    Depose,
    /// The step of a start after the readiness gate.
    Launch { pid: u32, options: SimulatorOptions, ready: bool },
}

/// What a resolution leaves owned: an exited process is forgotten.
pub open spec fn after_probe(owned: Owned, alive: bool) -> Owned {
    if alive {
        owned
    } else {
        None
    }
}

/// What is owned after `event`, where `owned` was owned before it.
pub open spec fn slot_step(owned: Owned, event: SlotEvent) -> Owned {
    match event {
        SlotEvent::Probe { alive } => after_probe(owned, alive),
        SlotEvent::Depose => None,
        SlotEvent::Launch { pid, options, ready } => after_launch(owned, pid, options, ready),
    }
}

/// What is owned after `events`, in order, from a cell that owned nothing.
pub open spec fn slot_run(events: Seq<SlotEvent>) -> Owned
    decreases events.len(),
{
    if events.len() == 0 {
        None
    } else {
        slot_step(slot_run(events.drop_last()), events.last())
    }
}

/// What the first step of a start hands to the launcher.
pub struct LaunchPlan {
    /// The pid that was sent SIGKILL, if a live process was owned.
    pub deposed: Option<u32>,
    pub cli_args: Vec<String>,
    pub config: SimulatorConfig,
}

/// The cell that holds the owned process. At most one process is owned at
/// any time; its pid can be signalled. The cell also keeps, as ghost state,
/// the pids that it has sent SIGKILL to, in order.
pub struct ProcessSlot {
    owned: Owned,
    killed: Ghost<Seq<u32>>,
}

impl View for ProcessSlot {
    type V = Owned;

    closed spec fn view(&self) -> Owned {
        self.owned
    }
}

/// Whether the pid of `owned`, if any, can be signalled.
pub open spec fn owned_ok(owned: Owned) -> bool {
    match owned {
        Some((pid, _)) => valid_pid(pid),
        None => true,
    }
}

impl ProcessSlot {
    #[verifier::type_invariant]
    spec fn inv(&self) -> bool {
        owned_ok(self.owned)
    }

    /// The pids that this cell has sent SIGKILL to, oldest first.
    pub closed spec fn killed(&self) -> Seq<u32> {
        self.killed@
    }

    /// A cell that owns nothing and has killed nothing.
    pub fn new() -> (r: ProcessSlot)
        ensures
            r@ is None,
            r.killed() == Seq::<u32>::empty(),
    {
        ProcessSlot { owned: None, killed: Ghost(Seq::empty()) }
    }

    /// Relies on nix::sys::signal::kill with SIGKILL. Whether the signal was
    /// delivered is not reported: a deposed process is not waited for. The
    /// pid is appended to the log of killed pids.
    #[verifier::external_body]
    fn send_kill_signal(&mut self, pid: u32)
        requires
            valid_pid(pid),
        ensures
            final(self)@ == old(self)@,
            final(self).killed() == old(self).killed().push(pid),
    {
        let target = nix::unistd::Pid::from_raw(pid as i32);
        let _ = nix::sys::signal::kill(target, nix::sys::signal::Signal::SIGKILL);
    }

    /// The owned process and its options.
    pub fn owned(&self) -> (r: Owned)
        ensures
            r == self@,
            owned_ok(r),
    {
        proof {
            use_type_invariant(self);
        }
        self.owned
    }

    /// Whether some process is owned.
    pub fn is_owned(&self) -> (r: bool)
        ensures
            r == self@ is Some,
    {
        self.owned.is_some()
    }

    /// Resolves the owned process: fails where none is owned, or where the
    /// liveness probe finds it gone, in which case it is forgotten.
    pub fn resolve(&mut self) -> (r: Result<(u32, SimulatorOptions), SimulatorError>)
        ensures
            exists|alive: bool|
                r == #[trigger] resolution(old(self)@, alive) && final(self)@ == slot_step(
                    old(self)@,
                    SlotEvent::Probe { alive },
                ),
            final(self).killed() == old(self).killed(),
    {
        proof {
            use_type_invariant(&*self);
        }
        match self.owned {
            None => {
                let r = resolve_with(None, false);
                assert(r == resolution(old(self)@, false));
                r
            },
            Some((pid, options)) => {
                let alive = is_process_running(pid);
                let r = resolve_with(Some((pid, options)), alive);
                if !alive {
                    self.owned = None;
                }
                assert(r == resolution(old(self)@, alive));
                r
            },
        }
    }

    /// Sends SIGKILL to the owned process and forgets it. Fails where nothing
    /// is owned, or where the owned process is gone; nothing is owned
    /// afterwards either way.
    pub fn kill(&mut self) -> (r: Result<u32, SimulatorError>)
        ensures
            final(self)@ == slot_step(old(self)@, SlotEvent::Depose),
            exists|alive: bool|
                match #[trigger] resolution(old(self)@, alive) {
                    Err(e) => r == Err::<u32, SimulatorError>(e) && final(self).killed() == old(
                        self,
                    ).killed(),
                    Ok((pid, _)) => r == Ok::<u32, SimulatorError>(pid) && final(self).killed()
                        == old(self).killed().push(pid),
                },
    {
        proof {
            use_type_invariant(&*self);
        }
        let resolved = self.resolve();
        let ghost alive = choose|alive: bool|
            resolved == #[trigger] resolution(old(self)@, alive) && self@ == slot_step(
                old(self)@,
                SlotEvent::Probe { alive },
            );
        match resolved {
            Err(e) => Err(e),
            Ok((pid, _)) => {
                proof {
                    use_type_invariant(&*self);
                }
                self.send_kill_signal(pid);
                self.owned = None;
                Ok(pid)
            },
        }
    }

    /// The first step of a start: deposes the owned process (SIGKILL where it
    /// is alive; a failure to kill is not reported), forgets it, and prepares
    /// the arguments and configuration of the launch with `options`.
    pub fn begin_start(&mut self, options: &SimulatorOptions) -> (r: LaunchPlan)
        ensures
            final(self)@ == slot_step(old(self)@, SlotEvent::Depose),
            exists|alive: bool| r.deposed == #[trigger] deposed_pid(old(self)@, alive),
            r.deposed is Some ==> final(self).killed() == old(self).killed().push(r.deposed->0),
            r.deposed is None ==> final(self).killed() == old(self).killed(),
            r.cli_args@.len() == 8,
            forall|i: int| 0 <= i < 8 ==> #[trigger] r.cli_args@[i]@ == cli_args(*options)[i],
            is_config_for(r.config, *options),
    {
        let killed = self.kill();
        let ghost alive = choose|alive: bool|
            match #[trigger] resolution(old(self)@, alive) {
                Err(e) => killed == Err::<u32, SimulatorError>(e) && self.killed() == old(
                    self,
                ).killed(),
                Ok((pid, _)) => killed == Ok::<u32, SimulatorError>(pid) && self.killed() == old(
                    self,
                ).killed().push(pid),
            };
        let deposed = match killed {
            Ok(pid) => Some(pid),
            Err(_) => None,
        };
        assert(deposed == deposed_pid(old(self)@, alive));
        LaunchPlan {
            deposed,
            cli_args: options.to_cli_args(),
            config: SimulatorConfig::for_options(options),
        }
    }

    /// The step of a start after the readiness gate: records the launched
    /// process where it became ready. Else sends it SIGKILL, so that no
    /// unowned simulator is left running, fails with a timeout and records
    /// nothing.
    pub fn finish_start(&mut self, pid: u32, options: SimulatorOptions, ready: bool) -> (r: Result<(), SimulatorError>)
        requires
            valid_pid(pid),
        ensures
            final(self)@ == slot_step(old(self)@, SlotEvent::Launch { pid, options, ready }),
            ready ==> r is Ok && final(self).killed() == old(self).killed(),
            !ready ==> r == Err::<(), SimulatorError>(SimulatorError::TimedOutWhileWaitingToBeReady)
                && final(self).killed() == old(self).killed().push(pid),
    {
        if ready {
            self.owned = Some((pid, options));
            Ok(())
        } else {
            self.send_kill_signal(pid);
            Err(SimulatorError::TimedOutWhileWaitingToBeReady)
        }
    }

    /// The request of one tick of background block generation: one block,
    /// on `server_port`, for as long as some process is owned.
    pub fn autogeneration_tick(&self, server_port: u16) -> (r: Option<HttpRequest>)
        ensures
            r is None <==> self@ is None,
            r is Some ==> r->0.method == HttpMethod::Post && r->0.url@ == generate_blocks_url(
                server_port,
                1,
            ) && r->0.body is None,
    {
        if self.owned.is_some() {
            Some(generate_blocks_request(server_port, 1))
        } else {
            None
        }
    }

    /// The request that generates `num_blocks` blocks on the owned process.
    /// Resolves the owned process first, forgetting it where it is gone.
    pub fn plan_generate_blocks(&mut self, num_blocks: u64) -> (r: Result<HttpRequest, LibError>)
        ensures
            exists|alive: bool|
                #[trigger] plans_generate_blocks(old(self)@, alive, num_blocks, r) && final(self)@ == slot_step(
                    old(self)@,
                    SlotEvent::Probe { alive },
                ),
            final(self).killed() == old(self).killed(),
    {
        let resolved = self.resolve();
        let ghost alive = choose|alive: bool|
            resolved == #[trigger] resolution(old(self)@, alive) && self@ == slot_step(
                old(self)@,
                SlotEvent::Probe { alive },
            );
        let r = match resolved {
            Err(e) => Err(LibError::Simulator(e)),
            Ok((_, o)) => Ok(generate_blocks_request(o.server_port, num_blocks)),
        };
        assert(plans_generate_blocks(old(self)@, alive, num_blocks, r));
        r
    }

    /// The request that generates `num_epochs` epochs on the owned process:
    /// one request for all their blocks.
    /// Resolves the owned process first, forgetting it where it is gone.
    pub fn plan_generate_epochs(&mut self, num_epochs: u64) -> (r: Result<HttpRequest, LibError>)
        ensures
            exists|alive: bool|
                #[trigger] plans_generate_epochs(old(self)@, alive, num_epochs, r) && final(self)@ == slot_step(
                    old(self)@,
                    SlotEvent::Probe { alive },
                ),
            final(self).killed() == old(self).killed(),
    {
        let resolved = self.resolve();
        let ghost alive = choose|alive: bool|
            resolved == #[trigger] resolution(old(self)@, alive) && self@ == slot_step(
                old(self)@,
                SlotEvent::Probe { alive },
            );
        let r = match resolved {
            Err(e) => Err(LibError::Simulator(e)),
            Ok((_, o)) => match o.blocks_for_epochs(num_epochs) {
                Some(count) => Ok(generate_blocks_request(o.server_port, count)),
                None => Err(LibError::Simulator(SimulatorError::BlockCountOverflow { num_epochs })),
            },
        };
        assert(plans_generate_epochs(old(self)@, alive, num_epochs, r));
        r
    }

    /// The request that lists the initial wallets of the owned process.
    /// Resolves the owned process first, forgetting it where it is gone.
    pub fn plan_initial_wallets(&mut self) -> (r: Result<HttpRequest, LibError>)
        ensures
            exists|alive: bool|
                #[trigger] plans_initial_wallets(old(self)@, alive, r) && final(self)@ == slot_step(
                    old(self)@,
                    SlotEvent::Probe { alive },
                ),
            final(self).killed() == old(self).killed(),
    {
        let resolved = self.resolve();
        let ghost alive = choose|alive: bool|
            resolved == #[trigger] resolution(old(self)@, alive) && self@ == slot_step(
                old(self)@,
                SlotEvent::Probe { alive },
            );
        let r = match resolved {
            Err(e) => Err(LibError::Simulator(e)),
            Ok((_, o)) => Ok(initial_wallets_request(o.server_port)),
        };
        assert(plans_initial_wallets(old(self)@, alive, r));
        r
    }

    /// The request that sets the storage `keys` of `address` on the owned process.
    /// Resolves the owned process first, forgetting it where it is gone.
    pub fn plan_set_address_keys(&mut self, address: &str, keys: &HashMap<String, String>) -> (r: Result<HttpRequest, LibError>)
        ensures
            exists|alive: bool|
                #[trigger] plans_set_address_keys(old(self)@, alive, address@, keys@, r) && final(self)@ == slot_step(
                    old(self)@,
                    SlotEvent::Probe { alive },
                ),
            final(self).killed() == old(self).killed(),
    {
        let resolved = self.resolve();
        let ghost alive = choose|alive: bool|
            resolved == #[trigger] resolution(old(self)@, alive) && self@ == slot_step(
                old(self)@,
                SlotEvent::Probe { alive },
            );
        let r = match resolved {
            Err(e) => Err(LibError::Simulator(e)),
            Ok((_, o)) => Ok(set_address_keys_request(o.server_port, address, keys)),
        };
        assert(plans_set_address_keys(old(self)@, alive, address@, keys@, r));
        r
    }

    /// The request that applies the account-state `entries` on the owned process.
    /// Resolves the owned process first, forgetting it where it is gone.
    pub fn plan_set_state(&mut self, entries: &Vec<SetStateAddress>) -> (r: Result<HttpRequest, LibError>)
        ensures
            exists|alive: bool|
                #[trigger] plans_set_state(old(self)@, alive, entries@, r) && final(self)@ == slot_step(
                    old(self)@,
                    SlotEvent::Probe { alive },
                ),
            final(self).killed() == old(self).killed(),
    {
        let resolved = self.resolve();
        let ghost alive = choose|alive: bool|
            resolved == #[trigger] resolution(old(self)@, alive) && self@ == slot_step(
                old(self)@,
                SlotEvent::Probe { alive },
            );
        let r = match resolved {
            Err(e) => Err(LibError::Simulator(e)),
            Ok((_, o)) => Ok(set_state_request(o.server_port, entries)),
        };
        assert(plans_set_state(old(self)@, alive, entries@, r));
        r
    }
}

/// How a waited-for process ended: `success`, and the exit code or the
/// terminating signal where the operating system reports one.
pub struct ExitReport {
    pub success: bool,
    pub code: Option<i32>,
    pub signal: Option<i32>,
}

/// The outcome of waiting for a process; `None` where the wait itself failed.
pub open spec fn exit_verdict(report: Option<ExitReport>) -> Result<(), SimulatorError> {
    match report {
        None => Err(SimulatorError::ProcessAlreadyFinished),
        Some(e) => if e.success {
            Ok(())
        } else {
            Err(SimulatorError::ProcessExitedWithErrorCode { code: e.code, signal: e.signal })
        },
    }
}

/// Classifies how a process ended: a successful exit is silent, any other
/// carries the exit code and signal.
pub fn exit_outcome(report: Option<ExitReport>) -> (r: Result<(), SimulatorError>)
    ensures
        r == exit_verdict(report),
{
    match report {
        None => Err(SimulatorError::ProcessAlreadyFinished),
        Some(e) => if e.success {
            Ok(())
        } else {
            Err(SimulatorError::ProcessExitedWithErrorCode { code: e.code, signal: e.signal })
        },
    }
}

} // verus!
