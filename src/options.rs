//! The immutable launch options of a simulator process.

use std::time::Duration;
use vstd::prelude::*;
use crate::text::{bool_string, bool_text, decimal, decimal_string};

verus! {

/// Launch options. A value is never changed once built: each builder method
/// consumes the options and hands back new ones.
#[derive(Clone, Copy, PartialEq, Eq, Debug)]
pub struct SimulatorOptions {
    /// Port of the simulator's HTTP API.
    pub server_port: u16,
    /// Number of shards the simulator runs.
    pub num_of_shards: u64,
    /// Rounds in one epoch; an epoch spans `rounds_per_epoch + 1` blocks.
    pub rounds_per_epoch: u64,
    /// Whether the simulator accepts transactions without checking their signature.
    pub bypass_txs_signature: bool,
    /// Interval of the background block generation, if any.
    pub block_autogenerate_duration: Option<Duration>,
}

pub const DEFAULT_SERVER_PORT: u16 = 8085;
pub const DEFAULT_NUM_OF_SHARDS: u64 = 3;
pub const DEFAULT_ROUNDS_PER_EPOCH: u64 = 20;

/// The default options: port 8085, three shards, twenty rounds per epoch,
/// signatures checked, no background block generation.
pub open spec fn default_options() -> SimulatorOptions {
    SimulatorOptions {
        server_port: DEFAULT_SERVER_PORT,
        num_of_shards: DEFAULT_NUM_OF_SHARDS,
        rounds_per_epoch: DEFAULT_ROUNDS_PER_EPOCH,
        bypass_txs_signature: false,
        block_autogenerate_duration: None,
    }
}

/// The command-line arguments that launch a simulator with options `o`.
pub open spec fn cli_args(o: SimulatorOptions) -> Seq<Seq<char>> {
    seq![
        "--server-port"@,
        decimal(o.server_port as nat),
        "--num-of-shards"@,
        decimal(o.num_of_shards as nat),
        "--rounds-per-epoch"@,
        decimal(o.rounds_per_epoch as nat),
        "--bypass-txs-signature"@,
        bool_text(o.bypass_txs_signature),
    ]
}

/// The number of blocks that make up `num_epochs` epochs under options `o`.
pub open spec fn epoch_blocks(o: SimulatorOptions, num_epochs: u64) -> int {
    (o.rounds_per_epoch + 1) * num_epochs
}

impl Default for SimulatorOptions {
    fn default() -> (r: SimulatorOptions)
        ensures
            r == default_options(),
    {
        SimulatorOptions {
            server_port: DEFAULT_SERVER_PORT,
            num_of_shards: DEFAULT_NUM_OF_SHARDS,
            rounds_per_epoch: DEFAULT_ROUNDS_PER_EPOCH,
            bypass_txs_signature: false,
            block_autogenerate_duration: None,
        }
    }
}

impl SimulatorOptions {
    /// The default options.
    pub fn new() -> (r: SimulatorOptions)
        ensures
            r == default_options(),
    {
        SimulatorOptions::default()
    }

    pub fn with_server_port(self, server_port: u16) -> (r: Self)
        ensures
            r == (SimulatorOptions { server_port, ..self }),
    {
        SimulatorOptions { server_port, ..self }
    }

    pub fn with_num_of_shards(self, num_of_shards: u64) -> (r: Self)
        ensures
            r == (SimulatorOptions { num_of_shards, ..self }),
    {
        SimulatorOptions { num_of_shards, ..self }
    }

    pub fn with_rounds_per_epoch(self, rounds_per_epoch: u64) -> (r: Self)
        ensures
            r == (SimulatorOptions { rounds_per_epoch, ..self }),
    {
        SimulatorOptions { rounds_per_epoch, ..self }
    }

    pub fn bypass_transactions_signature(self) -> (r: Self)
        ensures
            r == (SimulatorOptions { bypass_txs_signature: true, ..self }),
    {
        SimulatorOptions { bypass_txs_signature: true, ..self }
    }

    pub fn with_block_autogeneration(self, each: Duration) -> (r: Self)
        ensures
            r == (SimulatorOptions { block_autogenerate_duration: Some(each), ..self }),
    {
        SimulatorOptions { block_autogenerate_duration: Some(each), ..self }
    }

    /// The command-line arguments of a simulator launched with these options.
    pub fn to_cli_args(&self) -> (r: Vec<String>)
        ensures
            r@.len() == 8,
            forall|i: int| 0 <= i < 8 ==> #[trigger] r@[i]@ == cli_args(*self)[i],
    {
        let mut r: Vec<String> = Vec::new();
        r.push(String::from_str("--server-port"));
        r.push(decimal_string(self.server_port as u64));
        r.push(String::from_str("--num-of-shards"));
        r.push(decimal_string(self.num_of_shards));
        r.push(String::from_str("--rounds-per-epoch"));
        r.push(decimal_string(self.rounds_per_epoch));
        r.push(String::from_str("--bypass-txs-signature"));
        r.push(bool_string(self.bypass_txs_signature));
        r
    }

    /// The number of blocks in `num_epochs` epochs, `(rounds_per_epoch + 1) * num_epochs`,
    /// or `None` where that number does not fit in a `u64`.
    pub fn blocks_for_epochs(&self, num_epochs: u64) -> (r: Option<u64>)
        ensures
            epoch_blocks(*self, num_epochs) <= u64::MAX ==> r == Some(
                epoch_blocks(*self, num_epochs) as u64,
            ),
            epoch_blocks(*self, num_epochs) > u64::MAX ==> r is None,
    {
        if self.rounds_per_epoch == u64::MAX {
            if num_epochs == 0 {
                Some(0)
            } else {
                None
            }
        } else {
            let per_epoch = self.rounds_per_epoch + 1;
            if num_epochs == 0 {
                Some(0)
            } else if per_epoch > u64::MAX / num_epochs {
                proof {
                    assert(per_epoch * num_epochs > u64::MAX) by (nonlinear_arith)
                        requires
                            per_epoch > u64::MAX / num_epochs,
                            num_epochs > 0,
                    ;
                }
                None
            } else {
                proof {
                    assert(per_epoch * num_epochs <= u64::MAX) by (nonlinear_arith)
                        requires
                            per_epoch <= u64::MAX / num_epochs,
                            num_epochs > 0,
                    ;
                }
                Some(per_epoch * num_epochs)
            }
        }
    }
}

} // verus!
