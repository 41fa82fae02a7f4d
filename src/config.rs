//! The configuration document that the simulator reads at launch.

use vstd::prelude::*;
use crate::options::SimulatorOptions;

verus! {

/// The whole document: one `config` table.
pub struct SimulatorConfig {
    pub config: SimulatorConfigConfig,
}

/// The two sections of the document.
pub struct SimulatorConfigConfig {
    pub simulator: SimulatorConfigSimulator,
    pub logs: SimulatorConfigLogs,
}

/// The `simulator` section.
pub struct SimulatorConfigSimulator {
    pub server_port: u16,
    pub num_of_shards: u64,
    pub round_duration_in_milliseconds: u64,
    pub rounds_per_epoch: u64,
    pub mx_chain_go_repo: String,
    pub mx_chain_proxy_go_repo: String,
}

/// The `logs` section.
pub struct SimulatorConfigLogs {
    pub log_file_life_span_in_mb: u64,
    pub log_file_life_span_in_sec: u64,
    pub log_file_prefix: String,
    pub logs_path: String,
}

pub const ROUND_DURATION_IN_MILLISECONDS: u64 = 6000;
pub const LOG_FILE_LIFE_SPAN_IN_MB: u64 = 1024;
pub const LOG_FILE_LIFE_SPAN_IN_SEC: u64 = 432000;

/// Whether `c` is the document for options `o`: the port, the shard count and
/// the rounds per epoch come from `o`, every other entry holds its fixed default.
pub open spec fn is_config_for(c: SimulatorConfig, o: SimulatorOptions) -> bool {
    let s = c.config.simulator;
    let l = c.config.logs;
    &&& s.server_port == o.server_port
    &&& s.num_of_shards == o.num_of_shards
    &&& s.round_duration_in_milliseconds == ROUND_DURATION_IN_MILLISECONDS
    &&& s.rounds_per_epoch == o.rounds_per_epoch
    &&& s.mx_chain_go_repo@ == "https://github.com/multiversx/mx-chain-go"@
    &&& s.mx_chain_proxy_go_repo@ == "https://github.com/multiversx/mx-chain-proxy-go"@
    &&& l.log_file_life_span_in_mb == LOG_FILE_LIFE_SPAN_IN_MB
    &&& l.log_file_life_span_in_sec == LOG_FILE_LIFE_SPAN_IN_SEC
    &&& l.log_file_prefix@ == "chain-simulator"@
    &&& l.logs_path@ == "logs"@
}

impl SimulatorConfig {
    /// The configuration document for a launch with `options`.
    pub fn for_options(options: &SimulatorOptions) -> (r: SimulatorConfig)
        ensures
            is_config_for(r, *options),
    {
        SimulatorConfig {
            config: SimulatorConfigConfig {
                simulator: SimulatorConfigSimulator {
                    server_port: options.server_port,
                    num_of_shards: options.num_of_shards,
                    round_duration_in_milliseconds: ROUND_DURATION_IN_MILLISECONDS,
                    rounds_per_epoch: options.rounds_per_epoch,
                    mx_chain_go_repo: String::from_str("https://github.com/multiversx/mx-chain-go"),
                    mx_chain_proxy_go_repo: String::from_str(
                        "https://github.com/multiversx/mx-chain-proxy-go",
                    ),
                },
                logs: SimulatorConfigLogs {
                    log_file_life_span_in_mb: LOG_FILE_LIFE_SPAN_IN_MB,
                    log_file_life_span_in_sec: LOG_FILE_LIFE_SPAN_IN_SEC,
                    log_file_prefix: String::from_str("chain-simulator"),
                    logs_path: String::from_str("logs"),
                },
            },
        }
    }
}

impl Default for SimulatorConfig {
    /// The document for the default options.
    fn default() -> (r: SimulatorConfig)
        ensures
            is_config_for(r, crate::options::default_options()),
    {
        SimulatorConfig::for_options(&SimulatorOptions::new())
    }
}

} // verus!
