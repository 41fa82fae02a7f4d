use std::time::Duration;

use mx_chain_simulator_interface::config::SimulatorConfig;
use mx_chain_simulator_interface::text::{
    bool_string, decimal_string, octal_string, signed_decimal_string,
};
use mx_chain_simulator_interface::SimulatorOptions;

#[test]
fn default_options() {
    let o = SimulatorOptions::new();
    assert_eq!(o.server_port, 8085);
    assert_eq!(o.num_of_shards, 3);
    assert_eq!(o.rounds_per_epoch, 20);
    assert!(!o.bypass_txs_signature);
    assert_eq!(o.block_autogenerate_duration, None);
}

#[test]
fn builders_change_one_field_each() {
    let o = SimulatorOptions::new()
        .with_server_port(9000)
        .with_num_of_shards(2)
        .with_rounds_per_epoch(5)
        .bypass_transactions_signature()
        .with_block_autogeneration(Duration::from_secs(2));
    assert_eq!(o.server_port, 9000);
    assert_eq!(o.num_of_shards, 2);
    assert_eq!(o.rounds_per_epoch, 5);
    assert!(o.bypass_txs_signature);
    assert_eq!(o.block_autogenerate_duration, Some(Duration::from_secs(2)));
}

#[test]
fn cli_args_of_default_options() {
    assert_eq!(
        SimulatorOptions::new().to_cli_args(),
        vec![
            "--server-port",
            "8085",
            "--num-of-shards",
            "3",
            "--rounds-per-epoch",
            "20",
            "--bypass-txs-signature",
            "false",
        ]
    );
}

#[test]
fn cli_args_of_custom_options() {
    let o = SimulatorOptions::new()
        .with_server_port(0)
        .with_num_of_shards(u64::MAX)
        .with_rounds_per_epoch(100)
        .bypass_transactions_signature();
    assert_eq!(
        o.to_cli_args(),
        vec![
            "--server-port",
            "0",
            "--num-of-shards",
            "18446744073709551615",
            "--rounds-per-epoch",
            "100",
            "--bypass-txs-signature",
            "true",
        ]
    );
}

#[test]
fn an_epoch_is_rounds_plus_one_blocks() {
    let o = SimulatorOptions::new();
    assert_eq!(o.blocks_for_epochs(1), Some(21));
    assert_eq!(o.blocks_for_epochs(3), Some(63));
    assert_eq!(o.blocks_for_epochs(0), Some(0));
    let small = SimulatorOptions::new().with_rounds_per_epoch(0);
    assert_eq!(small.blocks_for_epochs(7), Some(7));
}

#[test]
fn epoch_count_overflow_is_reported() {
    let o = SimulatorOptions::new().with_rounds_per_epoch(u64::MAX);
    assert_eq!(o.blocks_for_epochs(1), None);
    assert_eq!(o.blocks_for_epochs(0), Some(0));
    let big = SimulatorOptions::new().with_rounds_per_epoch(u64::MAX / 2);
    assert_eq!(big.blocks_for_epochs(2), None);
    assert_eq!(big.blocks_for_epochs(1), Some(u64::MAX / 2 + 1));
}

#[test]
fn renderings() {
    assert_eq!(decimal_string(0), "0");
    assert_eq!(decimal_string(1234567890), "1234567890");
    assert_eq!(decimal_string(u64::MAX), "18446744073709551615");
    assert_eq!(signed_decimal_string(-9), "-9");
    assert_eq!(signed_decimal_string(i32::MIN), "-2147483648");
    assert_eq!(signed_decimal_string(137), "137");
    assert_eq!(octal_string(0o755), "755");
    assert_eq!(octal_string(0), "0");
    assert_eq!(bool_string(true), "true");
    assert_eq!(bool_string(false), "false");
}

#[test]
fn config_document_follows_the_options() {
    let o = SimulatorOptions::new().with_server_port(8100).with_num_of_shards(1).with_rounds_per_epoch(50);
    let c = SimulatorConfig::for_options(&o);
    let s = &c.config.simulator;
    assert_eq!(s.server_port, 8100);
    assert_eq!(s.num_of_shards, 1);
    assert_eq!(s.rounds_per_epoch, 50);
    assert_eq!(s.round_duration_in_milliseconds, 6000);
    assert_eq!(s.mx_chain_go_repo, "https://github.com/multiversx/mx-chain-go");
    assert_eq!(s.mx_chain_proxy_go_repo, "https://github.com/multiversx/mx-chain-proxy-go");
    let l = &c.config.logs;
    assert_eq!(l.log_file_life_span_in_mb, 1024);
    assert_eq!(l.log_file_life_span_in_sec, 432000);
    assert_eq!(l.log_file_prefix, "chain-simulator");
    assert_eq!(l.logs_path, "logs");
}

#[test]
fn default_config_document() {
    let c = SimulatorConfig::default();
    assert_eq!(c.config.simulator.server_port, 8085);
    assert_eq!(c.config.simulator.num_of_shards, 3);
    assert_eq!(c.config.simulator.rounds_per_epoch, 20);
}
