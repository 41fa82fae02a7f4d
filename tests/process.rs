use mx_chain_simulator_interface::client::HttpMethod;
use mx_chain_simulator_interface::platform::check_platform;
use mx_chain_simulator_interface::process::{
    exit_outcome, is_running, resolve_with, ExitReport, ProbeOutcome, ProcessSlot,
};
use mx_chain_simulator_interface::readiness::{readiness_step, ReadinessStep};
use mx_chain_simulator_interface::{
    FsError, GenerateBlocksError, LibError, ProcessError, SimulatorError, SimulatorOptions,
};

// pid_max on Linux is at most 2^22, so no process ever has this id.
const GONE_PID: u32 = 2147483647;

#[test]
fn operations_before_start_fail_with_not_started() {
    let mut slot = ProcessSlot::new();
    let not_started: Result<(), LibError> =
        Err(LibError::Simulator(SimulatorError::ProcessNotStarted));
    assert_eq!(slot.plan_generate_blocks(5).err(), not_started.clone().err());
    assert_eq!(slot.plan_generate_epochs(1).err(), not_started.clone().err());
    assert_eq!(slot.plan_initial_wallets().err(), not_started.clone().err());
    assert_eq!(slot.plan_set_state(&Vec::new()).err(), not_started.clone().err());
    assert_eq!(
        slot.plan_set_address_keys("a", &std::collections::HashMap::new()).err(),
        not_started.err()
    );
    assert!(!slot.is_owned());
    assert_eq!(slot.resolve(), Err(SimulatorError::ProcessNotStarted));
}

#[test]
fn operations_after_exit_fail_with_already_finished() {
    let mut slot = ProcessSlot::new();
    assert_eq!(slot.finish_start(GONE_PID, SimulatorOptions::new(), true), Ok(()));
    assert!(slot.is_owned());
    let finished = LibError::Simulator(SimulatorError::ProcessAlreadyFinished);
    assert_eq!(slot.plan_generate_blocks(1).err(), Some(finished));
    // the exited process is forgotten once it has been detected
    assert!(!slot.is_owned());
    assert_eq!(
        slot.plan_initial_wallets().err(),
        Some(LibError::Simulator(SimulatorError::ProcessNotStarted))
    );
}

#[test]
fn kill_of_an_exited_process_forgets_it() {
    let mut slot = ProcessSlot::new();
    slot.finish_start(GONE_PID, SimulatorOptions::new(), true).unwrap();
    assert_eq!(slot.kill(), Err(SimulatorError::ProcessAlreadyFinished));
    assert!(!slot.is_owned());
    assert_eq!(slot.kill(), Err(SimulatorError::ProcessNotStarted));
}

#[test]
fn epochs_whose_block_count_overflows_are_refused() {
    let mut slot = ProcessSlot::new();
    // pid 1 always exists; it is only probed here, never signalled.
    let options = SimulatorOptions::new().with_rounds_per_epoch(u64::MAX / 2);
    slot.finish_start(1, options, true).unwrap();
    assert_eq!(
        slot.plan_generate_epochs(3).err(),
        Some(LibError::Simulator(SimulatorError::BlockCountOverflow { num_epochs: 3 }))
    );
    assert!(slot.is_owned());
    assert_eq!(
        SimulatorError::BlockCountOverflow { num_epochs: 3 }.message(),
        "Cannot generate 3 epochs: their block count does not fit in 64 bits."
    );
}

#[test]
fn live_process_gets_requests_on_its_port() {
    let mut slot = ProcessSlot::new();
    // pid 1 always exists; it is only probed here, never signalled.
    let options = SimulatorOptions::new().with_server_port(8123).with_rounds_per_epoch(4);
    assert_eq!(slot.finish_start(1, options, true), Ok(()));
    let req = slot.plan_generate_epochs(2).unwrap();
    assert_eq!(req.url, "http://localhost:8123/simulator/generate-blocks/10");
    assert_eq!(req.method, HttpMethod::Post);
    let req = slot.plan_generate_blocks(5).unwrap();
    assert_eq!(req.url, "http://localhost:8123/simulator/generate-blocks/5");
    let req = slot.plan_initial_wallets().unwrap();
    assert_eq!(req.url, "http://localhost:8123/simulator/initial-wallets");
    assert_eq!(slot.resolve().map(|(pid, _)| pid), Ok(1));
}

#[test]
fn readiness_timeout_records_nothing() {
    let mut slot = ProcessSlot::new();
    let plan = slot.begin_start(&SimulatorOptions::new());
    assert_eq!(plan.deposed, None);
    assert_eq!(
        slot.finish_start(GONE_PID, SimulatorOptions::new(), false),
        Err(SimulatorError::TimedOutWhileWaitingToBeReady)
    );
    assert!(!slot.is_owned());
    assert_eq!(slot.owned().map(|(pid, _)| pid), None);
}

#[test]
fn restart_forgets_an_exited_process_without_signalling_it() {
    let mut slot = ProcessSlot::new();
    slot.finish_start(GONE_PID, SimulatorOptions::new(), true).unwrap();
    let plan = slot.begin_start(&SimulatorOptions::new().with_server_port(9001));
    assert_eq!(plan.deposed, None);
    assert!(!slot.is_owned());
    assert_eq!(plan.cli_args[1], "9001");
    assert_eq!(plan.config.config.simulator.server_port, 9001);
    slot.finish_start(4243, SimulatorOptions::new(), true).unwrap();
    assert_eq!(slot.owned().map(|(pid, _)| pid), Some(4243));
}

#[test]
fn resolution_of_probe_answers() {
    let options = SimulatorOptions::new();
    assert_eq!(resolve_with(None, true).err(), Some(SimulatorError::ProcessNotStarted));
    assert_eq!(resolve_with(Some((7, options)), false).err(), Some(SimulatorError::ProcessAlreadyFinished));
    assert_eq!(resolve_with(Some((7, options)), true).map(|(pid, _)| pid), Ok(7));
    assert!(is_running(ProbeOutcome::Present));
    assert!(is_running(ProbeOutcome::Denied));
    assert!(!is_running(ProbeOutcome::Absent));
}

#[test]
fn autogeneration_stops_once_nothing_is_owned() {
    let mut slot = ProcessSlot::new();
    assert!(slot.autogeneration_tick(8085).is_none());
    slot.finish_start(GONE_PID, SimulatorOptions::new(), true).unwrap();
    let tick = slot.autogeneration_tick(8085).unwrap();
    assert_eq!(tick.url, "http://localhost:8085/simulator/generate-blocks/1");
    slot.begin_start(&SimulatorOptions::new());
    assert!(slot.autogeneration_tick(8085).is_none());
}

#[test]
fn readiness_steps() {
    assert_eq!(readiness_step(0, 10000, Some(200)), ReadinessStep::Ready);
    assert_eq!(readiness_step(10000, 10000, Some(204)), ReadinessStep::Ready);
    assert_eq!(readiness_step(10001, 10000, Some(200)), ReadinessStep::TimedOut);
    assert_eq!(readiness_step(5, 10000, Some(404)), ReadinessStep::Retry);
    assert_eq!(readiness_step(5, 10000, None), ReadinessStep::Retry);
    assert_eq!(readiness_step(20000, 10000, None), ReadinessStep::TimedOut);
}

#[test]
fn exit_outcomes() {
    assert_eq!(exit_outcome(Some(ExitReport { success: true, code: Some(0), signal: None })), Ok(()));
    assert_eq!(
        exit_outcome(Some(ExitReport { success: false, code: Some(3), signal: None })),
        Err(SimulatorError::ProcessExitedWithErrorCode { code: Some(3), signal: None })
    );
    assert_eq!(
        exit_outcome(Some(ExitReport { success: false, code: None, signal: Some(9) })),
        Err(SimulatorError::ProcessExitedWithErrorCode { code: None, signal: Some(9) })
    );
    assert_eq!(exit_outcome(None), Err(SimulatorError::ProcessAlreadyFinished));
}

#[test]
fn supported_platforms() {
    assert_eq!(check_platform("linux", "x86_64"), Ok(()));
    assert_eq!(check_platform("macos", "aarch64"), Ok(()));
    assert_eq!(check_platform("macos", "x86_64"), Ok(()));
    assert_eq!(
        check_platform("linux", "aarch64"),
        Err(ProcessError::UnsupportedOSAndArch { os: "linux".to_string(), arch: "aarch64".to_string() })
    );
    assert_eq!(
        check_platform("windows", "x86_64"),
        Err(ProcessError::UnsupportedOSAndArch { os: "windows".to_string(), arch: "x86_64".to_string() })
    );
}

#[test]
fn error_messages() {
    assert_eq!(
        SimulatorError::ProcessNotStarted.message(),
        "Simulator is not started. Please start it using the .start() method."
    );
    assert_eq!(
        SimulatorError::ProcessExitedWithErrorCode { code: Some(-2), signal: None }.message(),
        "Simulator exited with error code -2."
    );
    assert_eq!(
        SimulatorError::ProcessExitedWithErrorCode { code: None, signal: Some(9) }.message(),
        "Simulator was terminated by signal 9."
    );
    assert_eq!(
        SimulatorError::ProcessExitedWithErrorCode { code: None, signal: None }.message(),
        "Simulator exited without error code."
    );
    assert_eq!(
        GenerateBlocksError::ResponseStatusIsNotSuccessful { url: "u".to_string(), status: 503 }.message(),
        "Generate blocks response's status is not successful: 503, url: u"
    );
    assert_eq!(
        FsError::CannotSetPermissionsToFile { file_path: "/t/x".to_string(), permissions_mode: 0o755 }.message(),
        "Cannot set permissions 0o755 to file /t/x"
    );
    assert_eq!(
        FsError::CannotWriteBytesToFile { file_path: "f".to_string(), bytes: vec![1, 2, 3] }.message(),
        "Cannot write bytes of length 3 in f"
    );
    assert_eq!(
        LibError::Process(ProcessError::UnsupportedOSAndArch { os: "a".to_string(), arch: "b".to_string() }).message(),
        "Unsupported OS and arch: a b. Supported OS and arch: linux/amd64, darwin/amd64"
    );
    assert_eq!(
        LibError::from(SimulatorError::StdoutAlreadyConsumed),
        LibError::Simulator(SimulatorError::StdoutAlreadyConsumed)
    );
}

#[test]
fn start_then_operations_on_default_options() {
    let mut slot = ProcessSlot::new();
    let options = SimulatorOptions::new();
    let plan = slot.begin_start(&options);
    assert_eq!(plan.deposed, None);
    assert_eq!(plan.cli_args[1], "8085");
    assert_eq!(plan.cli_args[3], "3");
    // pid 1 always exists; it is only probed here, never signalled.
    slot.finish_start(1, options, true).unwrap();
    let epoch = slot.plan_generate_epochs(1).unwrap();
    assert_eq!(epoch.url, "http://localhost:8085/simulator/generate-blocks/21");
    let blocks = slot.plan_generate_blocks(5).unwrap();
    assert_eq!(blocks.url, "http://localhost:8085/simulator/generate-blocks/5");
    let wallets = slot.plan_initial_wallets().unwrap();
    assert_eq!(wallets.url, "http://localhost:8085/simulator/initial-wallets");
}
