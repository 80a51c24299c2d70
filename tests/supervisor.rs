use maestro::{
    run_step, AddressRecord, InterfaceAddress, Ipv4Addr, NetworkInterface, RestartPolicy,
    RunAction, RunEvent, RunPhase, Supervisor, TaskState, GRACE_PERIOD_MS,
};

fn loopback() -> NetworkInterface {
    let records = vec![AddressRecord {
        name: "lo".to_string(),
        address: InterfaceAddress::V4(Ipv4Addr(0x7f00_0001)),
    }];
    NetworkInterface::from_records("lo", Ok(1), &records, [0; 6]).unwrap()
}

#[test]
fn empty_supervisor_returns_at_once() {
    let sup: Supervisor<()> = Supervisor::new(loopback());
    assert!(sup.is_empty());
    assert_eq!(sup.begin_run(), (RunPhase::Finished, RunAction::Return));
}

#[test]
fn run_phases_follow_signal_and_grace() {
    assert_eq!(
        run_step(RunPhase::Idle, 2, RunEvent::Start),
        (RunPhase::Serving, RunAction::SpawnAndAwaitSignal)
    );
    assert_eq!(
        run_step(RunPhase::Serving, 2, RunEvent::Interrupted),
        (RunPhase::Draining, RunAction::CancelAndDrain(5000))
    );
    assert_eq!(GRACE_PERIOD_MS, 5000);
    assert_eq!(
        run_step(RunPhase::Draining, 2, RunEvent::AllFinished),
        (RunPhase::Finished, RunAction::Return)
    );
    assert_eq!(
        run_step(RunPhase::Draining, 2, RunEvent::GraceElapsed),
        (RunPhase::Finished, RunAction::AbortRemaining)
    );
    assert_eq!(
        run_step(RunPhase::Serving, 2, RunEvent::SignalFailed),
        (RunPhase::Finished, RunAction::Fail)
    );
    assert_eq!(
        run_step(RunPhase::Serving, 2, RunEvent::GraceElapsed),
        (RunPhase::Serving, RunAction::Wait)
    );
}

#[test]
fn added_services_keep_order_and_default_policy() {
    let policy = RestartPolicy::default().with_max_attempts(2).with_delay(10);
    let mut sup = Supervisor::with_policy(loopback(), policy);
    sup.add("udp", 1u8);
    sup.add("tcp", 2u8);
    sup.add("udp2", 3u8);
    assert_eq!(sup.len(), 3);
    assert_eq!(sup.network_interface().name, "lo");
    assert_eq!(sup.restart_policy().max_attempts, Some(2));
    assert_eq!(
        sup.begin_run(),
        (RunPhase::Serving, RunAction::SpawnAndAwaitSignal)
    );
    let tasks = sup.into_tasks();
    let names: Vec<&str> = tasks.iter().map(|t| t.name).collect();
    assert_eq!(names, vec!["udp", "tcp", "udp2"]);
    let factories: Vec<u8> = tasks.iter().map(|t| t.factory).collect();
    assert_eq!(factories, vec![1, 2, 3]);
    for t in &tasks {
        assert_eq!(t.policy.max_attempts, Some(2));
        assert_eq!(t.policy.base_delay_ms, 10);
        assert_eq!(t.state, TaskState::Starting);
    }
}

#[test]
fn new_supervisor_uses_default_policy() {
    let sup: Supervisor<()> = Supervisor::new(loopback());
    assert_eq!(sup.restart_policy().max_attempts, Some(5));
    assert_eq!(sup.restart_policy().base_delay_ms, 1000);
}
