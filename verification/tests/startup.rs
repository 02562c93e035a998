use worker::startup::{StartupAction, StartupEvent, StartupPhase};

#[test]
fn startup_begins_by_waiting_for_the_coordinator() {
    let phase = StartupPhase::begin();
    assert_eq!(phase, StartupPhase::AwaitingMaster);
    assert_eq!(phase.action(), StartupAction::WaitForMaster);
}

#[test]
fn reachable_coordinator_and_acknowledged_registration_lead_to_serving() {
    let phase = StartupPhase::begin().step(StartupEvent::MasterReady);
    assert_eq!(phase, StartupPhase::Registering);
    assert_eq!(phase.action(), StartupAction::Register);
    let phase = phase.step(StartupEvent::Registered);
    assert_eq!(phase, StartupPhase::Serving);
    assert_eq!(phase.action(), StartupAction::Serve);
}

#[test]
fn readiness_timeout_aborts_the_startup_for_good() {
    let phase = StartupPhase::begin().step(StartupEvent::MasterUnreachable);
    assert_eq!(phase, StartupPhase::Aborted);
    assert_eq!(phase.action(), StartupAction::Abort);
    for event in [
        StartupEvent::MasterReady,
        StartupEvent::MasterUnreachable,
        StartupEvent::Registered,
        StartupEvent::RegistrationFailed,
    ] {
        assert_eq!(phase.step(event), StartupPhase::Aborted);
    }
}

#[test]
fn failed_registration_does_not_stop_the_node() {
    let phase = StartupPhase::begin()
        .step(StartupEvent::MasterReady)
        .step(StartupEvent::RegistrationFailed);
    assert_eq!(phase, StartupPhase::Serving);
    assert_eq!(phase.action(), StartupAction::Serve);
}

#[test]
fn serving_node_keeps_serving() {
    let phase = StartupPhase::Serving;
    for event in [
        StartupEvent::MasterReady,
        StartupEvent::MasterUnreachable,
        StartupEvent::Registered,
        StartupEvent::RegistrationFailed,
    ] {
        assert_eq!(phase.step(event), StartupPhase::Serving);
    }
}

#[test]
fn registration_results_mean_nothing_before_the_coordinator_is_ready() {
    let phase = StartupPhase::begin();
    assert_eq!(phase.step(StartupEvent::Registered), StartupPhase::AwaitingMaster);
    assert_eq!(phase.step(StartupEvent::RegistrationFailed), StartupPhase::AwaitingMaster);
    let registering = phase.step(StartupEvent::MasterReady);
    assert_eq!(registering.step(StartupEvent::MasterUnreachable), StartupPhase::Registering);
    assert_eq!(registering.step(StartupEvent::MasterReady), StartupPhase::Registering);
}
