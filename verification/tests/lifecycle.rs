use zenith_status::diagnostics::{DiagnosticEvent, Severity};
use zenith_status::lifecycle::{
    BindError, LifecycleAction, LifecycleEvent, Phase, ServerLifecycle, CAPACITY,
};

fn listening() -> ServerLifecycle {
    let mut lifecycle = ServerLifecycle::new();
    assert_eq!(lifecycle.step(LifecycleEvent::BindSucceeded), LifecycleAction::Accept);
    lifecycle
}

#[test]
fn new_server_is_created_and_idle() {
    let lifecycle = ServerLifecycle::new();
    assert_eq!(lifecycle.phase(), Phase::Created);
    assert_eq!(lifecycle.in_flight(), 0);
    assert!(!lifecycle.is_accepting());
}

#[test]
fn successful_bind_starts_listening() {
    let lifecycle = listening();
    assert_eq!(lifecycle.phase(), Phase::Listening);
    assert!(lifecycle.is_accepting());
    assert_eq!(lifecycle.in_flight(), 0);
}

#[test]
fn failed_bind_leaves_the_server_created() {
    for error in [BindError::Malformed, BindError::InUse] {
        let mut lifecycle = ServerLifecycle::new();
        let action = lifecycle.step(LifecycleEvent::BindFailed(error));
        assert_eq!(action, LifecycleAction::FailStartup(error));
        assert!(action.terminates());
        assert_eq!(action.diagnostic(), None);
        assert_eq!(lifecycle, ServerLifecycle::new());
        assert_eq!(lifecycle.phase(), Phase::Created);
        assert_eq!(lifecycle.in_flight(), 0);
        assert!(!lifecycle.is_accepting());

        // nothing is accepted and nothing is answered
        assert_eq!(lifecycle.step(LifecycleEvent::CallArrived), LifecycleAction::Refuse);
        assert_eq!(lifecycle.step(LifecycleEvent::CallCompleted), LifecycleAction::Ignore);
        assert_eq!(lifecycle.phase(), Phase::Created);
    }
}

#[test]
fn bind_can_succeed_after_it_failed() {
    let mut lifecycle = ServerLifecycle::new();
    assert_eq!(
        lifecycle.step(LifecycleEvent::BindFailed(BindError::InUse)),
        LifecycleAction::FailStartup(BindError::InUse)
    );
    assert_eq!(lifecycle.step(LifecycleEvent::BindSucceeded), LifecycleAction::Accept);
    assert_eq!(lifecycle.phase(), Phase::Listening);
}

#[test]
fn server_is_announced_only_before_it_is_bound() {
    let mut lifecycle = ServerLifecycle::new();
    assert_eq!(
        lifecycle.announce("[::1]:50051"),
        Some(DiagnosticEvent::ServerStarting { address: "[::1]:50051".to_string() })
    );
    assert_eq!(lifecycle.announce("[::1]:50051").unwrap().severity(), Severity::Info);

    lifecycle.step(LifecycleEvent::BindFailed(BindError::Malformed));
    assert_eq!(
        lifecycle.announce("nowhere"),
        Some(DiagnosticEvent::ServerStarting { address: "nowhere".to_string() })
    );

    lifecycle.step(LifecycleEvent::BindSucceeded);
    assert_eq!(lifecycle.announce("[::1]:50051"), None);
    lifecycle.step(LifecycleEvent::CallArrived);
    lifecycle.step(LifecycleEvent::Interrupted);
    assert_eq!(lifecycle.announce("[::1]:50051"), None);
    lifecycle.step(LifecycleEvent::DrainDeadlineElapsed);
    assert_eq!(lifecycle.phase(), Phase::Stopped);
    assert_eq!(lifecycle.announce("[::1]:50051"), None);
}

#[test]
fn calls_are_refused_before_the_bind() {
    let mut lifecycle = ServerLifecycle::new();
    assert_eq!(lifecycle.step(LifecycleEvent::CallArrived), LifecycleAction::Refuse);
    assert_eq!(lifecycle.step(LifecycleEvent::CallCompleted), LifecycleAction::Ignore);
    assert_eq!(lifecycle.step(LifecycleEvent::Interrupted), LifecycleAction::Ignore);
    assert_eq!(lifecycle.step(LifecycleEvent::DrainDeadlineElapsed), LifecycleAction::Ignore);
    assert_eq!(lifecycle.phase(), Phase::Created);
    assert_eq!(lifecycle.in_flight(), 0);
}

#[test]
fn listening_server_serves_and_delivers() {
    let mut lifecycle = listening();
    assert_eq!(lifecycle.step(LifecycleEvent::CallArrived), LifecycleAction::Serve);
    assert_eq!(lifecycle.step(LifecycleEvent::CallArrived), LifecycleAction::Serve);
    assert_eq!(lifecycle.in_flight(), 2);
    assert_eq!(lifecycle.step(LifecycleEvent::CallCompleted), LifecycleAction::Deliver);
    assert_eq!(lifecycle.step(LifecycleEvent::CallCompleted), LifecycleAction::Deliver);
    assert_eq!(lifecycle.in_flight(), 0);
    assert_eq!(lifecycle.step(LifecycleEvent::CallCompleted), LifecycleAction::Ignore);
    assert_eq!(lifecycle.step(LifecycleEvent::DrainDeadlineElapsed), LifecycleAction::Ignore);
    assert_eq!(lifecycle.step(LifecycleEvent::BindSucceeded), LifecycleAction::Ignore);
    assert_eq!(
        lifecycle.step(LifecycleEvent::BindFailed(BindError::InUse)),
        LifecycleAction::Ignore
    );
    assert_eq!(lifecycle.phase(), Phase::Listening);
    assert_eq!(lifecycle.in_flight(), 0);
}

#[test]
fn interrupt_with_nothing_in_flight_stops_at_once() {
    let mut lifecycle = listening();
    let action = lifecycle.step(LifecycleEvent::Interrupted);
    assert_eq!(action, LifecycleAction::Exit);
    assert!(action.terminates());
    assert_eq!(action.diagnostic(), Some(DiagnosticEvent::ShutdownSignalReceived));
    assert_eq!(lifecycle.phase(), Phase::Stopped);
}

#[test]
fn two_calls_in_flight_complete_before_the_server_stops() {
    let mut lifecycle = listening();
    assert_eq!(lifecycle.step(LifecycleEvent::CallArrived), LifecycleAction::Serve);
    assert_eq!(lifecycle.step(LifecycleEvent::CallArrived), LifecycleAction::Serve);

    let action = lifecycle.step(LifecycleEvent::Interrupted);
    assert_eq!(action, LifecycleAction::BeginDrain);
    assert!(!action.terminates());
    let event = action.diagnostic().unwrap();
    assert_eq!(event, DiagnosticEvent::ShutdownSignalReceived);
    assert_eq!(event.severity(), Severity::Warn);
    assert_eq!(lifecycle.phase(), Phase::Draining);
    assert_eq!(lifecycle.in_flight(), 2);
    assert!(!lifecycle.is_accepting());

    // no new connection is accepted after the signal
    assert_eq!(lifecycle.step(LifecycleEvent::CallArrived), LifecycleAction::Refuse);
    assert_eq!(lifecycle.in_flight(), 2);

    // both calls in flight complete and are delivered
    assert_eq!(lifecycle.step(LifecycleEvent::CallCompleted), LifecycleAction::Deliver);
    assert_eq!(lifecycle.phase(), Phase::Draining);
    let last = lifecycle.step(LifecycleEvent::CallCompleted);
    assert_eq!(last, LifecycleAction::DeliverAndExit);
    assert!(last.terminates());
    assert_eq!(last.diagnostic(), None);
    assert_eq!(lifecycle.phase(), Phase::Stopped);
    assert_eq!(lifecycle.in_flight(), 0);

    assert_eq!(lifecycle.step(LifecycleEvent::CallArrived), LifecycleAction::Refuse);
}

#[test]
fn deadline_abandons_the_call_still_in_flight() {
    let mut lifecycle = listening();
    assert_eq!(lifecycle.step(LifecycleEvent::CallArrived), LifecycleAction::Serve);
    assert_eq!(lifecycle.step(LifecycleEvent::Interrupted), LifecycleAction::BeginDrain);

    let action = lifecycle.step(LifecycleEvent::DrainDeadlineElapsed);
    assert_eq!(action, LifecycleAction::AbandonAndExit { abandoned: 1 });
    assert!(action.terminates());
    let warning = action.diagnostic().unwrap();
    assert_eq!(warning, DiagnosticEvent::DrainDeadlineExceeded { abandoned: 1 });
    assert_eq!(warning.severity(), Severity::Warn);
    assert_eq!(lifecycle.phase(), Phase::Stopped);
    assert_eq!(lifecycle.in_flight(), 0);

    // the abandoned call's result is dropped when it finally arrives
    assert_eq!(lifecycle.step(LifecycleEvent::CallCompleted), LifecycleAction::Discard);
    assert_eq!(lifecycle.phase(), Phase::Stopped);
}

#[test]
fn further_signals_while_draining_are_ignored() {
    let mut lifecycle = listening();
    assert_eq!(lifecycle.step(LifecycleEvent::CallArrived), LifecycleAction::Serve);
    assert_eq!(lifecycle.step(LifecycleEvent::Interrupted), LifecycleAction::BeginDrain);
    for _ in 0..3 {
        assert_eq!(lifecycle.step(LifecycleEvent::Interrupted), LifecycleAction::Ignore);
        assert_eq!(lifecycle.phase(), Phase::Draining);
        assert_eq!(lifecycle.in_flight(), 1);
    }
    assert_eq!(lifecycle.step(LifecycleEvent::BindSucceeded), LifecycleAction::Ignore);
    assert_eq!(lifecycle.phase(), Phase::Draining);
}

#[test]
fn stopped_server_stays_stopped() {
    let mut lifecycle = listening();
    assert_eq!(lifecycle.step(LifecycleEvent::Interrupted), LifecycleAction::Exit);
    let events = [
        LifecycleEvent::BindSucceeded,
        LifecycleEvent::BindFailed(BindError::Malformed),
        LifecycleEvent::Interrupted,
        LifecycleEvent::DrainDeadlineElapsed,
    ];
    for event in events {
        assert_eq!(lifecycle.step(event), LifecycleAction::Ignore);
        assert_eq!(lifecycle.phase(), Phase::Stopped);
        assert_eq!(lifecycle.in_flight(), 0);
    }
    assert_eq!(lifecycle.step(LifecycleEvent::CallArrived), LifecycleAction::Refuse);
    assert_eq!(lifecycle.step(LifecycleEvent::CallCompleted), LifecycleAction::Discard);
    assert_eq!(lifecycle.phase(), Phase::Stopped);
}

#[test]
fn phase_only_moves_forward_over_a_long_trace() {
    fn rank(phase: Phase) -> u8 {
        match phase {
            Phase::Created => 0,
            Phase::Listening => 1,
            Phase::Draining => 2,
            Phase::Stopped => 3,
        }
    }
    let trace = [
        LifecycleEvent::CallArrived,
        LifecycleEvent::Interrupted,
        LifecycleEvent::BindSucceeded,
        LifecycleEvent::CallArrived,
        LifecycleEvent::CallArrived,
        LifecycleEvent::CallCompleted,
        LifecycleEvent::CallArrived,
        LifecycleEvent::DrainDeadlineElapsed,
        LifecycleEvent::Interrupted,
        LifecycleEvent::BindSucceeded,
        LifecycleEvent::CallArrived,
        LifecycleEvent::Interrupted,
        LifecycleEvent::CallCompleted,
        LifecycleEvent::CallCompleted,
        LifecycleEvent::CallCompleted,
        LifecycleEvent::BindSucceeded,
    ];
    let mut lifecycle = ServerLifecycle::new();
    let mut previous = rank(lifecycle.phase());
    for event in trace {
        lifecycle.step(event);
        let current = rank(lifecycle.phase());
        assert!(current >= previous);
        previous = current;
    }
    assert_eq!(lifecycle.phase(), Phase::Stopped);
}

#[test]
fn only_shutdown_actions_carry_a_diagnostic() {
    let silent = [
        LifecycleAction::Ignore,
        LifecycleAction::Accept,
        LifecycleAction::FailStartup(BindError::InUse),
        LifecycleAction::Serve,
        LifecycleAction::Refuse,
        LifecycleAction::Deliver,
        LifecycleAction::DeliverAndExit,
        LifecycleAction::Discard,
    ];
    for action in silent {
        assert_eq!(action.diagnostic(), None);
    }
    assert_eq!(
        LifecycleAction::AbandonAndExit { abandoned: 7 }.diagnostic(),
        Some(DiagnosticEvent::DrainDeadlineExceeded { abandoned: 7 })
    );
    assert!(!LifecycleAction::Serve.terminates());
    assert!(!LifecycleAction::BeginDrain.terminates());
    assert!(!LifecycleAction::Deliver.terminates());
}

#[test]
fn events_of_normal_operation_are_informational() {
    assert_eq!(DiagnosticEvent::server_starting("[::1]:50051").severity(), Severity::Info);
    assert_eq!(
        DiagnosticEvent::server_starting("[::1]:50051"),
        DiagnosticEvent::ServerStarting { address: "[::1]:50051".to_string() }
    );
    let request = DiagnosticEvent::RequestReceived { whom: Some("[::1]:40000".to_string()) };
    assert_eq!(request.severity(), Severity::Info);
    assert_eq!(DiagnosticEvent::ShutdownSignalReceived.severity(), Severity::Warn);
}

#[test]
fn every_call_is_delivered_abandoned_or_in_flight() {
    let trace = [
        LifecycleEvent::BindSucceeded,
        LifecycleEvent::CallArrived,
        LifecycleEvent::CallArrived,
        LifecycleEvent::CallCompleted,
        LifecycleEvent::CallArrived,
        LifecycleEvent::CallArrived,
        LifecycleEvent::Interrupted,
        LifecycleEvent::CallArrived,
        LifecycleEvent::CallCompleted,
        LifecycleEvent::Interrupted,
        LifecycleEvent::DrainDeadlineElapsed,
        LifecycleEvent::CallCompleted,
    ];
    let mut lifecycle = ServerLifecycle::new();
    let (mut served, mut delivered, mut abandoned, mut signals) = (0u64, 0u64, 0u64, 0u64);
    for event in trace {
        match lifecycle.step(event) {
            LifecycleAction::Serve => served += 1,
            LifecycleAction::Deliver | LifecycleAction::DeliverAndExit => delivered += 1,
            LifecycleAction::AbandonAndExit { abandoned: n } => abandoned += n,
            LifecycleAction::BeginDrain | LifecycleAction::Exit => signals += 1,
            _ => {}
        }
        assert_eq!(served, lifecycle.in_flight() + delivered + abandoned);
        assert!(signals <= 1);
    }
    assert_eq!((served, delivered, abandoned, signals), (4, 2, 2, 1));
    assert_eq!(lifecycle.phase(), Phase::Stopped);
}

#[test]
fn capacity_is_the_largest_count() {
    assert_eq!(CAPACITY, u64::MAX);
}
