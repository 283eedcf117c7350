use theatre::daemon::{
    is_ready_signal, ready_fields, startup_step, StartupAction, StartupEvent, StartupFailure,
    StartupPhase,
};

#[test]
fn ready_signal_is_recognised() {
    assert!(is_ready_signal("{\"source\":\"director\",\"status\":\"ready\"}\n"));
    assert!(is_ready_signal("  {\"status\": \"ready\", \"source\": \"director\", \"port\": 6550}  "));
    assert!(!is_ready_signal("{\"source\":\"director\",\"status\":\"starting\"}"));
    assert!(!is_ready_signal("Godot Engine v4.3"));
    assert!(!is_ready_signal("{\"source\":\"other\",\"status\":\"ready\"}"));
}

#[test]
fn ready_fields_need_both_values() {
    assert!(ready_fields(Some("director"), Some("ready")));
    assert!(!ready_fields(Some("director"), None));
    assert!(!ready_fields(None, Some("ready")));
}

#[test]
fn startup_goes_through_ready_connect_and_ping() {
    let (p, a) = startup_step(StartupPhase::AwaitingReady, StartupEvent::Line { ready: false });
    assert_eq!((p, a), (StartupPhase::AwaitingReady, StartupAction::ReadLine));
    let (p, a) = startup_step(p, StartupEvent::Line { ready: true });
    assert_eq!((p, a), (StartupPhase::Connecting, StartupAction::Connect));
    let (p, a) = startup_step(p, StartupEvent::Connected);
    assert_eq!((p, a), (StartupPhase::Pinging, StartupAction::Ping));
    let (p, a) = startup_step(p, StartupEvent::PingAnswered { success: true, error: None });
    assert_eq!((p, a), (StartupPhase::Ready, StartupAction::Finish));
}

#[test]
fn startup_failures_carry_their_reason() {
    let (_, a) = startup_step(StartupPhase::AwaitingReady, StartupEvent::StdoutClosed);
    assert_eq!(
        a,
        StartupAction::Abort(StartupFailure::PingFailed {
            message: "daemon exited before emitting ready signal".into()
        })
    );
    let (_, a) = startup_step(StartupPhase::AwaitingReady, StartupEvent::ReadyTimedOut);
    assert_eq!(a, StartupAction::Abort(StartupFailure::ReadyTimeout));
    let (_, a) = startup_step(StartupPhase::Connecting, StartupEvent::ConnectTimedOut);
    assert_eq!(a, StartupAction::Abort(StartupFailure::ConnectionFailed { timed_out: true }));
    let (p, a) = startup_step(
        StartupPhase::Pinging,
        StartupEvent::PingAnswered { success: false, error: None },
    );
    assert_eq!(p, StartupPhase::Failed);
    assert_eq!(
        a,
        StartupAction::Abort(StartupFailure::PingFailed {
            message: "ping returned an unsuccessful response".into()
        })
    );
    let (_, a) = startup_step(
        StartupPhase::Pinging,
        StartupEvent::PingAnswered { success: false, error: Some("no project".into()) },
    );
    assert_eq!(a, StartupAction::Abort(StartupFailure::PingFailed { message: "no project".into() }));
}
