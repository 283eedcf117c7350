use vstd::prelude::*;
use crate::json::{json_str_field, spec_json_str_field};
use crate::text::{spec_trim, str_eq, trim_str, Strip};

verus! {

/// The daemon's stdout announces readiness with a JSON line whose `source`
/// is `director` and whose `status` is `ready`.
pub open spec fn spec_ready_fields(source: Option<Seq<char>>, status: Option<Seq<char>>) -> bool {
    source == Some("director"@) && status == Some("ready"@)
}

/// Whether the `source` and `status` fields of a stdout line announce
/// readiness.
pub fn ready_fields(source: Option<&str>, status: Option<&str>) -> (b: bool)
    ensures
        b == spec_ready_fields(
            match source { Some(s) => Some(s@), None => None },
            match status { Some(s) => Some(s@), None => None },
        ),
{
    match (source, status) {
        (Some(a), Some(b)) => str_eq(a, "director") && str_eq(b, "ready"),
        _ => false,
    }
}

/// Whether a stdout line of the daemon is its ready signal.
pub fn is_ready_signal(line: &str) -> (b: bool)
    ensures
        b == spec_ready_fields(
            spec_json_str_field(spec_trim(line@, Strip::Whitespace), "source"@),
            spec_json_str_field(spec_trim(line@, Strip::Whitespace), "status"@),
        ),
{
    let trimmed = trim_str(line, Strip::Whitespace);
    let source = json_str_field(trimmed, "source");
    let status = json_str_field(trimmed, "status");
    let s1: Option<&str> = match &source {
        Some(s) => Some(s.as_str()),
        None => None,
    };
    let s2: Option<&str> = match &status {
        Some(s) => Some(s.as_str()),
        None => None,
    };
    ready_fields(s1, s2)
}

/// Where the start of a daemon stands.
#[derive(Debug, Clone, Copy, PartialEq, Eq, Structural)]
pub enum StartupPhase {
    /// Reading stdout lines until the ready signal.
    AwaitingReady,
    /// Opening the TCP connection.
    Connecting,
    /// Waiting for the answer to the readiness ping.
    Pinging,
    Ready,
    Failed,
}

/// What the caller observed after the last action.
#[derive(Debug, Clone, PartialEq, Eq)]
pub enum StartupEvent {
    /// A stdout line was read; `ready` when it is the ready signal.
    Line { ready: bool },
    /// Stdout ended before the ready signal.
    StdoutClosed,
    /// Reading stdout failed with this message.
    ReadFailed { message: String },
    /// No ready signal came within the ready timeout.
    ReadyTimedOut,
    Connected,
    /// The TCP connection was refused or failed.
    ConnectFailed,
    /// The TCP connection did not open within the connect timeout.
    ConnectTimedOut,
    /// The ping came back as an operation result.
    PingAnswered { success: bool, error: Option<String> },
    /// The ping could not be sent or answered; the error's message.
    PingFailed { message: String },
}

/// Why a daemon could not be started.
#[derive(Debug, Clone, PartialEq, Eq)]
pub enum StartupFailure {
    /// No ready signal within the ready timeout.
    ReadyTimeout,
    /// The TCP connection failed; `timed_out` when it did not open in time.
    ConnectionFailed { timed_out: bool },
    /// Readiness could not be confirmed, with the reason.
    PingFailed { message: String },
}

/// What the caller does next.
#[derive(Debug, Clone, PartialEq, Eq)]
pub enum StartupAction {
    ReadLine,
    Connect,
    Ping,
    /// The daemon is up; keep it.
    Finish,
    /// Terminate the process and report the failure with its stderr.
    Abort(StartupFailure),
    /// The event does not belong to this phase; nothing changes.
    Ignore,
}

pub open spec fn spec_eof_message() -> Seq<char> {
    "daemon exited before emitting ready signal"@
}

pub open spec fn spec_unsuccessful_ping_message() -> Seq<char> {
    "ping returned an unsuccessful response"@
}

/// The phase and action that follow `e` in phase `p`, for the events that
/// carry no failure message (those are `spec_startup_message`).
pub open spec fn spec_startup_step(p: StartupPhase, e: StartupEvent) -> (StartupPhase, StartupAction) {
    match (p, e) {
        (StartupPhase::AwaitingReady, StartupEvent::Line { ready }) => if ready {
            (StartupPhase::Connecting, StartupAction::Connect)
        } else {
            (StartupPhase::AwaitingReady, StartupAction::ReadLine)
        },
        (StartupPhase::AwaitingReady, StartupEvent::ReadyTimedOut) => (
            StartupPhase::Failed,
            StartupAction::Abort(StartupFailure::ReadyTimeout),
        ),
        (StartupPhase::Connecting, StartupEvent::Connected) => (StartupPhase::Pinging, StartupAction::Ping),
        (StartupPhase::Connecting, StartupEvent::ConnectFailed) => (
            StartupPhase::Failed,
            StartupAction::Abort(StartupFailure::ConnectionFailed { timed_out: false }),
        ),
        (StartupPhase::Connecting, StartupEvent::ConnectTimedOut) => (
            StartupPhase::Failed,
            StartupAction::Abort(StartupFailure::ConnectionFailed { timed_out: true }),
        ),
        (StartupPhase::Pinging, StartupEvent::PingAnswered { success: true, .. }) => (
            StartupPhase::Ready,
            StartupAction::Finish,
        ),
        _ => (p, StartupAction::Ignore),
    }
}

/// The failure message that the step carries, where it carries one: the
/// read error's text, the end-of-stdout text, the ping's error or the
/// unsuccessful-ping text.
pub open spec fn spec_startup_message(p: StartupPhase, e: StartupEvent) -> Option<Seq<char>> {
    match (p, e) {
        (StartupPhase::AwaitingReady, StartupEvent::StdoutClosed) => Some(spec_eof_message()),
        (StartupPhase::AwaitingReady, StartupEvent::ReadFailed { message }) => Some(message@),
        (StartupPhase::Pinging, StartupEvent::PingAnswered { success, error }) => if success {
            None
        } else {
            match error {
                Some(m) => Some(m@),
                None => Some(spec_unsuccessful_ping_message()),
            }
        },
        (StartupPhase::Pinging, StartupEvent::PingFailed { message }) => Some(message@),
        _ => None,
    }
}

/// The start of a headless daemon: wait for its ready line, connect, then
/// confirm with a ping.
pub fn startup_step(p: StartupPhase, e: StartupEvent) -> (r: (StartupPhase, StartupAction))
    ensures
        spec_startup_message(p, e) is None ==> r == spec_startup_step(p, e),
        spec_startup_message(p, e) matches Some(m) ==> r.0 == StartupPhase::Failed && (
            r.1 matches StartupAction::Abort(StartupFailure::PingFailed { message }) && message@ == m),
{
    match (p, e) {
        (StartupPhase::AwaitingReady, StartupEvent::Line { ready }) => if ready {
            (StartupPhase::Connecting, StartupAction::Connect)
        } else {
            (StartupPhase::AwaitingReady, StartupAction::ReadLine)
        },
        (StartupPhase::AwaitingReady, StartupEvent::StdoutClosed) => (
            StartupPhase::Failed,
            StartupAction::Abort(
                StartupFailure::PingFailed {
                    message: String::from_str("daemon exited before emitting ready signal"),
                },
            ),
        ),
        (StartupPhase::AwaitingReady, StartupEvent::ReadFailed { message }) => (
            StartupPhase::Failed,
            StartupAction::Abort(StartupFailure::PingFailed { message }),
        ),
        (StartupPhase::AwaitingReady, StartupEvent::ReadyTimedOut) => (
            StartupPhase::Failed,
            StartupAction::Abort(StartupFailure::ReadyTimeout),
        ),
        (StartupPhase::Connecting, StartupEvent::Connected) => (StartupPhase::Pinging, StartupAction::Ping),
        (StartupPhase::Connecting, StartupEvent::ConnectFailed) => (
            StartupPhase::Failed,
            StartupAction::Abort(StartupFailure::ConnectionFailed { timed_out: false }),
        ),
        (StartupPhase::Connecting, StartupEvent::ConnectTimedOut) => (
            StartupPhase::Failed,
            StartupAction::Abort(StartupFailure::ConnectionFailed { timed_out: true }),
        ),
        (StartupPhase::Pinging, StartupEvent::PingAnswered { success, error }) => if success {
            (StartupPhase::Ready, StartupAction::Finish)
        } else {
            let message = match error {
                Some(m) => m,
                None => String::from_str("ping returned an unsuccessful response"),
            };
            (StartupPhase::Failed, StartupAction::Abort(StartupFailure::PingFailed { message }))
        },
        (StartupPhase::Pinging, StartupEvent::PingFailed { message }) => (
            StartupPhase::Failed,
            StartupAction::Abort(StartupFailure::PingFailed { message }),
        ),
        (p, _) => (p, StartupAction::Ignore),
    }
}

/// A daemon counts as started only after its ready line, a connection and
/// a successful ping, in that order: `Finish` comes only from a successful
/// ping, and `Ping` only right after the connection opened.
pub proof fn lemma_startup_order(p: StartupPhase, e: StartupEvent)
    ensures
        spec_startup_message(p, e) is None ==> (
            (spec_startup_step(p, e).1 == StartupAction::Finish ==> p == StartupPhase::Pinging
                && e matches StartupEvent::PingAnswered { success: true, .. })
            && (spec_startup_step(p, e).1 == StartupAction::Ping ==> p == StartupPhase::Connecting
                && e == StartupEvent::Connected)
            && (spec_startup_step(p, e).1 == StartupAction::Connect ==> p == StartupPhase::AwaitingReady
                && e == (StartupEvent::Line { ready: true }))),
{
}

/// Once failed or ready, the start stays where it is.
pub proof fn lemma_startup_final(p: StartupPhase, e: StartupEvent)
    requires
        p == StartupPhase::Ready || p == StartupPhase::Failed,
    ensures
        spec_startup_message(p, e) is None,
        spec_startup_step(p, e) == (p, StartupAction::Ignore),
{
}

} // verus!
