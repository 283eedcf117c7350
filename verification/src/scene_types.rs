use vstd::prelude::*;

verus! {

#[derive(Debug, Clone, Copy, PartialEq, Eq, Structural)]
pub enum BufferedEventType {
    SignalEmitted,
    NodeEntered,
    NodeExited,
}

#[derive(Debug, Clone)]
pub struct ExitedEntity {
    pub path: String,
    pub reason: String,
}

/// 8-direction cardinal bearing relative to a perspective's facing direction.
#[derive(Debug, Clone, Copy, PartialEq, Eq, Structural)]
pub enum Cardinal {
    Ahead,
    AheadRight,
    Right,
    BehindRight,
    Behind,
    BehindLeft,
    Left,
    AheadLeft,
}

/// Minimal child info.
#[derive(Debug, Clone)]
pub struct ChildInfo {
    pub name: String,
    pub class: String,
}

/// Recent signal emission.
#[derive(Debug, Clone)]
pub struct RecentSignal {
    pub signal: String,
    pub frame: u64,
}

} // verus!
