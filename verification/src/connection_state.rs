use vstd::prelude::*;

verus! {

/// Pure state machine for the addon-side TCP connection: handshake lifecycle
/// and frame-advance tracking. The caller performs the I/O.
#[derive(Debug)]
pub struct ConnectionState {
    pub connected: bool,
    pub handshake_completed: bool,
    pub advance_remaining: u32,
    pub advance_request_id: Option<String>,
}

/// What the caller should do after a state transition.
#[derive(Debug)]
pub enum ConnectionAction {
    /// No action needed.
    Nothing,
    /// Disconnect the client.
    Disconnect,
    /// The advance is complete — re-pause and send a response for this request ID.
    AdvanceComplete { response_id: String, frame: u64 },
}

/// The state in which nothing is connected and no advance is pending.
pub open spec fn spec_initial() -> ConnectionState {
    ConnectionState {
        connected: false,
        handshake_completed: false,
        advance_remaining: 0,
        advance_request_id: None,
    }
}

pub open spec fn spec_is_advancing(s: ConnectionState) -> bool {
    s.advance_remaining > 0
}

pub open spec fn spec_is_ready(s: ConnectionState) -> bool {
    s.connected && s.handshake_completed && !spec_is_advancing(s)
}

/// State after a client connects: connected, handshake not yet done.
pub open spec fn spec_on_client_connected(s: ConnectionState) -> ConnectionState {
    ConnectionState { connected: true, handshake_completed: false, ..s }
}

/// State after the handshake acknowledgement arrives.
pub open spec fn spec_on_handshake_ack(s: ConnectionState) -> ConnectionState {
    ConnectionState { handshake_completed: true, ..s }
}

/// A disconnect forgets everything, including a pending advance.
pub open spec fn spec_on_disconnect(s: ConnectionState) -> ConnectionState {
    spec_initial()
}

/// Beginning an advance: refused while one is pending, else records the
/// frame count and the request to answer.
pub open spec fn spec_begin_advance(s: ConnectionState, frames: u32, request_id: String) -> (
    ConnectionState,
    bool,
) {
    if s.advance_remaining > 0 {
        (s, false)
    } else {
        (
            ConnectionState {
                advance_remaining: frames,
                advance_request_id: Some(request_id),
                ..s
            },
            true,
        )
    }
}

/// One physics tick: counts a pending advance down, and when it reaches zero
/// hands back the request that waits for its answer.
pub open spec fn spec_tick_advance(s: ConnectionState, current_frame: u64) -> (
    ConnectionState,
    ConnectionAction,
) {
    if s.advance_remaining == 0 {
        (s, ConnectionAction::Nothing)
    } else {
        let remaining = (s.advance_remaining - 1) as u32;
        if remaining == 0 {
            match s.advance_request_id {
                Some(id) => (
                    ConnectionState { advance_remaining: 0, advance_request_id: None, ..s },
                    ConnectionAction::AdvanceComplete { response_id: id, frame: current_frame },
                ),
                None => (
                    ConnectionState { advance_remaining: 0, ..s },
                    ConnectionAction::Nothing,
                ),
            }
        } else {
            (ConnectionState { advance_remaining: remaining, ..s }, ConnectionAction::Nothing)
        }
    }
}

/// The state after `k` ticks at the given frame.
pub open spec fn spec_run_ticks(s: ConnectionState, k: nat, frame: u64) -> ConnectionState
    decreases k,
{
    if k == 0 {
        s
    } else {
        spec_tick_advance(spec_run_ticks(s, (k - 1) as nat, frame), frame).0
    }
}

impl ConnectionState {
    pub fn on_client_connected(&mut self)
        ensures
            *final(self) == spec_on_client_connected(*old(self)),
    {
        self.connected = true;
        self.handshake_completed = false;
    }

    pub fn on_handshake_ack(&mut self)
        ensures
            *final(self) == spec_on_handshake_ack(*old(self)),
    {
        self.handshake_completed = true;
    }

    pub fn on_disconnect(&mut self)
        ensures
            *final(self) == spec_on_disconnect(*old(self)),
            !spec_is_ready(*final(self)),
            !spec_is_advancing(*final(self)),
    {
        self.connected = false;
        self.handshake_completed = false;
        self.advance_remaining = 0;
        self.advance_request_id = None;
    }

    /// Begin a frame advance. Returns `true` if accepted, `false` if one is already in progress.
    pub fn begin_advance(&mut self, frames: u32, request_id: String) -> (accepted: bool)
        ensures
            (*final(self), accepted) == spec_begin_advance(*old(self), frames, request_id),
    {
        if self.advance_remaining > 0 {
            return false;
        }
        self.advance_remaining = frames;
        self.advance_request_id = Some(request_id);
        true
    }

    /// Called each physics tick. Returns an action if the advance just completed.
    /// The `current_frame` argument is passed in by the caller.
    pub fn tick_advance(&mut self, current_frame: u64) -> (action: ConnectionAction)
        ensures
            (*final(self), action) == spec_tick_advance(*old(self), current_frame),
    {
        if self.advance_remaining == 0 {
            return ConnectionAction::Nothing;
        }
        self.advance_remaining = self.advance_remaining - 1;
        if self.advance_remaining == 0 {
            if let Some(id) = self.advance_request_id.take() {
                return ConnectionAction::AdvanceComplete { response_id: id, frame: current_frame };
            }
        }
        ConnectionAction::Nothing
    }

    pub fn is_advancing(&self) -> (b: bool)
        ensures
            b == spec_is_advancing(*self),
    {
        self.advance_remaining > 0
    }

    pub fn is_ready(&self) -> (b: bool)
        ensures
            b == spec_is_ready(*self),
    {
        self.connected && self.handshake_completed && !self.is_advancing()
    }
}

impl Default for ConnectionState {
    fn default() -> (s: Self)
        ensures
            s == spec_initial(),
    {
        ConnectionState {
            connected: false,
            handshake_completed: false,
            advance_remaining: 0,
            advance_request_id: None,
        }
    }
}

/// Ticks before the last one of an accepted `n`-frame advance answer nothing
/// and keep the request pending; the `n`-th tick answers exactly that request
/// with the frame it was given, after which nothing is pending.
pub proof fn lemma_advance_completes_after_n_ticks(
    s: ConnectionState,
    n: u32,
    request_id: String,
    frame: u64,
)
    requires
        !spec_is_advancing(s),
        n > 0,
    ensures
        ({
            let (started, accepted) = spec_begin_advance(s, n, request_id);
            &&& accepted
            &&& forall|k: nat|
                k < n - 1 ==> #[trigger] spec_tick_advance(spec_run_ticks(started, k, frame), frame).1
                    == ConnectionAction::Nothing
            &&& spec_run_ticks(started, (n - 1) as nat, frame).advance_remaining == 1
            &&& spec_tick_advance(spec_run_ticks(started, (n - 1) as nat, frame), frame).1
                == (ConnectionAction::AdvanceComplete { response_id: request_id, frame })
            &&& !spec_is_advancing(spec_run_ticks(started, n as nat, frame))
            &&& spec_run_ticks(started, n as nat, frame).advance_request_id is None
        }),
{
    let started = spec_begin_advance(s, n, request_id).0;
    assert forall|k: nat| k <= n - 1 implies {
        &&& #[trigger] spec_run_ticks(started, k, frame).advance_remaining == n - k
        &&& spec_run_ticks(started, k, frame).advance_request_id == Some(request_id)
    } by {
        lemma_run_ticks_counts_down(started, k, frame);
    }
    assert forall|k: nat| k < n - 1 implies #[trigger] spec_tick_advance(
        spec_run_ticks(started, k, frame),
        frame,
    ).1 == ConnectionAction::Nothing by {
        lemma_run_ticks_counts_down(started, k, frame);
    }
    lemma_run_ticks_counts_down(started, (n - 1) as nat, frame);
}

proof fn lemma_run_ticks_counts_down(s: ConnectionState, k: nat, frame: u64)
    requires
        k < s.advance_remaining,
    ensures
        spec_run_ticks(s, k, frame).advance_remaining == s.advance_remaining - k,
        spec_run_ticks(s, k, frame).advance_request_id == s.advance_request_id,
    decreases k,
{
    if k > 0 {
        lemma_run_ticks_counts_down(s, (k - 1) as nat, frame);
    }
}

/// A disconnect in the middle of an advance drops the pending request: the
/// state is then the initial one, whatever it was before.
pub proof fn lemma_disconnect_clears_advance(s: ConnectionState)
    ensures
        spec_on_disconnect(s) == spec_initial(),
        !spec_is_advancing(spec_on_disconnect(s)),
        spec_on_disconnect(s).advance_request_id is None,
        !spec_is_ready(spec_on_disconnect(s)),
{
}

/// Connecting and acknowledging the handshake makes a non-advancing state
/// ready; connecting alone never does.
pub proof fn lemma_handshake_makes_ready(s: ConnectionState)
    requires
        !spec_is_advancing(s),
    ensures
        !spec_is_ready(spec_on_client_connected(s)),
        spec_is_ready(spec_on_handshake_ack(spec_on_client_connected(s))),
{
}

} // verus!
