use vstd::prelude::*;

use crate::pacer::{flag_after, lemma_no_lost_redraw, tick_action, TickAction};

verus! {

/// Terminal type announced when the pseudo-terminal is requested.
pub const TERM_TYPE: &'static str = "xterm-256color";

/// Life cycle of the remote session.
#[derive(Clone, Copy, Debug, PartialEq, Eq, Structural)]
pub enum SessionState {
    Connecting,
    Authenticated,
    ChannelOpen,
    Running,
    Closing,
    Closed,
    Failed,
}

/// Why a session ended without an exit status.
#[derive(Clone, Copy, Debug, PartialEq, Eq, Structural)]
pub enum SessionError {
    /// Connect, handshake, send or receive failed.
    Transport,
    /// The server rejected the credentials.
    Authentication,
    /// The terminal engine was in an unexpected state.
    Engine,
    /// The input or outbound queue was full.
    QueueSaturation,
}

/// The pseudo-terminal to request: type `TERM_TYPE` and the engine's geometry.
#[derive(Clone, Copy, Debug, PartialEq, Eq, Structural)]
pub struct PtyRequest {
    pub columns: u32,
    pub rows: u32,
}

/// What the multiplexing loop took from whichever source was ready.
#[derive(Clone, Debug, PartialEq, Eq)]
pub enum LoopEvent {
    /// A local input event was applied to the engine; the outbound bytes it
    /// produced, if any were ready at once.
    InputApplied(Option<Vec<u8>>),
    /// Data from the remote channel.
    Inbound(Vec<u8>),
    /// The remote process exited with this status.
    RemoteExit(u32),
    /// Any other channel message.
    RemoteOther,
    /// A queued outbound item.
    Outbound(Vec<u8>),
    /// Every source is closed.
    SourcesClosed,
}

/// What the loop does next.
#[derive(Clone, Debug, PartialEq, Eq)]
pub enum LoopAction {
    /// Send the bytes on the remote channel.
    Send(Vec<u8>),
    /// Set the pending-draw flag.
    MarkDirty,
    /// Feed the bytes to the engine, then set the pending-draw flag.
    Process(Vec<u8>),
    /// Leave the loop with the remote exit status.
    Exit(u32),
    /// Leave the loop without an exit status.
    Stop,
    /// Nothing.
    Ignore,
}

/// Whether an action sets the pending-draw flag.
pub open spec fn sets_pending_draw(a: LoopAction) -> bool {
    a is MarkDirty || a is Process
}

/// Whether an action touches the remote channel.
pub open spec fn uses_channel(a: LoopAction) -> bool {
    a is Send
}

/// One step of the loop from state `s`: the next state and the action.
/// Outside `Running` no event leads to any work.
pub open spec fn step_spec(s: SessionState, e: LoopEvent) -> (SessionState, LoopAction) {
    if s != SessionState::Running {
        (s, LoopAction::Ignore)
    } else {
        match e {
            LoopEvent::InputApplied(Some(bytes)) => (s, LoopAction::Send(bytes)),
            LoopEvent::InputApplied(None) => (s, LoopAction::MarkDirty),
            LoopEvent::Inbound(bytes) => (s, LoopAction::Process(bytes)),
            LoopEvent::RemoteExit(code) => (SessionState::Closing, LoopAction::Exit(code)),
            LoopEvent::RemoteOther => (s, LoopAction::Ignore),
            LoopEvent::Outbound(bytes) => (s, LoopAction::Send(bytes)),
            LoopEvent::SourcesClosed => (SessionState::Closing, LoopAction::Stop),
        }
    }
}

/// Whether the transport is up in state `s`, so that a disconnect can be sent.
pub open spec fn transport_up(s: SessionState) -> bool {
    s == SessionState::Authenticated || s == SessionState::ChannelOpen || s
        == SessionState::Running || s == SessionState::Closing
}

/// The session orchestrator's decisions: from state and event to next state
/// and action. The caller performs the actions.
pub struct Orchestrator {
    state: SessionState,
    exit_status: Option<u32>,
}

impl Orchestrator {
    pub closed spec fn state(&self) -> SessionState {
        self.state
    }

    pub closed spec fn exit_status(&self) -> Option<u32> {
        self.exit_status
    }

    /// A session about to connect.
    pub fn new() -> (r: Self)
        ensures
            r.state() == SessionState::Connecting,
            r.exit_status() == None::<u32>,
    {
        Orchestrator { state: SessionState::Connecting, exit_status: None }
    }

    pub fn current_state(&self) -> (r: SessionState)
        ensures
            r == self.state(),
    {
        self.state
    }

    pub fn current_exit_status(&self) -> (r: Option<u32>)
        ensures
            r == self.exit_status(),
    {
        self.exit_status
    }

    /// Records the outcome of the credential exchange. No retry: a rejection
    /// fails the session.
    pub fn authenticate(&mut self, success: bool) -> (r: Result<(), SessionError>)
        requires
            old(self).state() == SessionState::Connecting,
        ensures
            success ==> r == Ok::<(), SessionError>(()) && final(self).state()
                == SessionState::Authenticated,
            !success ==> r == Err::<(), SessionError>(SessionError::Authentication)
                && final(self).state() == SessionState::Failed,
            final(self).exit_status() == old(self).exit_status(),
    {
        if success {
            self.state = SessionState::Authenticated;
            Ok(())
        } else {
            self.state = SessionState::Failed;
            Err(SessionError::Authentication)
        }
    }

    /// Opens the interactive channel: the pseudo-terminal is requested with
    /// the engine's current geometry.
    pub fn open_channel(&mut self, rows: usize, columns: usize) -> (r: PtyRequest)
        requires
            old(self).state() == SessionState::Authenticated,
        ensures
            final(self).state() == SessionState::ChannelOpen,
            final(self).exit_status() == old(self).exit_status(),
            r.columns == columns as u32,
            r.rows == rows as u32,
    {
        self.state = SessionState::ChannelOpen;
        PtyRequest { columns: columns as u32, rows: rows as u32 }
    }

    /// The shell was granted: the multiplexing loop starts.
    pub fn start(&mut self)
        requires
            old(self).state() == SessionState::ChannelOpen,
        ensures
            final(self).state() == SessionState::Running,
            final(self).exit_status() == old(self).exit_status(),
    {
        self.state = SessionState::Running;
    }

    /// Decides what to do with the event that the loop took.
    pub fn step(&mut self, event: LoopEvent) -> (r: LoopAction)
        ensures
            (final(self).state(), r) == step_spec(old(self).state(), event),
            final(self).exit_status() == match event {
                LoopEvent::RemoteExit(code) if old(self).state() == SessionState::Running => Some(
                    code,
                ),
                _ => old(self).exit_status(),
            },
    {
        if self.state != SessionState::Running {
            return LoopAction::Ignore;
        }
        match event {
            LoopEvent::InputApplied(Some(bytes)) => LoopAction::Send(bytes),
            LoopEvent::InputApplied(None) => LoopAction::MarkDirty,
            LoopEvent::Inbound(bytes) => LoopAction::Process(bytes),
            LoopEvent::RemoteExit(code) => {
                self.state = SessionState::Closing;
                self.exit_status = Some(code);
                LoopAction::Exit(code)
            },
            LoopEvent::RemoteOther => LoopAction::Ignore,
            LoopEvent::Outbound(bytes) => LoopAction::Send(bytes),
            LoopEvent::SourcesClosed => {
                self.state = SessionState::Closing;
                LoopAction::Stop
            },
        }
    }

    /// A transport error: the session fails, whatever state it was in.
    pub fn transport_failed(&mut self) -> (r: SessionError)
        ensures
            r == SessionError::Transport,
            final(self).state() == SessionState::Failed,
            final(self).exit_status() == old(self).exit_status(),
    {
        self.state = SessionState::Failed;
        SessionError::Transport
    }

    /// Shuts the session down. Returns whether a disconnect is to be sent,
    /// which is so exactly when the transport is up; the session is then
    /// closed. Not resumable.
    pub fn close(&mut self) -> (r: bool)
        ensures
            r == transport_up(old(self).state()),
            r ==> final(self).state() == SessionState::Closed,
            !r ==> final(self).state() == old(self).state(),
            final(self).exit_status() == old(self).exit_status(),
    {
        match self.state {
            SessionState::Authenticated | SessionState::ChannelOpen | SessionState::Running
            | SessionState::Closing => {
                self.state = SessionState::Closed;
                true
            },
            _ => false,
        }
    }
}

/// A run of the loop over `events` from state `s`: the final state and the
/// actions, in order.
pub open spec fn run(s: SessionState, events: Seq<LoopEvent>) -> (SessionState, Seq<LoopAction>)
    decreases events.len(),
{
    if events.len() == 0 {
        (s, Seq::empty())
    } else {
        let (s1, a) = step_spec(s, events[0]);
        let (s2, rest) = run(s1, events.drop_first());
        (s2, seq![a] + rest)
    }
}

/// The byte sequences that a run of actions sends on the channel, in order.
pub open spec fn sent(actions: Seq<LoopAction>) -> Seq<Seq<u8>>
    decreases actions.len(),
{
    if actions.len() == 0 {
        Seq::empty()
    } else {
        let head = match actions[0] {
            LoopAction::Send(bytes) => seq![bytes@],
            _ => Seq::empty(),
        };
        head + sent(actions.drop_first())
    }
}

/// The outbound items that the loop takes over `events` from state `s` while
/// it is running, in the order it takes them: bytes that the engine had ready
/// right after an input event, and items from the outbound queue.
pub open spec fn forwarded(s: SessionState, events: Seq<LoopEvent>) -> Seq<Seq<u8>>
    decreases events.len(),
{
    if events.len() == 0 {
        Seq::empty()
    } else {
        let head = if s == SessionState::Running {
            match events[0] {
                LoopEvent::InputApplied(Some(bytes)) => seq![bytes@],
                LoopEvent::Outbound(bytes) => seq![bytes@],
                _ => Seq::empty(),
            }
        } else {
            Seq::empty()
        };
        head + forwarded(step_spec(s, events[0]).0, events.drop_first())
    }
}

/// For every interleaving of events, what goes out on the channel is exactly
/// the outbound items (ready after an input event, or queued), each once and
/// in the order the loop took them.
pub proof fn lemma_sends_follow_outbound(s: SessionState, events: Seq<LoopEvent>)
    ensures
        sent(run(s, events).1) == forwarded(s, events),
    decreases events.len(),
{
    if events.len() > 0 {
        let (s1, a) = step_spec(s, events[0]);
        let rest = run(s1, events.drop_first()).1;
        lemma_sends_follow_outbound(s1, events.drop_first());
        let actions = seq![a] + rest;
        assert(actions[0] == a);
        assert(actions.drop_first() =~= rest);
    }
}

proof fn lemma_idle_outside_running(s: SessionState, events: Seq<LoopEvent>)
    requires
        s != SessionState::Running,
    ensures
        run(s, events).0 == s,
        run(s, events).1.len() == events.len(),
        forall|i: int| 0 <= i < run(s, events).1.len() ==> run(s, events).1[i] is Ignore,
    decreases events.len(),
{
    if events.len() > 0 {
        lemma_idle_outside_running(s, events.drop_first());
    }
}

/// When the remote process exits, the loop leaves `Running` with the exit
/// status; no later event leads to a send or to engine work, and closing then
/// sends a disconnect.
pub proof fn lemma_exit_ends_channel_use(code: u32, events: Seq<LoopEvent>)
    ensures
        step_spec(SessionState::Running, LoopEvent::RemoteExit(code)) == (
            SessionState::Closing,
            LoopAction::Exit(code),
        ),
        run(SessionState::Closing, events).0 == SessionState::Closing,
        forall|i: int|
            0 <= i < run(SessionState::Closing, events).1.len() ==> run(
                SessionState::Closing,
                events,
            ).1[i] is Ignore,
        transport_up(SessionState::Closing),
{
    lemma_idle_outside_running(SessionState::Closing, events);
}


/// The pending-draw signals of a run of actions, in order.
pub open spec fn draw_signals(actions: Seq<LoopAction>) -> Seq<bool> {
    actions.map_values(|a: LoopAction| sets_pending_draw(a))
}

/// No redraw is lost: if any step of the loop between two pacer ticks sets
/// the pending-draw flag, the next tick presents.
pub proof fn lemma_loop_redraw_reaches_tick(
    start: bool,
    s: SessionState,
    events: Seq<LoopEvent>,
    i: int,
)
    requires
        0 <= i < run(s, events).1.len(),
        sets_pending_draw(run(s, events).1[i]),
    ensures
        tick_action(flag_after(start, draw_signals(run(s, events).1))) == TickAction::Present,
{
    lemma_no_lost_redraw(start, draw_signals(run(s, events).1), i);
}

} // verus!
