//! The debounce decision machine.
//!
//! A wait operation is a dialogue between the debouncer and a driver that
//! owns the real pin and timer. The machine holds the decisions only: from
//! the current [`WaitState`] and the [`Event`] that answered the pending
//! action, it computes the next state and the next [`Action`] the driver
//! must perform. The driver performs reads, edge waits and settle windows,
//! and feeds
//! each outcome back in, until the machine commands `Finish` or `Fail`.
//!
//! The confirm loop is the core technique: await a raw edge toward the
//! target level, then hold the settle window — sleep for that direction's
//! settle time while watching for any further raw edge. An edge inside the
//! window means the new level did not persist: the attempt restarts from
//! that edge. An undisturbed window ends with a re-read that confirms the
//! level, so a confirmed transition has held its level through the whole
//! window. A device error aborts the dialogue at once.

use vstd::prelude::*;

verus! {

/// A logical level of the binary input.
#[derive(Clone, Copy, Debug, PartialEq, Eq, Structural)]
pub enum Level {
    Low,
    High,
}

impl Level {
    /// The opposite level.
    pub open spec fn spec_flip(self) -> Level {
        match self {
            Level::Low => Level::High,
            Level::High => Level::Low,
        }
    }

    /// The opposite level.
    pub fn flip(self) -> (r: Level)
        ensures
            r == self.spec_flip(),
    {
        match self {
            Level::Low => Level::High,
            Level::High => Level::Low,
        }
    }
}

/// The polarity of a raw edge.
#[derive(Clone, Copy, Debug, PartialEq, Eq, Structural)]
pub enum EdgeKind {
    Rising,
    Falling,
}

/// The level a raw edge of this polarity moves the line to.
pub open spec fn edge_target(kind: EdgeKind) -> Level {
    match kind {
        EdgeKind::Rising => Level::High,
        EdgeKind::Falling => Level::Low,
    }
}

/// The raw edge polarity that moves the line toward `target`.
pub open spec fn edge_toward(target: Level) -> EdgeKind {
    match target {
        Level::High => EdgeKind::Rising,
        Level::Low => EdgeKind::Falling,
    }
}

impl EdgeKind {
    /// The level a raw edge of this polarity moves the line to.
    pub fn target(self) -> (r: Level)
        ensures
            r == edge_target(self),
    {
        match self {
            EdgeKind::Rising => Level::High,
            EdgeKind::Falling => Level::Low,
        }
    }
}

/// The five debounced wait operations.
#[derive(Clone, Copy, Debug, PartialEq, Eq, Structural)]
pub enum WaitKind {
    /// Wait until the level is confirmed High; return at once if already High.
    ForHigh,
    /// Wait until the level is confirmed Low; return at once if already Low.
    ForLow,
    /// Wait for a fresh, confirmed rising edge, even if already High.
    RisingEdge,
    /// Wait for a fresh, confirmed falling edge, even if already Low.
    FallingEdge,
    /// Dispatch on the current level: if Low wait for a confirmed rising
    /// edge, else for a confirmed falling edge.
    AnyEdge,
}

/// Where a wait operation stands. `target` is the level the operation is
/// trying to confirm.
#[derive(Clone, Copy, Debug, PartialEq, Eq, Structural)]
pub enum WaitState {
    /// The initial level read that decides the direction (or finishes a
    /// level wait at once) is pending.
    Start,
    /// A raw edge toward `target` is pending.
    AwaitingEdge { target: Level },
    /// The settle window after a raw edge is pending: a sleep racing a watch
    /// for any further raw edge.
    Settling { target: Level },
    /// The re-read that confirms the undisturbed window is pending.
    Rechecking { target: Level },
    /// The transition is confirmed; the operation returns successfully.
    Done,
    /// The raw source reported a device error; the operation returns it.
    Failed,
}

/// What the driver must do next.
#[derive(Clone, Copy, Debug, PartialEq, Eq, Structural)]
pub enum Action {
    /// Read the instantaneous raw level.
    ReadLevel,
    /// Suspend until the next raw edge of this polarity.
    AwaitEdge(EdgeKind),
    /// Hold the settle window: sleep for this many timer ticks while
    /// watching for any raw edge, and report whichever finishes first.
    Settle { ticks: u64 },
    /// The wait is satisfied: return successfully.
    Finish,
    /// A device error aborted the wait: return the error, unchanged.
    Fail,
}

/// What the driver reports back.
#[derive(Clone, Copy, Debug, PartialEq, Eq, Structural)]
pub enum Event {
    /// A level read returned this level.
    LevelIs(Level),
    /// The awaited raw edge fired.
    EdgeFired,
    /// The settle window passed: the sleep elapsed with no raw edge inside
    /// the window.
    Slept,
    /// A raw edge fired inside the settle window, before the sleep elapsed:
    /// the new level did not persist for the settle time.
    Disturbed,
    /// A level read or an edge wait returned a device error.
    DeviceFailed,
}

/// The settle time that applies when confirming `target`.
pub open spec fn settle_for(high_settle: u64, low_settle: u64, target: Level) -> u64 {
    match target {
        Level::High => high_settle,
        Level::Low => low_settle,
    }
}

/// The state entered when the confirm loop arms the raw edge wait toward
/// `target`.
pub open spec fn arm_edge(target: Level) -> (WaitState, Action) {
    (WaitState::AwaitingEdge { target }, Action::AwaitEdge(edge_toward(target)))
}

/// The first state and action of a wait operation.
///
/// The level waits and the any-edge wait begin with a level read; the two
/// edge waits arm the raw edge wait at once, so that they can never be
/// satisfied by the current level alone.
pub open spec fn spec_begin(kind: WaitKind) -> (WaitState, Action) {
    match kind {
        WaitKind::ForHigh => (WaitState::Start, Action::ReadLevel),
        WaitKind::ForLow => (WaitState::Start, Action::ReadLevel),
        WaitKind::AnyEdge => (WaitState::Start, Action::ReadLevel),
        WaitKind::RisingEdge => arm_edge(Level::High),
        WaitKind::FallingEdge => arm_edge(Level::Low),
    }
}

/// How the initial level read resolves: a level wait that already sees its
/// level finishes at once; otherwise the confirm loop is armed toward the
/// direction the operation calls for.
pub open spec fn spec_start_dispatch(kind: WaitKind, level: Level) -> (WaitState, Action) {
    match kind {
        WaitKind::ForHigh => if level is High {
            (WaitState::Done, Action::Finish)
        } else {
            arm_edge(Level::High)
        },
        WaitKind::ForLow => if level is Low {
            (WaitState::Done, Action::Finish)
        } else {
            arm_edge(Level::Low)
        },
        WaitKind::AnyEdge => if level is Low {
            arm_edge(Level::High)
        } else {
            arm_edge(Level::Low)
        },
        // The edge waits arm the edge wait directly and never read at Start.
        WaitKind::RisingEdge => (WaitState::Failed, Action::Fail),
        WaitKind::FallingEdge => (WaitState::Failed, Action::Fail),
    }
}

/// Whether `event` is a possible answer to the action pending in `state`.
/// `Done` and `Failed` are terminal: no further event is taken.
pub open spec fn answers(state: WaitState, event: Event) -> bool {
    match state {
        WaitState::Start => event is LevelIs || event is DeviceFailed,
        WaitState::AwaitingEdge { .. } => event is EdgeFired || event is DeviceFailed,
        // The timer is infallible, but the edge watch racing it is a raw
        // source operation and may fail.
        WaitState::Settling { .. } => event is Slept || event is Disturbed
            || event is DeviceFailed,
        WaitState::Rechecking { .. } => event is LevelIs || event is DeviceFailed,
        WaitState::Done => false,
        WaitState::Failed => false,
    }
}

/// The transition of the debounce machine: next state and next action, from
/// the pending state and the event that answered it.
///
/// A `DeviceFailed` event aborts from any state: the error is surfaced at
/// once and the loop is not retried. A disturbed settle window re-arms the
/// raw edge wait: the level did not persist, the edge was a bounce, and the
/// next attempt starts from the disturbing edge. A rejected re-check after
/// an undisturbed window re-arms in the same way.
pub open spec fn spec_step(
    high_settle: u64,
    low_settle: u64,
    kind: WaitKind,
    state: WaitState,
    event: Event,
) -> (WaitState, Action) {
    match (state, event) {
        (_, Event::DeviceFailed) => (WaitState::Failed, Action::Fail),
        (WaitState::Start, Event::LevelIs(level)) => spec_start_dispatch(kind, level),
        (WaitState::AwaitingEdge { target }, Event::EdgeFired) => (
            WaitState::Settling { target },
            Action::Settle { ticks: settle_for(high_settle, low_settle, target) },
        ),
        (WaitState::Settling { target }, Event::Slept) => (
            WaitState::Rechecking { target },
            Action::ReadLevel,
        ),
        (WaitState::Settling { target }, Event::Disturbed) => arm_edge(target),
        (WaitState::Rechecking { target }, Event::LevelIs(level)) => if level == target {
            (WaitState::Done, Action::Finish)
        } else {
            arm_edge(target)
        },
        // No other event answers the pending action; treated as an abort.
        _ => (WaitState::Failed, Action::Fail),
    }
}

/// A device error aborts the wait from every state, with no retry, and the
/// failed state takes no further event; the error itself is returned by the
/// driver unchanged.
pub proof fn lemma_device_error_aborts(
    high_settle: u64,
    low_settle: u64,
    kind: WaitKind,
    state: WaitState,
)
    ensures
        spec_step(high_settle, low_settle, kind, state, Event::DeviceFailed)
            == (WaitState::Failed, Action::Fail),
        forall|event: Event| !answers(WaitState::Failed, event),
{
}

/// A confirmed wait is over: no further event is taken, so a confirmed
/// transition is reported exactly once per call.
pub proof fn lemma_done_is_terminal()
    ensures
        forall|event: Event| !answers(WaitState::Done, event),
{
}

} // verus!
