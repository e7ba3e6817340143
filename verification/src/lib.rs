//! Debouncing layer for a binary digital input.
//!
//! Mechanical switches bounce: one physical transition shows up as a burst of
//! spurious electrical edges. The `Debouncer` turns a noisy edge/level source
//! into a clean one: it waits for a raw edge, then holds a settle window —
//! it sleeps for a configured settle time while watching for any further raw
//! edge. An edge inside the window restarts the attempt from that edge; an
//! undisturbed window ends with a re-read that confirms the level. A
//! transition is reported only once its new level has persisted for the
//! whole settle time.
//!
//! The decision logic is a pure state machine ([`machine`]): from a wait
//! state and the event that answered it, it computes the next state and the
//! next action to perform (read the level, await an edge, hold a settle
//! window, finish or fail). An async driver around the library performs the actions on the
//! real pin and timer and feeds the outcomes back in. The [`sim`] module
//! runs the same machine against a model of a raw signal timeline, which is
//! what the timing laws in [`laws`] are stated over.

use vstd::prelude::*;

pub mod laws;
pub mod machine;
pub mod sim;

use crate::machine::{Action, Event, Level, WaitKind, WaitState};
use crate::machine::{arm_edge, spec_begin, spec_step};

verus! {

/// Debounce configuration wrapped around an owned raw input source.
///
/// `input` is the underlying pin handle; the debouncer only ever reads from
/// it. The two settle times are in timer ticks; a zero settle time is a valid
/// pass-through configuration (an edge is confirmed by an immediate re-read).
pub struct Debouncer<T> {
    /// The owned raw input source; the driver around the library performs
    /// the actual reads and edge waits on it.
    pub input: T,
    /// Settle time applied after a raw rising edge, in timer ticks.
    pub debounce_high_time: u64,
    /// Settle time applied after a raw falling edge, in timer ticks.
    pub debounce_low_time: u64,
}

impl<T> Debouncer<T> {
    /// Symmetric construction: one settle time for both directions.
    pub fn new(input: T, debounce_time: u64) -> (r: Self)
        ensures
            r.input == input,
            r.high_settle_time() == debounce_time,
            r.low_settle_time() == debounce_time,
    {
        Self {
            input,
            debounce_high_time: debounce_time,
            debounce_low_time: debounce_time,
        }
    }

    /// Asymmetric construction: independent settle times per direction.
    pub fn new_asymmetric(
        input: T,
        debounce_high_time: u64,
        debounce_low_time: u64,
    ) -> (r: Self)
        ensures
            r.input == input,
            r.high_settle_time() == debounce_high_time,
            r.low_settle_time() == debounce_low_time,
    {
        Self {
            input,
            debounce_high_time,
            debounce_low_time,
        }
    }

    /// Settle time applied after a raw rising edge, in timer ticks.
    pub open spec fn high_settle_time(self) -> u64 {
        self.debounce_high_time
    }

    /// Settle time applied after a raw falling edge, in timer ticks.
    pub open spec fn low_settle_time(self) -> u64 {
        self.debounce_low_time
    }

    /// The first state and action of a wait operation. Every wait starts
    /// here; nothing carries over from an earlier call, so an aborted or
    /// cancelled wait leaves no trace.
    pub fn begin(&self, kind: WaitKind) -> (r: (WaitState, Action))
        ensures
            r == spec_begin(kind),
    {
        match kind {
            WaitKind::ForHigh => (WaitState::Start, Action::ReadLevel),
            WaitKind::ForLow => (WaitState::Start, Action::ReadLevel),
            WaitKind::AnyEdge => (WaitState::Start, Action::ReadLevel),
            WaitKind::RisingEdge => self.arm(Level::High),
            WaitKind::FallingEdge => self.arm(Level::Low),
        }
    }

    /// One transition of the debounce machine: the driver performed the
    /// pending action, observed `event`, and receives the next state and the
    /// next action to perform.
    pub fn step(&self, kind: WaitKind, state: WaitState, event: Event) -> (r: (WaitState, Action))
        ensures
            r == spec_step(self.high_settle_time(), self.low_settle_time(), kind, state, event),
    {
        match (state, event) {
            (_, Event::DeviceFailed) => (WaitState::Failed, Action::Fail),
            (WaitState::Start, Event::LevelIs(level)) => match kind {
                WaitKind::ForHigh => if level == Level::High {
                    (WaitState::Done, Action::Finish)
                } else {
                    self.arm(Level::High)
                },
                WaitKind::ForLow => if level == Level::Low {
                    (WaitState::Done, Action::Finish)
                } else {
                    self.arm(Level::Low)
                },
                WaitKind::AnyEdge => if level == Level::Low {
                    self.arm(Level::High)
                } else {
                    self.arm(Level::Low)
                },
                WaitKind::RisingEdge => (WaitState::Failed, Action::Fail),
                WaitKind::FallingEdge => (WaitState::Failed, Action::Fail),
            },
            (WaitState::AwaitingEdge { target }, Event::EdgeFired) => {
                let settle = match target {
                    Level::High => self.debounce_high_time,
                    Level::Low => self.debounce_low_time,
                };
                (WaitState::Settling { target }, Action::Settle { ticks: settle })
            },
            (WaitState::Settling { target }, Event::Slept) => (
                WaitState::Rechecking { target },
                Action::ReadLevel,
            ),
            (WaitState::Settling { target }, Event::Disturbed) => self.arm(target),
            (WaitState::Rechecking { target }, Event::LevelIs(level)) => if level == target {
                (WaitState::Done, Action::Finish)
            } else {
                self.arm(target)
            },
            _ => (WaitState::Failed, Action::Fail),
        }
    }

    /// Arm the raw edge wait toward `target`.
    fn arm(&self, target: Level) -> (r: (WaitState, Action))
        ensures
            r == arm_edge(target),
    {
        let kind = match target {
            Level::High => machine::EdgeKind::Rising,
            Level::Low => machine::EdgeKind::Falling,
        };
        (WaitState::AwaitingEdge { target }, Action::AwaitEdge(kind))
    }
}

} // verus!
