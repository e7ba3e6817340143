//! A timed model of a raw input signal, and a verified driver that runs a
//! whole wait operation of the debounce machine against it.
//!
//! A [`RawSignal`] is the electrical history of the line: an initial level
//! and the times, in timer ticks, at which the line flips. The model gives
//! exact meanings to the three raw primitives the machine's actions call
//! for: an instantaneous level read at a time, the first raw edge of a
//! polarity at or after an arming time, and the settle window — a sleep
//! racing a watch for any further raw edge, won by whichever comes first.
//! [`simulate`] drives the machine with those primitives and returns the
//! time at which the wait confirms, if it does before its attempt budget
//! runs out; the timing laws of the library are stated over the same
//! spec-level run, [`spec_wait_outcome`]. The modelled raw source never
//! fails, so the device-error paths of the machine are stated separately,
//! over the machine's transitions.

use vstd::prelude::*;

use crate::Debouncer;
use crate::machine::{edge_toward, settle_for};
use crate::machine::{Action, Event, Level, WaitKind, WaitState};

verus! {

/// Bound on flip times, start times and settle times handed to [`simulate`],
/// so that every re-check time (a flip time plus a settle time) fits in a
/// `u64`. Half of `u64::MAX`, rounded down.
pub const TIME_HORIZON: u64 = 0x7fff_ffff_ffff_ffff;

/// The electrical history of a raw line: the level before any flip, and the
/// times at which the line flips, in non-decreasing order. Two flips at the
/// same time are a momentary pulse: both edges are real, the level is net
/// unchanged.
pub struct RawSignal {
    /// The level of the line before the first flip.
    pub initial: Level,
    /// The times, in timer ticks, at which the line changes level.
    pub flips: Vec<u64>,
}

/// `level` flipped `n` times.
pub open spec fn flip_n(level: Level, n: nat) -> Level
    decreases n,
{
    if n == 0 {
        level
    } else {
        flip_n(level, (n - 1) as nat).spec_flip()
    }
}

/// How many flips happen at or before time `t`.
pub open spec fn count_flips_le(flips: Seq<u64>, t: int) -> nat
    decreases flips.len(),
{
    if flips.len() == 0 {
        0
    } else {
        count_flips_le(flips.drop_last(), t) + (if flips.last() <= t {
            1nat
        } else {
            0nat
        })
    }
}

impl RawSignal {
    /// Flip times are in non-decreasing order.
    pub open spec fn wf(self) -> bool {
        forall|i: int, j: int|
            0 <= i < j < self.flips@.len() ==> #[trigger] self.flips@[i] <= #[trigger] self.flips@[j]
    }

    /// Every flip time is at most [`TIME_HORIZON`].
    pub open spec fn bounded(self) -> bool {
        forall|i: int| 0 <= i < self.flips@.len() ==> #[trigger] self.flips@[i] <= TIME_HORIZON
    }

    /// The level of the line at time `t`: the initial level, flipped once
    /// per flip at or before `t`. A flip takes effect at its own instant.
    pub open spec fn spec_level_at(self, t: int) -> Level {
        flip_n(self.initial, count_flips_le(self.flips@, t))
    }

    /// The level of the line just after flip `i`.
    pub open spec fn level_after_flip(self, i: int) -> Level {
        flip_n(self.initial, (i + 1) as nat)
    }

    /// An instantaneous read of the line at time `t`. Reading mutates
    /// nothing: the result is a function of the signal and the time alone.
    pub fn level_at(&self, t: u64) -> (r: Level)
        ensures
            r == self.spec_level_at(t as int),
    {
        let mut i: usize = 0;
        let mut level = self.initial;
        while i < self.flips.len()
            invariant
                i <= self.flips@.len(),
                level == flip_n(self.initial, count_flips_le(self.flips@.take(i as int), t as int)),
            decreases self.flips@.len() - i,
        {
            proof {
                assert(self.flips@.take(i + 1).drop_last() =~= self.flips@.take(i as int));
                assert(self.flips@.take(i + 1).last() == self.flips@[i as int]);
            }
            if self.flips[i] <= t {
                level = level.flip();
            }
            i = i + 1;
        }
        proof {
            assert(self.flips@.take(self.flips@.len() as int) =~= self.flips@);
        }
        level
    }
}

/// The index of the first flip at or past index `i` that happens at or after
/// time `now` and moves the line toward `target` — the flip a raw edge wait
/// of that polarity, armed at `now`, fires on.
pub open spec fn find_edge_from(sig: RawSignal, target: Level, now: int, i: nat) -> Option<nat>
    decreases sig.flips@.len() - i,
{
    if i >= sig.flips@.len() {
        None
    } else if sig.flips@[i as int] >= now && sig.level_after_flip(i as int) == target {
        Some(i)
    } else {
        find_edge_from(sig, target, now, i + 1)
    }
}

/// [`flip_n`] is decided by the parity of the flip count.
proof fn lemma_flip_n_parity(level: Level, n: nat)
    ensures
        flip_n(level, n) == (if n % 2 == 0 {
            level
        } else {
            level.spec_flip()
        }),
    decreases n,
{
    if n > 0 {
        lemma_flip_n_parity(level, (n - 1) as nat);
    }
}

/// Suspension until the next raw edge toward `target`, armed at time `now`
/// with the flips before index `from` already consumed: returns the index
/// and time of the flip [`find_edge_from`] picks, or `None` when no such
/// flip remains (the wait would suspend forever).
pub fn find_edge(sig: &RawSignal, target: Level, now: u64, from: usize) -> (r: Option<
    (usize, u64),
>)
    ensures
        (match find_edge_from(*sig, target, now as int, from as nat) {
            Some(i) => i < sig.flips@.len() && (r matches Some(p) && p.0 as nat == i && p.1
                == sig.flips@[i as int]),
            None => r is None,
        }),
{
    let mut i: usize = from;
    let mut level = if from % 2 == 0 {
        sig.initial
    } else {
        sig.initial.flip()
    };
    proof {
        lemma_flip_n_parity(sig.initial, from as nat);
    }
    while i < sig.flips.len()
        invariant
            from <= i,
            i <= sig.flips@.len() || i == from,
            level == flip_n(sig.initial, i as nat),
            find_edge_from(*sig, target, now as int, from as nat) == find_edge_from(
                *sig,
                target,
                now as int,
                i as nat,
            ),
        decreases sig.flips@.len() - i,
    {
        let t = sig.flips[i];
        let next = level.flip();
        proof {
            assert(next == sig.level_after_flip(i as int));
        }
        if t >= now && next == target {
            return Some((i, t));
        }
        level = next;
        i = i + 1;
    }
    None
}

/// The index of the first flip at or past index `i` that happens strictly
/// after time `t` — the flip an any-edge watch armed at `t` fires on.
pub open spec fn first_flip_after(sig: RawSignal, t: int, i: nat) -> Option<nat>
    decreases sig.flips@.len() - i,
{
    if i >= sig.flips@.len() {
        None
    } else if sig.flips@[i as int] > t {
        Some(i)
    } else {
        first_flip_after(sig, t, i + 1)
    }
}

/// The index of the first raw flip inside the settle window that follows an
/// edge at time `e` — strictly after the edge in time, at or before the
/// window's end — or `None` when the window passes undisturbed.
pub open spec fn window_disturbance(sig: RawSignal, e: int, settle: u64) -> Option<nat> {
    match first_flip_after(sig, e, 0) {
        Some(j) => if sig.flips@[j as int] <= e + settle {
            Some(j)
        } else {
            None
        },
        None => None,
    }
}

/// The any-edge watch of a settle window, armed at time `t`: returns the
/// index and time of the flip [`first_flip_after`] picks, or `None` when the
/// line never flips again.
pub fn find_flip_after(sig: &RawSignal, t: u64) -> (r: Option<(usize, u64)>)
    ensures
        (match first_flip_after(*sig, t as int, 0) {
            Some(j) => j < sig.flips@.len() && (r matches Some(p) && p.0 as nat == j && p.1
                == sig.flips@[j as int]),
            None => r is None,
        }),
{
    let mut i: usize = 0;
    while i < sig.flips.len()
        invariant
            i <= sig.flips@.len(),
            first_flip_after(*sig, t as int, 0) == first_flip_after(*sig, t as int, i as nat),
        decreases sig.flips@.len() - i,
    {
        let flip_time = sig.flips[i];
        if flip_time > t {
            return Some((i, flip_time));
        }
        i = i + 1;
    }
    None
}

/// The outcome of one confirm loop: await an edge toward `target` among the
/// flips not yet consumed (at or past index `from`), then hold the settle
/// window. A raw flip inside the window rejects the attempt and re-arms at
/// the disturbing flip, from its index, with one less unit of `fuel`; an
/// undisturbed window ends with a re-read at its end, which either confirms
/// at that time or re-arms there, just past the consumed edge. A fired edge
/// is consumed: no later arming can fire on it again, which is what the
/// index cursor models. `None` is prolonged suspension: either no raw edge
/// remains, or `fuel` attempts were all rejected as bounces.
pub open spec fn spec_confirm(
    sig: RawSignal,
    target: Level,
    settle: u64,
    now: int,
    from: nat,
    fuel: nat,
) -> Option<int>
    decreases fuel,
{
    if fuel == 0 {
        None
    } else {
        match find_edge_from(sig, target, now, from) {
            None => None,
            Some(i) => {
                match window_disturbance(sig, sig.flips@[i as int] as int, settle) {
                    Some(j) => spec_confirm(
                        sig,
                        target,
                        settle,
                        sig.flips@[j as int] as int,
                        j,
                        (fuel - 1) as nat,
                    ),
                    None => {
                        if sig.spec_level_at(sig.flips@[i as int] + settle) == target {
                            Some(sig.flips@[i as int] + settle)
                        } else {
                            spec_confirm(
                                sig,
                                target,
                                settle,
                                sig.flips@[i as int] + settle,
                                i + 1,
                                (fuel - 1) as nat,
                            )
                        }
                    },
                }
            },
        }
    }
}

/// The outcome of a whole wait operation started at time `start`: the time
/// at which it returns successfully, or `None` for prolonged suspension.
/// The level waits short-circuit on the current level; the edge waits always
/// run the confirm loop; the any-edge wait dispatches on the current level.
pub open spec fn spec_wait_outcome(
    high_settle: u64,
    low_settle: u64,
    kind: WaitKind,
    sig: RawSignal,
    start: int,
    fuel: nat,
) -> Option<int> {
    match kind {
        WaitKind::ForHigh => if sig.spec_level_at(start) == Level::High {
            Some(start)
        } else {
            spec_confirm(sig, Level::High, high_settle, start, 0, fuel)
        },
        WaitKind::ForLow => if sig.spec_level_at(start) == Level::Low {
            Some(start)
        } else {
            spec_confirm(sig, Level::Low, low_settle, start, 0, fuel)
        },
        WaitKind::RisingEdge => spec_confirm(sig, Level::High, high_settle, start, 0, fuel),
        WaitKind::FallingEdge => spec_confirm(sig, Level::Low, low_settle, start, 0, fuel),
        WaitKind::AnyEdge => if sig.spec_level_at(start) == Level::Low {
            spec_confirm(sig, Level::High, high_settle, start, 0, fuel)
        } else {
            spec_confirm(sig, Level::Low, low_settle, start, 0, fuel)
        },
    }
}

/// Loop measure for [`simulate`]: each raw edge wait consumes one unit of
/// fuel, and within one attempt the machine only moves forward, from
/// awaiting the edge through the settle window to the re-check.
spec fn phase_rank(state: WaitState) -> int {
    match state {
        WaitState::Start => 4,
        WaitState::Settling { .. } => 3,
        WaitState::Rechecking { .. } => 2,
        WaitState::AwaitingEdge { .. } => 1,
        WaitState::Done => 0,
        WaitState::Failed => 0,
    }
}

/// Run one wait operation of `deb` against the modelled signal, starting at
/// time `start`, with at most `max_attempts` raw edge waits. Returns the
/// time at which the wait returns successfully, exactly as
/// [`spec_wait_outcome`] gives it, or `None` for prolonged suspension.
///
/// The body is the driver pattern itself: perform the pending action on the
/// model, feed the outcome back through [`Debouncer::step`], repeat.
pub fn simulate<T>(
    deb: &Debouncer<T>,
    kind: WaitKind,
    sig: &RawSignal,
    start: u64,
    max_attempts: u64,
) -> (r: Option<u64>)
    requires
        sig.wf(),
        sig.bounded(),
        start <= TIME_HORIZON,
        deb.high_settle_time() <= TIME_HORIZON,
        deb.low_settle_time() <= TIME_HORIZON,
    ensures
        (match spec_wait_outcome(
            deb.high_settle_time(),
            deb.low_settle_time(),
            kind,
            *sig,
            start as int,
            max_attempts as nat,
        ) {
            Some(t) => 0 <= t <= u64::MAX && r == Some(t as u64),
            None => r is None,
        }),
{
    let ghost high = deb.high_settle_time();
    let ghost low = deb.low_settle_time();
    let ghost outcome = spec_wait_outcome(high, low, kind, *sig, start as int, max_attempts as nat);
    let begun = deb.begin(kind);
    let mut state = begun.0;
    let mut action = begun.1;
    let mut now: u64 = start;
    let mut fuel: u64 = max_attempts;
    // The first flip index not yet consumed by an edge wait; while a window
    // is open it holds the index of the edge that opened it.
    let mut cursor: usize = 0;
    loop
        invariant
            sig.wf(),
            sig.bounded(),
            high == deb.high_settle_time(),
            low == deb.low_settle_time(),
            high <= TIME_HORIZON,
            low <= TIME_HORIZON,
            outcome == spec_wait_outcome(high, low, kind, *sig, start as int, max_attempts as nat),
            (match (state, action) {
                (WaitState::Start, Action::ReadLevel) => now == start && fuel == max_attempts
                    && cursor == 0 && (kind is ForHigh || kind is ForLow || kind is AnyEdge)
                    && outcome == spec_wait_outcome(high, low, kind, *sig, now as int, fuel as nat),
                (WaitState::AwaitingEdge { target }, Action::AwaitEdge(polarity)) => polarity
                    == edge_toward(target) && outcome == spec_confirm(
                    *sig,
                    target,
                    settle_for(high, low, target),
                    now as int,
                    cursor as nat,
                    fuel as nat,
                ),
                (WaitState::Settling { target }, Action::Settle { ticks }) => ticks == settle_for(
                    high,
                    low,
                    target,
                ) && now <= TIME_HORIZON && cursor < sig.flips@.len() && outcome == (
                match window_disturbance(*sig, now as int, ticks) {
                    Some(j) => spec_confirm(
                        *sig,
                        target,
                        ticks,
                        sig.flips@[j as int] as int,
                        j,
                        fuel as nat,
                    ),
                    None => if sig.spec_level_at(now as int + ticks as int) == target {
                        Some(now as int + ticks as int)
                    } else {
                        spec_confirm(
                            *sig,
                            target,
                            ticks,
                            now as int + ticks as int,
                            cursor as nat + 1,
                            fuel as nat,
                        )
                    },
                }),
                (WaitState::Rechecking { target }, Action::ReadLevel) => cursor
                    < sig.flips@.len() && outcome == (
                if sig.spec_level_at(now as int) == target {
                    Some(now as int)
                } else {
                    spec_confirm(
                        *sig,
                        target,
                        settle_for(high, low, target),
                        now as int,
                        cursor as nat + 1,
                        fuel as nat,
                    )
                }),
                (WaitState::Done, Action::Finish) => outcome == Some(now as int),
                _ => false,
            }),
        decreases fuel, phase_rank(state),
    {
        match action {
            Action::ReadLevel => {
                let level = sig.level_at(now);
                let was_recheck = match state {
                    WaitState::Rechecking { .. } => true,
                    _ => false,
                };
                let next = deb.step(kind, state, Event::LevelIs(level));
                state = next.0;
                action = next.1;
                let rearmed = match action {
                    Action::AwaitEdge(_) => true,
                    _ => false,
                };
                if was_recheck && rearmed {
                    // The edge that opened the rejected window is consumed.
                    let bound = sig.flips.len();
                    proof {
                        assert(cursor < bound);
                    }
                    cursor = cursor + 1;
                }
            },
            Action::AwaitEdge(polarity) => {
                if fuel == 0 {
                    return None;
                }
                let want = polarity.target();
                match find_edge(sig, want, now, cursor) {
                    None => {
                        return None;
                    },
                    Some(edge) => {
                        fuel = fuel - 1;
                        cursor = edge.0;
                        now = edge.1;
                        let next = deb.step(kind, state, Event::EdgeFired);
                        state = next.0;
                        action = next.1;
                    },
                }
            },
            Action::Settle { ticks } => {
                let window_end = now + ticks;
                let watched = find_flip_after(sig, now);
                match watched {
                    Some(disturb) => {
                        if disturb.1 <= window_end {
                            cursor = disturb.0;
                            now = disturb.1;
                            let next = deb.step(kind, state, Event::Disturbed);
                            state = next.0;
                            action = next.1;
                        } else {
                            now = window_end;
                            let next = deb.step(kind, state, Event::Slept);
                            state = next.0;
                            action = next.1;
                        }
                    },
                    None => {
                        now = window_end;
                        let next = deb.step(kind, state, Event::Slept);
                        state = next.0;
                        action = next.1;
                    },
                }
            },
            Action::Finish => {
                return Some(now);
            },
            Action::Fail => {
                // The modelled raw source never fails, so the machine never
                // commands an abort here.
                proof {
                    assert(false);
                }
                return None;
            },
        }
    }
}

} // verus!
