//! The laws of the debouncer, proved over the timed model.
//!
//! Each public proof function states one guarantee of the wait operations,
//! over [`spec_wait_outcome`] and [`spec_confirm`] — the same spec-level run
//! that [`crate::sim::simulate`] is proved to return.

use vstd::prelude::*;

use crate::machine::{arm_edge, settle_for, spec_begin, spec_step};
use crate::machine::{Action, Event, Level, WaitKind, WaitState};
use crate::sim::{count_flips_le, find_edge_from, first_flip_after, spec_confirm,
    spec_wait_outcome, window_disturbance, RawSignal};

verus! {

/// [`find_edge_from`] picks a real flip: one at or past the probe index, at
/// or after the arming time, and of the polarity that moves the line to the
/// target level.
proof fn lemma_find_edge_picks_real_flip(
    sig: RawSignal,
    target: Level,
    now: int,
    i: nat,
    j: nat,
)
    requires
        find_edge_from(sig, target, now, i) == Some(j),
    ensures
        i <= j < sig.flips@.len(),
        sig.flips@[j as int] >= now,
        sig.level_after_flip(j as int) == target,
    decreases sig.flips@.len() - i,
{
    if i >= sig.flips@.len() {
        assert(false);
    } else if sig.flips@[i as int] >= now && sig.level_after_flip(i as int) == target {
    } else {
        lemma_find_edge_picks_real_flip(sig, target, now, i + 1, j);
    }
}

/// [`first_flip_after`] picks the earliest flip index strictly after `t`:
/// every flip before it is at or before `t`, and when it finds none, every
/// flip from the probe index on is at or before `t`.
proof fn lemma_first_flip_after_props(sig: RawSignal, t: int, i: nat)
    ensures
        (first_flip_after(sig, t, i) matches Some(j) ==> i <= j < sig.flips@.len()
            && sig.flips@[j as int] > t
            && (forall|k: int| i <= k < j ==> sig.flips@[k] <= t)),
        first_flip_after(sig, t, i) is None ==> (forall|k: int|
            i <= k < sig.flips@.len() ==> sig.flips@[k] <= t),
    decreases sig.flips@.len() - i,
{
    if i >= sig.flips@.len() {
    } else if sig.flips@[i as int] > t {
    } else {
        lemma_first_flip_after_props(sig, t, i + 1);
    }
}

/// An undisturbed settle window really has no flip in it: when
/// [`window_disturbance`] is `None` for the window `(e, e + settle]` of an
/// ordered signal, no flip at all falls in that span.
proof fn lemma_undisturbed_window_has_no_flips(sig: RawSignal, e: int, settle: u64)
    requires
        sig.wf(),
        window_disturbance(sig, e, settle) is None,
    ensures
        forall|m: int|
            0 <= m < sig.flips@.len() ==> !(e < #[trigger] sig.flips@[m] <= e + settle),
{
    lemma_first_flip_after_props(sig, e, 0);
    match first_flip_after(sig, e, 0) {
        None => {},
        Some(j) => {
            assert forall|m: int|
                0 <= m < sig.flips@.len() implies !(e < #[trigger] sig.flips@[m] <= e + settle) by {
                if m >= j {
                    assert(sig.flips@[j as int] <= sig.flips@[m]);
                }
            }
        },
    }
}

/// The confirm loop returns only after a genuinely settled raw edge:
/// whenever it confirms at time `t`, some raw flip toward `target`, at or
/// after the arming time, happened at `t` minus the settle time, and the
/// line held the target level continuously from that edge to `t` — no
/// further raw flip fell inside the settle window, and the re-read at its
/// end still reported the target level.
pub proof fn lemma_confirm_needs_settled_edge(
    sig: RawSignal,
    target: Level,
    settle: u64,
    now: int,
    from: nat,
    fuel: nat,
    t: int,
)
    requires
        sig.wf(),
        spec_confirm(sig, target, settle, now, from, fuel) == Some(t),
    ensures
        (exists|i: int|
            0 <= i < sig.flips@.len()
            && #[trigger] sig.flips@[i] >= now
            && sig.level_after_flip(i) == target
            && t == sig.flips@[i] + settle
            && (forall|tau: int|
                sig.flips@[i] <= tau <= t ==> sig.spec_level_at(tau) == target)),
    decreases fuel,
{
    match find_edge_from(sig, target, now, from) {
        None => {
            assert(false);
        },
        Some(j) => {
            lemma_find_edge_picks_real_flip(sig, target, now, from, j);
            let e = sig.flips@[j as int] as int;
            match window_disturbance(sig, e, settle) {
                Some(d) => {
                    lemma_first_flip_after_props(sig, e, 0);
                    let f = sig.flips@[d as int] as int;
                    lemma_confirm_needs_settled_edge(
                        sig,
                        target,
                        settle,
                        f,
                        d,
                        (fuel - 1) as nat,
                        t,
                    );
                    let w = choose|i: int|
                        0 <= i < sig.flips@.len()
                        && #[trigger] sig.flips@[i] >= f
                        && sig.level_after_flip(i) == target
                        && t == sig.flips@[i] + settle
                        && (forall|tau: int|
                            sig.flips@[i] <= tau <= t ==> sig.spec_level_at(tau) == target);
                    assert(sig.flips@[w] >= now);
                },
                None => {
                    if sig.spec_level_at(e + settle) == target {
                        lemma_undisturbed_window_has_no_flips(sig, e, settle);
                        assert forall|tau: int|
                            sig.flips@[j as int] <= tau <= t
                                implies sig.spec_level_at(tau) == target by {
                            lemma_count_stable_without_flips(sig.flips@, tau, t);
                        }
                        assert(0 <= j < sig.flips@.len()
                            && sig.flips@[j as int] >= now
                            && sig.level_after_flip(j as int) == target
                            && t == sig.flips@[j as int] + settle);
                    } else {
                        lemma_confirm_needs_settled_edge(
                            sig,
                            target,
                            settle,
                            e + settle,
                            j + 1,
                            (fuel - 1) as nat,
                            t,
                        );
                        let w = choose|i: int|
                            0 <= i < sig.flips@.len()
                            && #[trigger] sig.flips@[i] >= e + settle
                            && sig.level_after_flip(i) == target
                            && t == sig.flips@[i] + settle
                            && (forall|tau: int|
                                sig.flips@[i] <= tau <= t ==> sig.spec_level_at(tau) == target);
                        assert(sig.flips@[w] >= now);
                    }
                },
            }
        },
    }
}

/// Flip `w` settles the line at `target`: it moves the line to the target
/// level, no flip follows it within the settle window, and the window's end
/// still reads the target level.
pub open spec fn settling_flip(sig: RawSignal, target: Level, settle: u64, w: int) -> bool {
    &&& 0 <= w < sig.flips@.len()
    &&& sig.level_after_flip(w) == target
    &&& (forall|m: int|
        0 <= m < sig.flips@.len() ==> !(sig.flips@[w] < #[trigger] sig.flips@[m] <= sig.flips@[w]
            + settle))
    &&& sig.spec_level_at(sig.flips@[w] + settle) == target
}

/// [`find_edge_from`] finds the first match: any matching flip at or past
/// the probe index bounds the found index from above.
proof fn lemma_find_edge_finds_first(sig: RawSignal, target: Level, now: int, i: nat, m: int)
    requires
        i <= m < sig.flips@.len(),
        sig.flips@[m] >= now,
        sig.level_after_flip(m) == target,
    ensures
        (find_edge_from(sig, target, now, i) matches Some(k) && k <= m),
    decreases sig.flips@.len() - i,
{
    if sig.flips@[i as int] >= now && sig.level_after_flip(i as int) == target {
    } else {
        lemma_find_edge_finds_first(sig, target, now, i + 1, m);
    }
}

/// The confirm loop eventually confirms on a settling line: if some not yet
/// consumed flip at or after the arming time settles the line at the target
/// level, and the attempt budget covers the remaining flips, the loop
/// returns. Every rejected attempt consumes at least one flip, so the
/// settling flip itself is reached before the budget runs out.
pub proof fn lemma_settling_edge_confirms(
    sig: RawSignal,
    target: Level,
    settle: u64,
    now: int,
    from: nat,
    fuel: nat,
    w: int,
)
    requires
        sig.wf(),
        fuel + from >= sig.flips@.len(),
        from <= w,
        sig.flips@[w] >= now,
        settling_flip(sig, target, settle, w),
    ensures
        spec_confirm(sig, target, settle, now, from, fuel) is Some,
    decreases sig.flips@.len() - from,
{
    lemma_find_edge_finds_first(sig, target, now, from, w);
    match find_edge_from(sig, target, now, from) {
        None => {
            assert(false);
        },
        Some(k) => {
            lemma_find_edge_picks_real_flip(sig, target, now, from, k);
            let e = sig.flips@[k as int] as int;
            match window_disturbance(sig, e, settle) {
                Some(d) => {
                    lemma_first_flip_after_props(sig, e, 0);
                    let f = sig.flips@[d as int] as int;
                    // The disturbing flip lies strictly inside the found
                    // edge's window, so the found edge cannot be the
                    // settling flip itself.
                    if k == w {
                        assert(!(sig.flips@[w] < sig.flips@[d as int] <= sig.flips@[w] + settle));
                        assert(false);
                    }
                    // The disturbing flip comes after the found edge...
                    if d <= k {
                        assert(sig.flips@[d as int] <= sig.flips@[k as int]);
                        assert(false);
                    }
                    // ... and not after the settling flip, whose own window
                    // is clear.
                    if w < d {
                        assert(sig.flips@[w] <= e);
                        assert(sig.flips@[k as int] <= sig.flips@[w]);
                        assert(!(sig.flips@[w] < sig.flips@[d as int] <= sig.flips@[w] + settle));
                        assert(false);
                    }
                    if d < w {
                        assert(sig.flips@[d as int] <= sig.flips@[w]);
                    }
                    lemma_settling_edge_confirms(sig, target, settle, f, d, (fuel - 1) as nat, w);
                },
                None => {
                    if sig.spec_level_at(e + settle) == target {
                    } else {
                        lemma_undisturbed_window_has_no_flips(sig, e, settle);
                        // The rejected edge is not the settling flip: at the
                        // settling flip's window end the line reads the
                        // target.
                        if sig.flips@[w] == e {
                            assert(false);
                        }
                        assert(sig.flips@[k as int] <= sig.flips@[w]);
                        assert(!(e < sig.flips@[w] <= e + settle));
                        lemma_settling_edge_confirms(
                            sig,
                            target,
                            settle,
                            e + settle,
                            k + 1,
                            (fuel - 1) as nat,
                            w,
                        );
                    }
                },
            }
        },
    }
}

/// Liveness of the rising-edge wait: with an attempt budget of at least the
/// number of flips, it returns whenever some rising flip at or after the
/// call settles the line High for a full settle window — a settling input
/// eventually resolves; only a line that never settles suspends forever.
pub proof fn lemma_rising_edge_wait_eventually_confirms(
    high_settle: u64,
    low_settle: u64,
    sig: RawSignal,
    start: int,
    fuel: nat,
    w: int,
)
    requires
        sig.wf(),
        fuel >= sig.flips@.len(),
        sig.flips@[w] >= start,
        settling_flip(sig, Level::High, high_settle, w),
    ensures
        spec_wait_outcome(high_settle, low_settle, WaitKind::RisingEdge, sig, start, fuel)
            is Some,
{
    lemma_settling_edge_confirms(sig, Level::High, high_settle, start, 0, fuel, w);
}

/// The symmetric liveness law for the falling-edge wait.
pub proof fn lemma_falling_edge_wait_eventually_confirms(
    high_settle: u64,
    low_settle: u64,
    sig: RawSignal,
    start: int,
    fuel: nat,
    w: int,
)
    requires
        sig.wf(),
        fuel >= sig.flips@.len(),
        sig.flips@[w] >= start,
        settling_flip(sig, Level::Low, low_settle, w),
    ensures
        spec_wait_outcome(high_settle, low_settle, WaitKind::FallingEdge, sig, start, fuel)
            is Some,
{
    lemma_settling_edge_confirms(sig, Level::Low, low_settle, start, 0, fuel, w);
}

/// Liveness of the wait for High: it returns at once when the line is
/// already High, and otherwise whenever some rising flip at or after the
/// call settles the line High for a full settle window, given an attempt
/// budget of at least the number of flips.
pub proof fn lemma_wait_for_high_eventually_confirms(
    high_settle: u64,
    low_settle: u64,
    sig: RawSignal,
    start: int,
    fuel: nat,
    w: int,
)
    requires
        sig.wf(),
        fuel >= sig.flips@.len(),
        sig.flips@[w] >= start,
        settling_flip(sig, Level::High, high_settle, w),
    ensures
        spec_wait_outcome(high_settle, low_settle, WaitKind::ForHigh, sig, start, fuel) is Some,
{
    if sig.spec_level_at(start) != Level::High {
        lemma_settling_edge_confirms(sig, Level::High, high_settle, start, 0, fuel, w);
    }
}

/// The symmetric liveness law for the wait for Low.
pub proof fn lemma_wait_for_low_eventually_confirms(
    high_settle: u64,
    low_settle: u64,
    sig: RawSignal,
    start: int,
    fuel: nat,
    w: int,
)
    requires
        sig.wf(),
        fuel >= sig.flips@.len(),
        sig.flips@[w] >= start,
        settling_flip(sig, Level::Low, low_settle, w),
    ensures
        spec_wait_outcome(high_settle, low_settle, WaitKind::ForLow, sig, start, fuel) is Some,
{
    if sig.spec_level_at(start) != Level::Low {
        lemma_settling_edge_confirms(sig, Level::Low, low_settle, start, 0, fuel, w);
    }
}

/// A wait for High that does not return at once returns only after some raw
/// rising edge was followed by the full high settle time of continuous High
/// — no raw flip inside the window, and the re-read at its end still High.
pub proof fn lemma_wait_for_high_confirms_settled_rise(
    high_settle: u64,
    low_settle: u64,
    sig: RawSignal,
    start: int,
    fuel: nat,
    t: int,
)
    requires
        sig.wf(),
        sig.spec_level_at(start) != Level::High,
        spec_wait_outcome(high_settle, low_settle, WaitKind::ForHigh, sig, start, fuel)
            == Some(t),
    ensures
        (exists|i: int|
            0 <= i < sig.flips@.len()
            && #[trigger] sig.flips@[i] >= start
            && sig.level_after_flip(i) == Level::High
            && t == sig.flips@[i] + high_settle
            && (forall|tau: int|
                sig.flips@[i] <= tau <= t ==> sig.spec_level_at(tau) == Level::High)),
{
    lemma_confirm_needs_settled_edge(sig, Level::High, high_settle, start, 0, fuel, t);
}

/// The symmetric law for a wait for Low, with the low settle time: only a
/// raw falling edge followed by the full low settle time of continuous Low
/// confirms.
pub proof fn lemma_wait_for_low_confirms_settled_fall(
    high_settle: u64,
    low_settle: u64,
    sig: RawSignal,
    start: int,
    fuel: nat,
    t: int,
)
    requires
        sig.wf(),
        sig.spec_level_at(start) != Level::Low,
        spec_wait_outcome(high_settle, low_settle, WaitKind::ForLow, sig, start, fuel)
            == Some(t),
    ensures
        (exists|i: int|
            0 <= i < sig.flips@.len()
            && #[trigger] sig.flips@[i] >= start
            && sig.level_after_flip(i) == Level::Low
            && t == sig.flips@[i] + low_settle
            && (forall|tau: int|
                sig.flips@[i] <= tau <= t ==> sig.spec_level_at(tau) == Level::Low)),
{
    lemma_confirm_needs_settled_edge(sig, Level::Low, low_settle, start, 0, fuel, t);
}

/// A wait for High called while the level is already High returns at once,
/// at the call time: the machine's first action is only a level read, and a
/// High answer finishes the wait with no edge wait and no settle window.
pub proof fn lemma_wait_for_high_immediate(
    high_settle: u64,
    low_settle: u64,
    sig: RawSignal,
    start: int,
    fuel: nat,
)
    requires
        sig.spec_level_at(start) == Level::High,
    ensures
        spec_wait_outcome(high_settle, low_settle, WaitKind::ForHigh, sig, start, fuel)
            == Some(start),
        spec_begin(WaitKind::ForHigh) == (WaitState::Start, Action::ReadLevel),
        spec_step(high_settle, low_settle, WaitKind::ForHigh, WaitState::Start,
            Event::LevelIs(Level::High)) == (WaitState::Done, Action::Finish),
{
}

/// The symmetric law: a wait for Low called while the level is already Low
/// returns at once, at the call time.
pub proof fn lemma_wait_for_low_immediate(
    high_settle: u64,
    low_settle: u64,
    sig: RawSignal,
    start: int,
    fuel: nat,
)
    requires
        sig.spec_level_at(start) == Level::Low,
    ensures
        spec_wait_outcome(high_settle, low_settle, WaitKind::ForLow, sig, start, fuel)
            == Some(start),
        spec_step(high_settle, low_settle, WaitKind::ForLow, WaitState::Start,
            Event::LevelIs(Level::Low)) == (WaitState::Done, Action::Finish),
{
}

/// A wait for a rising edge never returns merely because the level is
/// already High: its first action arms the raw edge wait, and whenever it
/// returns, a fresh raw rising edge at or after the call was followed by
/// the full high settle time of continuous High. On a signal with no flips
/// at all it never returns, whatever the level.
pub proof fn lemma_rising_edge_wait_needs_fresh_edge(
    high_settle: u64,
    low_settle: u64,
    sig: RawSignal,
    start: int,
    fuel: nat,
)
    requires
        sig.wf(),
    ensures
        spec_begin(WaitKind::RisingEdge) == arm_edge(Level::High),
        (forall|t: int|
            spec_wait_outcome(high_settle, low_settle, WaitKind::RisingEdge, sig, start, fuel)
                == Some(t) ==> (exists|i: int|
                0 <= i < sig.flips@.len()
                && #[trigger] sig.flips@[i] >= start
                && sig.level_after_flip(i) == Level::High
                && t == sig.flips@[i] + high_settle
                && (forall|tau: int|
                    sig.flips@[i] <= tau <= t ==> sig.spec_level_at(tau) == Level::High))),
        sig.flips@.len() == 0 ==> spec_wait_outcome(
            high_settle,
            low_settle,
            WaitKind::RisingEdge,
            sig,
            start,
            fuel,
        ) is None,
{
    assert forall|t: int|
        spec_wait_outcome(high_settle, low_settle, WaitKind::RisingEdge, sig, start, fuel)
            == Some(t) implies (exists|i: int|
            0 <= i < sig.flips@.len()
            && #[trigger] sig.flips@[i] >= start
            && sig.level_after_flip(i) == Level::High
            && t == sig.flips@[i] + high_settle
            && (forall|tau: int|
                sig.flips@[i] <= tau <= t ==> sig.spec_level_at(tau) == Level::High)) by {
        lemma_confirm_needs_settled_edge(sig, Level::High, high_settle, start, 0, fuel, t);
    }
}

/// The symmetric law for a wait for a falling edge: whenever it returns, a
/// fresh raw falling edge at or after the call was followed by the full low
/// settle time of continuous Low.
pub proof fn lemma_falling_edge_wait_needs_fresh_edge(
    high_settle: u64,
    low_settle: u64,
    sig: RawSignal,
    start: int,
    fuel: nat,
)
    requires
        sig.wf(),
    ensures
        spec_begin(WaitKind::FallingEdge) == arm_edge(Level::Low),
        (forall|t: int|
            spec_wait_outcome(high_settle, low_settle, WaitKind::FallingEdge, sig, start, fuel)
                == Some(t) ==> (exists|i: int|
                0 <= i < sig.flips@.len()
                && #[trigger] sig.flips@[i] >= start
                && sig.level_after_flip(i) == Level::Low
                && t == sig.flips@[i] + low_settle
                && (forall|tau: int|
                    sig.flips@[i] <= tau <= t ==> sig.spec_level_at(tau) == Level::Low))),
{
    assert forall|t: int|
        spec_wait_outcome(high_settle, low_settle, WaitKind::FallingEdge, sig, start, fuel)
            == Some(t) implies (exists|i: int|
            0 <= i < sig.flips@.len()
            && #[trigger] sig.flips@[i] >= start
            && sig.level_after_flip(i) == Level::Low
            && t == sig.flips@[i] + low_settle
            && (forall|tau: int|
                sig.flips@[i] <= tau <= t ==> sig.spec_level_at(tau) == Level::Low)) by {
        lemma_confirm_needs_settled_edge(sig, Level::Low, low_settle, start, 0, fuel, t);
    }
}

/// Within one wait, confirmation is reached only through the full sequence
/// raw edge, then undisturbed settle window, then re-read, in that order. A
/// confirming transition (other than the immediate short-circuit of the
/// level waits) comes only from the re-check reading the target level; the
/// re-check is reached only by the window passing undisturbed; the window —
/// of exactly the settle time configured for the direction — is opened only
/// by the raw edge firing; and a raw edge inside the window re-arms the
/// edge wait instead of confirming.
pub proof fn lemma_confirmation_preserves_order(
    high_settle: u64,
    low_settle: u64,
    kind: WaitKind,
    state: WaitState,
    event: Event,
)
    ensures
        spec_step(high_settle, low_settle, kind, state, event).0 is Done && !(state is Start)
            ==> (exists|target: Level|
            state == (WaitState::Rechecking { target }) && event == Event::LevelIs(target)),
        (spec_step(high_settle, low_settle, kind, state, event).0 matches
            WaitState::Rechecking { target } ==> state == (WaitState::Settling { target })
            && event == Event::Slept),
        (spec_step(high_settle, low_settle, kind, state, event).0 matches
            WaitState::Settling { target } ==> state == (WaitState::AwaitingEdge { target })
            && event == Event::EdgeFired
            && spec_step(high_settle, low_settle, kind, state, event).1
                == (Action::Settle { ticks: settle_for(high_settle, low_settle, target) })),
        (state matches WaitState::Settling { target } ==> (event == Event::Disturbed
            ==> spec_step(high_settle, low_settle, kind, state, event) == arm_edge(target))),
{
    if spec_step(high_settle, low_settle, kind, state, event).0 is Done && !(state is Start) {
        match state {
            WaitState::Rechecking { target } => {
                assert(state == (WaitState::Rechecking { target })
                    && event == Event::LevelIs(target));
            },
            _ => {},
        }
    }
}

/// A bounce is rejected and only the fresh edge confirms: on a line that is
/// Low, rises, and falls back within the settle window, the falling flip
/// disturbs the window and the attempt restarts from it; when a second
/// rising edge then holds High for a full settle time, the wait for High
/// resolves exactly at that second rising edge plus the settle time —
/// wherever the second rise lies, inside or after the first edge's window.
pub proof fn lemma_bounce_rejected_second_edge_confirms(
    high_settle: u64,
    low_settle: u64,
    sig: RawSignal,
    start: int,
    fuel: nat,
    first_rise: u64,
    bounce_fall: u64,
    second_rise: u64,
)
    requires
        sig.initial == Level::Low,
        sig.flips@ == seq![first_rise, bounce_fall, second_rise],
        start < first_rise as int,
        first_rise < bounce_fall,
        bounce_fall <= first_rise + high_settle,
        bounce_fall <= second_rise,
        fuel >= 2,
    ensures
        spec_wait_outcome(high_settle, low_settle, WaitKind::ForHigh, sig, start, fuel)
            == Some(second_rise + high_settle),
{
    let s = sig.flips@;
    assert(s.drop_last() =~= seq![first_rise, bounce_fall]);
    assert(seq![first_rise, bounce_fall].drop_last() =~= seq![first_rise]);
    assert(seq![first_rise].drop_last() =~= Seq::<u64>::empty());
    reveal_with_fuel(count_flips_le, 4);
    reveal_with_fuel(find_edge_from, 4);
    reveal_with_fuel(first_flip_after, 4);
    reveal_with_fuel(crate::sim::flip_n, 5);
    reveal_with_fuel(spec_confirm, 3);

    // Before the first rise the line is Low, so the wait does not
    // short-circuit, and the armed edge wait fires on the first rise.
    assert(count_flips_le(s, start) == 0);
    assert(sig.spec_level_at(start) == Level::Low);
    assert(find_edge_from(sig, Level::High, start, 0) == Some(0nat));

    // The bounce falls inside the first edge's settle window: the window is
    // disturbed and the attempt restarts from the falling flip.
    assert(first_flip_after(sig, first_rise as int, 0) == Some(1nat));
    assert(window_disturbance(sig, first_rise as int, high_settle) == Some(1nat));

    // Re-armed at the disturbance, the edge wait skips the falling flip
    // (wrong polarity) and fires on the second rise.
    assert(find_edge_from(sig, Level::High, bounce_fall as int, 1) == Some(2nat));

    // Nothing flips after the second rise: its window passes undisturbed,
    // and a full settle time later the line reads High and the wait
    // confirms.
    assert(first_flip_after(sig, second_rise as int, 0) is None);
    assert(window_disturbance(sig, second_rise as int, high_settle) is None);
    let second_recheck = second_rise + high_settle;
    assert(count_flips_le(s, second_recheck) == 3);
    assert(sig.spec_level_at(second_recheck) == Level::High);

    assert(spec_confirm(sig, Level::High, high_settle, start, 0, fuel)
        == Some(second_rise + high_settle));
}

/// The flip count does not change across a span with no flips in it.
proof fn lemma_count_stable_without_flips(flips: Seq<u64>, t1: int, t2: int)
    requires
        t1 <= t2,
        forall|i: int| 0 <= i < flips.len() ==> !(t1 < #[trigger] flips[i] <= t2),
    ensures
        count_flips_le(flips, t1) == count_flips_le(flips, t2),
    decreases flips.len(),
{
    if flips.len() > 0 {
        assert(flips[flips.len() - 1] == flips.last());
        lemma_count_stable_without_flips(flips.drop_last(), t1, t2);
    }
}

/// Reads are idempotent passthroughs: two instantaneous reads with no raw
/// flip between them report the same level, and reading mutates nothing —
/// the level is a function of the signal and the time alone.
pub proof fn lemma_read_idempotent_without_edges(sig: RawSignal, t1: int, t2: int)
    requires
        t1 <= t2,
        forall|i: int| 0 <= i < sig.flips@.len() ==> !(t1 < #[trigger] sig.flips@[i] <= t2),
    ensures
        sig.spec_level_at(t1) == sig.spec_level_at(t2),
{
    lemma_count_stable_without_flips(sig.flips@, t1, t2);
}

} // verus!
