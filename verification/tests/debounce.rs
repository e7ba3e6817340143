use debouncer::machine::{Action, EdgeKind, Event, Level, WaitKind, WaitState};
use debouncer::sim::{find_edge, simulate, RawSignal};
use debouncer::Debouncer;

fn line(initial: Level, flips: Vec<u64>) -> RawSignal {
    RawSignal { initial, flips }
}

#[test]
fn constructors_store_settle_times() {
    let symmetric = Debouncer::new((), 7);
    assert_eq!(symmetric.debounce_high_time, 7);
    assert_eq!(symmetric.debounce_low_time, 7);

    let asymmetric = Debouncer::new_asymmetric((), 5, 50);
    assert_eq!(asymmetric.debounce_high_time, 5);
    assert_eq!(asymmetric.debounce_low_time, 50);
}

#[test]
fn wait_for_high_returns_immediately_when_already_high() {
    let deb = Debouncer::new((), 10);
    let sig = line(Level::High, vec![]);
    assert_eq!(simulate(&deb, WaitKind::ForHigh, &sig, 5, 8), Some(5));
}

#[test]
fn wait_for_low_returns_immediately_when_already_low() {
    let deb = Debouncer::new((), 10);
    let sig = line(Level::Low, vec![]);
    assert_eq!(simulate(&deb, WaitKind::ForLow, &sig, 3, 8), Some(3));
}

#[test]
fn wait_for_high_confirms_edge_plus_settle() {
    let deb = Debouncer::new((), 4);
    let sig = line(Level::Low, vec![10]);
    assert_eq!(simulate(&deb, WaitKind::ForHigh, &sig, 0, 8), Some(14));
}

#[test]
fn wait_for_low_uses_low_settle_time() {
    let deb = Debouncer::new_asymmetric((), 3, 7);
    let sig = line(Level::High, vec![10]);
    assert_eq!(simulate(&deb, WaitKind::ForLow, &sig, 0, 8), Some(17));
}

#[test]
fn bounce_is_rejected_and_second_edge_confirms() {
    // Rise at 10, fall back at 15 (inside the 10-tick window), rise again at
    // 22 for good. The re-check at 20 sees Low, so the first attempt is
    // rejected; the second rising edge at 22 confirms at 32.
    let deb = Debouncer::new((), 10);
    let sig = line(Level::Low, vec![10, 15, 22]);
    assert_eq!(simulate(&deb, WaitKind::ForHigh, &sig, 0, 8), Some(32));
}

#[test]
fn bounce_inside_window_restarts_the_settle() {
    // Rise at 10, momentary Low pulse at 15, back High at 15, then stable.
    // The pulse disturbs the first edge's settle window, so the attempt
    // restarts from the fresh rise at 15 and confirms at 25 (second edge
    // plus settle), not at 20 (first edge plus settle).
    let deb = Debouncer::new((), 10);
    let sig = line(Level::Low, vec![10, 15, 15]);
    assert_eq!(simulate(&deb, WaitKind::ForHigh, &sig, 0, 8), Some(25));
}

#[test]
fn confirmation_needs_continuous_stability() {
    // Rise at 10, fall at 14, rise at 16, settle 10: no rising edge has had
    // ten ticks of continuous High until the one at 16, so the wait
    // confirms at 26 — never at 20 via the first edge's window.
    let deb = Debouncer::new((), 10);
    let sig = line(Level::Low, vec![10, 14, 16]);
    assert_eq!(simulate(&deb, WaitKind::ForHigh, &sig, 0, 8), Some(26));
}

#[test]
fn asymmetric_short_stability_confirms_high_not_low() {
    // high settle 5, low settle 50. A rising edge followed by 5 stable ticks
    // confirms the wait for High.
    let deb = Debouncer::new_asymmetric((), 5, 50);
    let rising = line(Level::Low, vec![10]);
    assert_eq!(simulate(&deb, WaitKind::ForHigh, &rising, 0, 8), Some(15));

    // The same stability does not confirm a wait for Low: the line falls at
    // 10 but is back High at 16, so the re-check at 60 reads High and no
    // further falling edge ever comes.
    let falling = line(Level::High, vec![10, 16]);
    assert_eq!(simulate(&deb, WaitKind::ForLow, &falling, 0, 8), None);
}

#[test]
fn rising_edge_wait_ignores_current_level() {
    // Already High and no raw edge ever fires: a wait for High returns at
    // once, a wait for a rising edge never returns.
    let deb = Debouncer::new((), 10);
    let sig = line(Level::High, vec![]);
    assert_eq!(simulate(&deb, WaitKind::ForHigh, &sig, 0, 8), Some(0));
    assert_eq!(simulate(&deb, WaitKind::RisingEdge, &sig, 0, 8), None);
}

#[test]
fn zero_settle_time_confirms_at_the_edge() {
    let deb = Debouncer::new((), 0);
    let sig = line(Level::Low, vec![10]);
    assert_eq!(simulate(&deb, WaitKind::RisingEdge, &sig, 0, 8), Some(10));
}

#[test]
fn zero_settle_consumed_pulse_reaches_the_later_edge() {
    // A momentary pulse (rise and fall in the same tick) followed by a rise
    // at 7 that settles forever. With settle time 0 the pulse's rising edge
    // is consumed and its re-check fails; the wait moves past it and
    // confirms on the settled rise at 7 — a settling line always resolves.
    let deb = Debouncer::new((), 0);
    let sig = line(Level::Low, vec![5, 5, 7]);
    assert_eq!(simulate(&deb, WaitKind::RisingEdge, &sig, 0, 8), Some(7));
    assert_eq!(simulate(&deb, WaitKind::ForHigh, &sig, 0, 8), Some(7));
}

#[test]
fn falling_edge_wait_confirms_settled_fall() {
    let deb = Debouncer::new_asymmetric((), 2, 9);
    let sig = line(Level::High, vec![10]);
    assert_eq!(simulate(&deb, WaitKind::FallingEdge, &sig, 0, 8), Some(19));
}

#[test]
fn any_edge_dispatches_on_current_level() {
    let deb = Debouncer::new_asymmetric((), 2, 9);
    // Low line: the any-edge wait takes the rising direction and the high
    // settle time.
    let low_line = line(Level::Low, vec![10]);
    assert_eq!(simulate(&deb, WaitKind::AnyEdge, &low_line, 0, 8), Some(12));
    // High line: the falling direction and the low settle time.
    let high_line = line(Level::High, vec![10]);
    assert_eq!(simulate(&deb, WaitKind::AnyEdge, &high_line, 0, 8), Some(19));
}

#[test]
fn endless_bouncing_never_confirms() {
    // Every rising edge falls back before its settle window ends, so every
    // window is disturbed and the wait stays suspended until the attempt
    // budget runs out.
    let deb = Debouncer::new((), 5);
    let sig = line(Level::Low, vec![10, 11, 20, 21, 30, 31]);
    assert_eq!(simulate(&deb, WaitKind::ForHigh, &sig, 0, 8), None);
}

#[test]
fn device_error_aborts_from_every_waiting_state() {
    let deb = Debouncer::new((), 10);
    let abort = (WaitState::Failed, Action::Fail);
    assert_eq!(deb.step(WaitKind::ForHigh, WaitState::Start, Event::DeviceFailed), abort);
    assert_eq!(
        deb.step(
            WaitKind::ForHigh,
            WaitState::AwaitingEdge { target: Level::High },
            Event::DeviceFailed
        ),
        abort
    );
    assert_eq!(
        deb.step(
            WaitKind::ForHigh,
            WaitState::Settling { target: Level::High },
            Event::DeviceFailed
        ),
        abort
    );
    assert_eq!(
        deb.step(
            WaitKind::ForLow,
            WaitState::Rechecking { target: Level::Low },
            Event::DeviceFailed
        ),
        abort
    );
}

#[test]
fn machine_finishes_level_wait_without_edge_or_sleep() {
    let deb = Debouncer::new((), 10);
    let (state, action) = deb.begin(WaitKind::ForHigh);
    assert_eq!(state, WaitState::Start);
    assert_eq!(action, Action::ReadLevel);
    let (state, action) = deb.step(WaitKind::ForHigh, state, Event::LevelIs(Level::High));
    assert_eq!(state, WaitState::Done);
    assert_eq!(action, Action::Finish);
}

#[test]
fn machine_arms_edge_wait_directly_for_edge_kinds() {
    let deb = Debouncer::new((), 10);
    assert_eq!(
        deb.begin(WaitKind::RisingEdge),
        (
            WaitState::AwaitingEdge { target: Level::High },
            Action::AwaitEdge(EdgeKind::Rising)
        )
    );
    assert_eq!(
        deb.begin(WaitKind::FallingEdge),
        (
            WaitState::AwaitingEdge { target: Level::Low },
            Action::AwaitEdge(EdgeKind::Falling)
        )
    );
}

#[test]
fn machine_commands_direction_specific_settle_sleep() {
    let deb = Debouncer::new_asymmetric((), 5, 50);
    let (state, action) = deb.step(
        WaitKind::ForHigh,
        WaitState::AwaitingEdge { target: Level::High },
        Event::EdgeFired,
    );
    assert_eq!(state, WaitState::Settling { target: Level::High });
    assert_eq!(action, Action::Settle { ticks: 5 });
    let (state, action) = deb.step(
        WaitKind::ForLow,
        WaitState::AwaitingEdge { target: Level::Low },
        Event::EdgeFired,
    );
    assert_eq!(state, WaitState::Settling { target: Level::Low });
    assert_eq!(action, Action::Settle { ticks: 50 });
}

#[test]
fn machine_restarts_attempt_when_window_is_disturbed() {
    let deb = Debouncer::new((), 10);
    assert_eq!(
        deb.step(
            WaitKind::ForHigh,
            WaitState::Settling { target: Level::High },
            Event::Disturbed
        ),
        (
            WaitState::AwaitingEdge { target: Level::High },
            Action::AwaitEdge(EdgeKind::Rising)
        )
    );
    assert_eq!(
        deb.step(
            WaitKind::FallingEdge,
            WaitState::Settling { target: Level::Low },
            Event::Disturbed
        ),
        (
            WaitState::AwaitingEdge { target: Level::Low },
            Action::AwaitEdge(EdgeKind::Falling)
        )
    );
}

#[test]
fn machine_rearms_after_rejected_recheck() {
    let deb = Debouncer::new((), 10);
    assert_eq!(
        deb.step(
            WaitKind::ForHigh,
            WaitState::Rechecking { target: Level::High },
            Event::LevelIs(Level::Low)
        ),
        (
            WaitState::AwaitingEdge { target: Level::High },
            Action::AwaitEdge(EdgeKind::Rising)
        )
    );
}

#[test]
fn level_reads_are_idempotent_between_edges() {
    let sig = line(Level::Low, vec![10]);
    assert_eq!(sig.level_at(3), Level::Low);
    assert_eq!(sig.level_at(3), Level::Low);
    assert_eq!(sig.level_at(9), Level::Low);
    // The flip takes effect at its own instant and stays.
    assert_eq!(sig.level_at(10), Level::High);
    assert_eq!(sig.level_at(10), Level::High);
    assert_eq!(sig.level_at(1000), Level::High);
}

#[test]
fn momentary_pulse_leaves_level_unchanged() {
    let sig = line(Level::Low, vec![5, 5]);
    assert_eq!(sig.level_at(4), Level::Low);
    assert_eq!(sig.level_at(5), Level::Low);
    assert_eq!(sig.level_at(6), Level::Low);
}

#[test]
fn edge_wait_picks_first_matching_flip_not_yet_consumed() {
    // Low line flipping at 10 (rise), 15 (fall), 22 (rise).
    let sig = line(Level::Low, vec![10, 15, 22]);
    assert_eq!(find_edge(&sig, Level::High, 0, 0), Some((0, 10)));
    assert_eq!(find_edge(&sig, Level::High, 11, 0), Some((2, 22)));
    assert_eq!(find_edge(&sig, Level::Low, 0, 0), Some((1, 15)));
    assert_eq!(find_edge(&sig, Level::Low, 16, 0), None);
    assert_eq!(find_edge(&sig, Level::High, 23, 0), None);
    // A consumed flip is never found again, even at the same instant.
    assert_eq!(find_edge(&sig, Level::High, 10, 1), Some((2, 22)));
    assert_eq!(find_edge(&sig, Level::High, 10, 3), None);
}

#[test]
fn level_flip_is_an_involution() {
    assert_eq!(Level::Low.flip(), Level::High);
    assert_eq!(Level::High.flip(), Level::Low);
    assert_eq!(EdgeKind::Rising.target(), Level::High);
    assert_eq!(EdgeKind::Falling.target(), Level::Low);
}
