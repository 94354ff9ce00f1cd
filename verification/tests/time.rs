use stm32l4_hal_core::retry::WouldBlock;
use stm32l4_hal_core::time::{Delay, Hertz, Interval, MonoTimer, Phase, MAX_COUNT};

struct Handle;

fn timer(hertz: u32, current: u32) -> MonoTimer {
    MonoTimer::new(Handle, Hertz(hertz), current)
}

/// Feeds the readings to a delay of `ticks` that starts at `start`, and tells
/// at which of them, counted from 0, the delay was over; `None` if it was not
/// by the last, `Some(usize::MAX)` if it was before the first.
fn run(start: u32, ticks: u64, readings: &[u32]) -> Option<usize> {
    let mut t = timer(1_000_000, 0);
    let mut d = t.delay_ticks(ticks, start);
    if d.is_done() {
        return Some(usize::MAX);
    }
    for (i, r) in readings.iter().enumerate() {
        d = t.advance(d, *r);
        if d.is_done() {
            return Some(i);
        }
    }
    None
}

#[test]
fn has_wrapped_when_the_count_fell() {
    let t = timer(1_000_000, 0xFFFF_FFF0);
    assert!(t.has_wrapped(5));
    assert!(!t.has_wrapped(0xFFFF_FFF5));
}

#[test]
fn has_wrapped_is_strict() {
    let t = timer(1_000_000, 100);
    assert!(!t.has_wrapped(100));
    assert!(t.has_wrapped(99));
    assert!(!t.has_wrapped(101));
    assert!(!timer(1_000_000, 0).has_wrapped(0));
    assert!(timer(1_000_000, MAX_COUNT).has_wrapped(0));
}

#[test]
fn new_records_the_reading() {
    let t = timer(8_000_000, 42);
    assert!(t.has_wrapped(41));
    assert!(!t.has_wrapped(42));
    assert_eq!(t.tick(), Some(Interval { secs: 0, nanos: 125 }));
}

#[test]
fn start_and_stop_record_the_reading_and_keep_the_frequency() {
    let t = timer(2_000_000, 42).start(1_000);
    assert!(t.has_wrapped(999));
    assert!(!t.has_wrapped(1_000));
    assert_eq!(t.tick(), Some(Interval { secs: 0, nanos: 500 }));
    let t = t.stop(7);
    assert!(t.has_wrapped(6));
    assert!(!t.has_wrapped(7));
    assert_eq!(t.tick(), Some(Interval { secs: 0, nanos: 500 }));
}

#[test]
fn limit_value_is_zero() {
    assert_eq!(timer(1_000_000, 77).limit_value(), 0);
}

#[test]
fn tick_is_one_pulse() {
    assert_eq!(timer(1_000_000, 0).tick(), Some(Interval { secs: 0, nanos: 1_000 }));
    assert_eq!(timer(1_000, 0).tick(), Some(Interval { secs: 0, nanos: 1_000_000 }));
    assert_eq!(timer(1, 0).tick(), Some(Interval { secs: 1, nanos: 0 }));
    assert_eq!(timer(3, 0).tick(), Some(Interval { secs: 0, nanos: 333_333_333 }));
    assert_eq!(timer(80_000_000, 0).tick(), Some(Interval { secs: 0, nanos: 12 }));
    assert_eq!(timer(u32::MAX, 0).tick(), Some(Interval { secs: 0, nanos: 0 }));
}

#[test]
fn tick_of_a_stopped_clock_is_none() {
    assert_eq!(timer(0, 0).tick(), None);
}

#[test]
fn ticks_in_counts_whole_pulses() {
    assert_eq!(timer(1_000, 0).ticks_in(&Interval { secs: 2, nanos: 0 }), Some(2_000));
    assert_eq!(timer(1_000_000, 0).ticks_in(&Interval { secs: 2, nanos: 0 }), Some(2_000_000));
    assert_eq!(timer(2_000_000, 0).ticks_in(&Interval { secs: 2, nanos: 0 }), Some(4_000_000));
    assert_eq!(timer(2_000_000, 0).ticks_in(&Interval { secs: 0, nanos: 2_000 }), Some(4));
    assert_eq!(timer(1, 0).ticks_in(&Interval { secs: 2, nanos: 0 }), Some(2));
    assert_eq!(timer(1, 0).ticks_in(&Interval { secs: 2, nanos: 999_999_999 }), Some(2));
    assert_eq!(timer(3, 0).ticks_in(&Interval { secs: 0, nanos: 999_999_999 }), Some(2));
    assert_eq!(timer(80_000_000, 0).ticks_in(&Interval { secs: 0, nanos: 0 }), Some(0));
    assert_eq!(timer(0, 0).ticks_in(&Interval { secs: 5, nanos: 0 }), Some(0));
}

#[test]
fn ticks_in_takes_nanoseconds_beyond_a_second() {
    assert_eq!(
        timer(1_000, 0).ticks_in(&Interval { secs: 1, nanos: 2_500_000_000 }),
        Some(3_500)
    );
}

#[test]
fn ticks_in_at_the_edge_of_sixty_four_bits() {
    // 18_446_744 s at 1 MHz: 18_446_744 * 10^9 * 1000 * 10^6 is just below 2^64.
    assert_eq!(
        timer(1_000_000, 0).ticks_in(&Interval { secs: 18, nanos: 446_744_073 }),
        Some(18_446_744)
    );
    assert_eq!(timer(1_000_000, 0).ticks_in(&Interval { secs: 18, nanos: 446_745_000 }), None);
    assert_eq!(timer(1, 0).ticks_in(&Interval { secs: 18_446_744, nanos: 0 }), Some(18_446_744));
    assert_eq!(timer(1, 0).ticks_in(&Interval { secs: 18_446_745, nanos: 0 }), None);
    assert_eq!(timer(0, 0).ticks_in(&Interval { secs: 18_446_745, nanos: 0 }), None);
    assert_eq!(timer(1, 0).ticks_in(&Interval { secs: u64::MAX, nanos: u32::MAX }), None);
}

#[test]
fn delay_of_nothing_is_over_at_once() {
    let mut t = timer(1_000_000, 0);
    let d = t.delay_ticks(0, 500);
    assert_eq!(d, Delay { ticks: 0, phase: Phase::Done });
    assert!(d.is_done());
    assert!(t.has_wrapped(499));
    assert!(!t.has_wrapped(500));
}

#[test]
fn delay_within_the_window_ends_at_the_first_reading_far_enough_on() {
    assert_eq!(run(1_000, 50, &[1_000, 1_010, 1_049, 1_050, 1_051]), Some(3));
    assert_eq!(run(1_000, 50, &[1_049, 1_049, 1_200]), Some(2));
    assert_eq!(run(1_000, 50, &[1_000, 1_049]), None);
    assert_eq!(run(0, 1, &[0, 0, 1]), Some(2));
    assert_eq!(run(0, MAX_COUNT as u64, &[0, 0xFFFF_FFFE, MAX_COUNT]), Some(2));
}

#[test]
fn delay_within_the_window_measures_across_the_wraparound() {
    // 16 increments fit before the wrap; a reading past zero still counts from the start.
    assert_eq!(run(0xFFFF_FFF0, 15, &[0xFFFF_FFF8, 3]), Some(1));
    assert_eq!(run(0xFFFF_FFF0, 15, &[0xFFFF_FFFE, 0xFFFF_FFFF]), Some(1));
}

#[test]
fn delay_within_the_window_keeps_its_state_until_the_end() {
    let mut t = timer(1_000_000, 0);
    let d = t.delay_ticks(50, 1_000);
    assert_eq!(d, Delay { ticks: 50, phase: Phase::AwaitElapsed });
    let d = t.advance(d, 1_049);
    assert_eq!(d, Delay { ticks: 50, phase: Phase::AwaitElapsed });
    let d = t.advance(d, 1_050);
    assert_eq!(d, Delay { ticks: 50, phase: Phase::Done });
    let d = t.advance(d, 0);
    assert_eq!(d, Delay { ticks: 50, phase: Phase::Done });
    assert!(!t.has_wrapped(1_000));
    assert!(t.has_wrapped(999));
}

#[test]
fn delay_spanning_one_wraparound() {
    let mut t = timer(1_000_000, 0);
    let d = t.delay_ticks(32, 0xFFFF_FFF0);
    // 15 increments are left before the wrap; 17 are owed after it.
    assert_eq!(d, Delay { ticks: 17, phase: Phase::AwaitWrap });
    let d = t.advance(d, 0xFFFF_FFF0);
    assert_eq!(d, Delay { ticks: 17, phase: Phase::AwaitWrap });
    let d = t.advance(d, 0xFFFF_FFFF);
    assert_eq!(d, Delay { ticks: 17, phase: Phase::AwaitWrap });
    let d = t.advance(d, 0);
    assert_eq!(d, Delay { ticks: 17, phase: Phase::Resync });
    let d = t.advance(d, 0);
    assert_eq!(d, Delay { ticks: 17, phase: Phase::AwaitElapsed });
    assert!(!t.has_wrapped(0));
    let d = t.advance(d, 5);
    assert!(!d.is_done());
    let d = t.advance(d, 16);
    assert!(!d.is_done());
    let d = t.advance(d, 17);
    assert_eq!(d, Delay { ticks: 17, phase: Phase::Done });
}

#[test]
fn delay_spanning_one_wraparound_counts_from_the_reading_after_it() {
    assert_eq!(run(0xFFFF_FFF0, 32, &[0xFFFF_FFFF, 2, 4, 20, 21]), Some(4));
    assert_eq!(run(0xFFFF_FFF0, 32, &[0xFFFF_FFFF, 0, 0, 16, 17]), Some(4));
    assert_eq!(run(0xFFFF_FFF0, 32, &[0xFFFF_FFF1, 0xFFFF_FFFF, 0xFFFF_FFF0]), None);
}

#[test]
fn delay_longer_than_the_range_waits_for_every_wraparound() {
    let mut t = timer(1_000_000, 0);
    let d = t.delay_ticks(0x2_0000_0000, 0);
    assert_eq!(d, Delay { ticks: 0x1_0000_0001, phase: Phase::AwaitWrap });
    // The counter cannot read below zero: the wrap shows once the count was refreshed.
    let mut t = timer(1_000_000, 0);
    let d = t.delay_ticks(0x1_0000_0010, 0x10);
    assert_eq!(d, Delay { ticks: 0x21, phase: Phase::AwaitWrap });
    let d = t.advance(d, 0xF);
    assert_eq!(d.phase, Phase::Resync);
    let d = t.advance(d, 0x10);
    assert_eq!(d, Delay { ticks: 0x21, phase: Phase::AwaitElapsed });
    let d = t.advance(d, 0x31);
    assert!(d.is_done());
}

#[test]
fn delay_converts_the_span_with_the_frequency() {
    let mut t = timer(2_000_000, 0);
    let d = t.delay(&Interval { secs: 0, nanos: 16_000 }, 0xFFFF_FFF0);
    assert_eq!(d, Some(Delay { ticks: 17, phase: Phase::AwaitWrap }));
    let mut t = timer(1_000, 0);
    let d = t.delay(&Interval { secs: 2, nanos: 500_000_000 }, 10);
    assert_eq!(d, Some(Delay { ticks: 2_500, phase: Phase::AwaitElapsed }));
    assert!(t.has_wrapped(9));
    assert!(!t.has_wrapped(10));
}

#[test]
fn delay_refuses_a_span_too_long_to_count_and_keeps_the_timer() {
    let mut t = timer(1_000_000, 77);
    assert_eq!(t.delay(&Interval { secs: 1_000_000_000, nanos: 0 }, 5), None);
    assert!(t.has_wrapped(76));
    assert!(!t.has_wrapped(77));
}

#[test]
fn wait_always_asks_to_try_again() {
    let mut t = timer(1_000_000, 77);
    assert_eq!(t.wait(&Interval { secs: 0, nanos: 0 }), Err(WouldBlock));
    assert_eq!(t.wait(&Interval { secs: 1, nanos: 0 }), Err(WouldBlock));
    assert!(t.has_wrapped(76));
    assert!(!t.has_wrapped(77));
}
