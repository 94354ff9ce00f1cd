//! Time units, the monotonic clock and its delay engine.

use vstd::prelude::*;
use crate::retry::WouldBlock;

verus! {

/// Bits per second
#[derive(Clone, Copy, Debug)]
pub struct Bps(pub u32);

/// Pulses per second
#[derive(Clone, Copy, Debug)]
pub struct Hertz(pub u32);

/// Largest value of the cycle counter; the next increment wraps it to zero.
pub const MAX_COUNT: u32 = 0xFFFF_FFFF;

/// Widens a counter value through `cast::u64`, which converts a `u32` with `as`
/// and so keeps its value.
#[verifier::external_body]
fn widen(x: u32) -> (r: u64)
    ensures
        r == x,
{
    cast::u64(x)
}

/// A span of time: whole seconds and further nanoseconds.
#[derive(Clone, Copy, Debug, PartialEq, Eq, Structural)]
pub struct Interval {
    pub secs: u64,
    pub nanos: u32,
}

impl Interval {
    /// The span in nanoseconds.
    pub open spec fn total_nanos(&self) -> int {
        self.secs * 1_000_000_000 + self.nanos
    }
}

/// Whole pulses of a clock of `hertz` pulses per second within `nanos` nanoseconds.
pub open spec fn pulses_in(hertz: u32, nanos: int) -> int {
    nanos * hertz / 1_000_000_000
}

/// Whether the pulses within `nanos` nanoseconds can be counted in 64 bits: the
/// count is taken from the span in picoseconds, which has to fit, times the
/// frequency, which has to fit too.
pub open spec fn pulses_fit(hertz: u32, nanos: int) -> bool {
    nanos * 1000 <= u64::MAX && nanos * 1000 * hertz <= u64::MAX
}

/// Whole nanoseconds from one pulse of a clock of `hertz` pulses per second to the next.
pub open spec fn pulse_nanos(hertz: u32) -> int {
    1_000_000_000int / (hertz as int)
}

/// Counts pulses through `ticklock::clock::Frequency::ticks_in`, on the frequency
/// of `hertz` Hz that `U32Ext::hz` makes.
///
/// `ticks_in` multiplies the span in nanoseconds by the resolution of such a
/// frequency, 1000, then by `hertz`, and divides by 10^12, all in `u64`. The
/// `requires` keeps both products in range.
#[verifier::external_body]
fn frequency_ticks_in(hertz: u32, d: &Interval) -> (r: u64)
    requires
        pulses_fit(hertz, d.total_nanos()),
    ensures
        r == d.total_nanos() * 1000 * hertz / 1_000_000_000_000,
{
    let span = core::time::Duration::new(d.secs, d.nanos);
    ticklock::clock::U32Ext::hz(hertz).ticks_in(span)
}

/// Takes the length of one pulse from `ticklock::clock::Frequency::tick`, on the
/// frequency of `hertz` Hz that `U32Ext::hz` makes.
///
/// `tick` divides 10^12 by `hertz` times the resolution, 1000, and returns that
/// many nanoseconds; it divides by zero where `hertz` is zero.
#[verifier::external_body]
fn frequency_tick(hertz: u32) -> (r: Interval)
    requires
        hertz > 0,
    ensures
        r.total_nanos() == 1_000_000_000_000int / (hertz * 1000),
        r.nanos < 1_000_000_000,
{
    let pulse = ticklock::clock::U32Ext::hz(hertz).tick();
    Interval { secs: pulse.as_secs(), nanos: pulse.subsec_nanos() }
}

/// Counting in picoseconds, as the clock arithmetic does, loses nothing.
proof fn lemma_scaled_division(x: int, y: int)
    requires
        0 <= x,
        0 < y,
    ensures
        (x * 1000) / (y * 1000) == x / y,
{
    let q = x / y;
    let r = x % y;
    assert(x == q * y + r && 0 <= r < y) by (nonlinear_arith)
        requires
            q == x / y,
            r == x % y,
            0 < y,
    ;
    assert(x * 1000 == q * (y * 1000) + r * 1000) by (nonlinear_arith)
        requires
            x == q * y + r,
    ;
    assert(0 <= r * 1000 < y * 1000);
    vstd::arithmetic::div_mod::lemma_fundamental_div_mod_converse(
        x * 1000,
        y * 1000,
        q,
        r * 1000,
    );
}

/// Counter increments between the reading `last` and the later reading `current`,
/// correct across one wraparound of the counter.
pub open spec fn elapsed(last: u32, current: u32) -> int {
    if current >= last {
        current - last
    } else {
        current - last + 0x1_0000_0000
    }
}

/// What the delay engine does with the next reading of the counter.
#[derive(Clone, Copy, Debug, PartialEq, Eq, Structural)]
pub enum Phase {
    /// Polling until the counter is seen to have wrapped past the recorded count.
    AwaitWrap,
    /// The wraparound was seen; the next reading becomes the recorded count.
    Resync,
    /// Polling until enough increments have passed since the recorded count.
    AwaitElapsed,
    /// The delay is over; further readings change nothing.
    Done,
}

/// A delay in progress: the increments still owed once the current phase is
/// over, and the phase.
#[derive(Clone, Copy, Debug, PartialEq, Eq, Structural)]
pub struct Delay {
    pub ticks: u64,
    pub phase: Phase,
}

/// The engine's whole state: the recorded count and the delay in progress.
pub struct Engine {
    pub last: u32,
    pub run: Delay,
}

/// The delay that waits `ticks` increments from the freshly recorded count `last`.
///
/// Nothing owed: done. More owed than the counter has left before it wraps:
/// wait for the wraparound, and owe the rest after it. Otherwise wait for the
/// increments to pass.
pub open spec fn settle(last: u32, ticks: u64) -> Delay {
    let remaining = MAX_COUNT - last;
    if ticks == 0 {
        Delay { ticks: 0, phase: Phase::Done }
    } else if ticks > remaining {
        Delay { ticks: (ticks - remaining) as u64, phase: Phase::AwaitWrap }
    } else {
        Delay { ticks, phase: Phase::AwaitElapsed }
    }
}

/// The engine at the start of a delay of `ticks` increments, when the counter
/// reads `current`.
pub open spec fn begin(ticks: u64, current: u32) -> Engine {
    Engine { last: current, run: settle(current, ticks) }
}

/// The engine after it was handed the reading `current`.
pub open spec fn step(e: Engine, current: u32) -> Engine {
    match e.run.phase {
        Phase::AwaitWrap => if current < e.last {
            Engine { last: e.last, run: Delay { ticks: e.run.ticks, phase: Phase::Resync } }
        } else {
            e
        },
        Phase::Resync => Engine { last: current, run: settle(current, e.run.ticks) },
        Phase::AwaitElapsed => if elapsed(e.last, current) >= e.run.ticks {
            Engine { last: e.last, run: Delay { ticks: e.run.ticks, phase: Phase::Done } }
        } else {
            e
        },
        Phase::Done => e,
    }
}

/// The engine after it was handed `readings`, first to last.
pub open spec fn replay(e: Engine, readings: Seq<u32>) -> Engine
    decreases readings.len(),
{
    if readings.len() == 0 {
        e
    } else {
        step(replay(e, readings.drop_last()), readings.last())
    }
}

/// Handing over the readings `a` and then the readings `b` is handing over
/// `a + b`.
pub proof fn lemma_replay_concat(e: Engine, a: Seq<u32>, b: Seq<u32>)
    ensures
        replay(e, a + b) == replay(replay(e, a), b),
    decreases b.len(),
{
    if b.len() == 0 {
        assert(a + b =~= a);
    } else {
        assert((a + b).drop_last() =~= a + b.drop_last());
        assert((a + b).last() == b.last());
        lemma_replay_concat(e, a, b.drop_last());
    }
}

/// A delay that is over stays over, and the recorded count stays with it.
pub proof fn lemma_done_is_final(e: Engine, readings: Seq<u32>)
    requires
        e.run.phase == Phase::Done,
    ensures
        replay(e, readings) == e,
    decreases readings.len(),
{
    if readings.len() > 0 {
        lemma_done_is_final(e, readings.drop_last());
    }
}

/// A delay whose increments all come before the counter wraps ends at the
/// first reading that lies at least `ticks` increments after the start, and
/// never earlier: after any readings it is over if and only if one of them
/// lay that far on. Until then it keeps polling, and the recorded count stays
/// the count at the start.
pub proof fn lemma_delay_within_window(start: u32, ticks: u64, readings: Seq<u32>)
    requires
        ticks <= MAX_COUNT - start,
    ensures
        replay(begin(ticks, start), readings).last == start,
        replay(begin(ticks, start), readings).run.phase == Phase::Done <==> (ticks == 0
            || exists|i: int| 0 <= i < readings.len() && elapsed(start, #[trigger] readings[i]) >= ticks),
        replay(begin(ticks, start), readings).run.phase != Phase::Done ==> replay(
            begin(ticks, start),
            readings,
        ) == begin(ticks, start),
    decreases readings.len(),
{
    if readings.len() > 0 {
        let front = readings.drop_last();
        lemma_delay_within_window(start, ticks, front);
        let before = replay(begin(ticks, start), front);
        if before.run.phase == Phase::Done {
            if ticks != 0 {
                let i = choose|i: int| 0 <= i < front.len() && elapsed(start, #[trigger] front[i]) >= ticks;
                assert(readings[i] == front[i]);
            }
        } else {
            assert forall|i: int| 0 <= i < front.len() implies elapsed(start, #[trigger] readings[i]) < ticks by {
                assert(readings[i] == front[i]);
            }
        }
    }
}

/// A delay that outlasts the counter's range does not end, nor move on, while
/// every reading is at or above the count at its start: it waits for the
/// wraparound, owing what the range did not cover.
pub proof fn lemma_delay_awaits_wrap(start: u32, ticks: u64, readings: Seq<u32>)
    requires
        ticks > MAX_COUNT - start,
        forall|i: int| 0 <= i < readings.len() ==> #[trigger] readings[i] >= start,
    ensures
        replay(begin(ticks, start), readings) == (Engine {
            last: start,
            run: Delay { ticks: (ticks - (MAX_COUNT - start)) as u64, phase: Phase::AwaitWrap },
        }),
    decreases readings.len(),
{
    if readings.len() > 0 {
        let front = readings.drop_last();
        assert forall|i: int| 0 <= i < front.len() implies #[trigger] front[i] >= start by {
            assert(front[i] == readings[i]);
        }
        lemma_delay_awaits_wrap(start, ticks, front);
        assert(readings.last() == readings[readings.len() - 1]);
    }
}

/// A delay that outlasts the counter's range, once a reading below the count
/// at its start shows the wraparound, takes the next reading `sync` as its new
/// start and goes on as a fresh delay of the increments still owed: those
/// asked for less those that the range covered.
pub proof fn lemma_delay_spans_wrap(start: u32, ticks: u64, before: Seq<u32>, wrapped: u32, sync: u32)
    requires
        ticks > MAX_COUNT - start,
        forall|i: int| 0 <= i < before.len() ==> #[trigger] before[i] >= start,
        wrapped < start,
    ensures
        replay(begin(ticks, start), before.push(wrapped).push(sync)) == begin(
            (ticks - (MAX_COUNT - start)) as u64,
            sync,
        ),
{
    lemma_delay_awaits_wrap(start, ticks, before);
    let e = begin(ticks, start);
    let seen = before.push(wrapped);
    assert(seen.drop_last() =~= before);
    assert(replay(e, seen) == step(replay(e, before), wrapped));
    assert(seen.push(sync).drop_last() =~= seen);
    assert(replay(e, seen.push(sync)) == step(replay(e, seen), sync));
}

/// A delay that spans one wraparound ends at the first reading that lies, from
/// the reading taken after the wraparound, at least as many increments on as
/// were still owed, and never earlier.
///
/// `before` are the readings up to the wraparound, `wrapped` the reading that
/// shows it, `sync` the reading taken next, `after` those that follow.
pub proof fn lemma_delay_across_one_wrap(
    start: u32,
    ticks: u64,
    before: Seq<u32>,
    wrapped: u32,
    sync: u32,
    after: Seq<u32>,
)
    requires
        ticks > MAX_COUNT - start,
        forall|i: int| 0 <= i < before.len() ==> #[trigger] before[i] >= start,
        wrapped < start,
        ticks - (MAX_COUNT - start) <= MAX_COUNT - sync,
    ensures
        replay(begin(ticks, start), before.push(wrapped).push(sync) + after).run.phase
            == Phase::Done <==> exists|i: int|
            0 <= i < after.len() && elapsed(sync, #[trigger] after[i]) >= ticks - (MAX_COUNT
                - start),
{
    let owed = (ticks - (MAX_COUNT - start)) as u64;
    lemma_replay_concat(begin(ticks, start), before.push(wrapped).push(sync), after);
    lemma_delay_spans_wrap(start, ticks, before, wrapped, sync);
    lemma_delay_within_window(sync, owed, after);
}

impl Delay {
    /// Whether the delay is over, so that the caller stops reading the counter.
    pub fn is_done(&self) -> (r: bool)
        ensures
            r == (self.phase == Phase::Done),
    {
        self.phase == Phase::Done
    }
}

/// A free-running cycle counter of known frequency, with the count last recorded.
#[derive(Clone, Copy, Debug)]
pub struct MonoTimer {
    frequency: Hertz,
    last_count: u32,
}

impl MonoTimer {
    /// Frequency at which the counter increments.
    pub closed spec fn frequency(&self) -> Hertz {
        self.frequency
    }

    /// The count last recorded.
    pub closed spec fn last_count(&self) -> u32 {
        self.last_count
    }

    /// The engine that this timer and the delay `run` make up.
    pub open spec fn engine(&self, run: Delay) -> Engine {
        Engine { last: self.last_count(), run }
    }

    /// Creates the clock of a cycle counter that runs at `frequency` and reads
    /// `current`.
    ///
    /// `counter` is the handle through which the counter was switched on. It is
    /// taken and dropped here, so that nothing can stop or reset the counter
    /// afterwards: every later measurement relies on that.
    pub fn new<C>(counter: C, frequency: Hertz, current: u32) -> (timer: Self)
        ensures
            timer.frequency() == frequency,
            timer.last_count() == current,
    {
        let _ = counter;
        MonoTimer { frequency, last_count: current }
    }

    fn update_count(&mut self, current: u32)
        ensures
            final(self).last_count() == current,
            final(self).frequency() == old(self).frequency(),
    {
        self.last_count = current;
    }

    /// Whole counter increments within the span `d`, or `None` where they
    /// cannot be counted in 64 bits.
    pub fn ticks_in(&self, d: &Interval) -> (r: Option<u64>)
        ensures
            r is Some <==> pulses_fit(self.frequency().0, d.total_nanos()),
            r matches Some(ticks) ==> ticks == pulses_in(self.frequency().0, d.total_nanos()),
    {
        let hertz: u32 = self.frequency.0;
        let nanos: u128 = d.secs as u128 * 1_000_000_000 + d.nanos as u128;
        let pico: u128 = nanos * 1000;
        if pico > u64::MAX as u128 {
            return None;
        }
        assert(pico * hertz <= 0xFFFF_FFFF_FFFF_FFFF * 0xFFFF_FFFF) by (nonlinear_arith)
            requires
                0 <= pico <= 0xFFFF_FFFF_FFFF_FFFF,
                0 <= hertz <= 0xFFFF_FFFF,
        ;
        if pico * hertz as u128 > u64::MAX as u128 {
            return None;
        }
        let ticks: u64 = frequency_ticks_in(hertz, d);
        proof {
            assert(d.total_nanos() * 1000 * hertz == (d.total_nanos() * hertz) * 1000)
                by (nonlinear_arith);
            assert(0 <= d.total_nanos() * hertz) by (nonlinear_arith)
                requires
                    0 <= d.total_nanos(),
                    0 <= hertz,
            ;
            lemma_scaled_division(d.total_nanos() * hertz, 1_000_000_000);
        }
        Some(ticks)
    }

    /// Starts a pause of `ticks` counter increments, at the reading `current`:
    /// records `current` as the last count and decides how to wait from it.
    ///
    /// The caller then reads the counter and hands each reading to
    /// [`MonoTimer::advance`] until the delay it gets back is done.
    pub fn delay_ticks(&mut self, ticks: u64, current: u32) -> (run: Delay)
        ensures
            final(self).engine(run) == begin(ticks, current),
            final(self).frequency() == old(self).frequency(),
    {
        self.update_count(current);
        let remaining: u32 = MAX_COUNT - self.last_count;
        if ticks == 0 {
            Delay { ticks: 0, phase: Phase::Done }
        } else if ticks > widen(remaining) {
            Delay { ticks: ticks - widen(remaining), phase: Phase::AwaitWrap }
        } else {
            Delay { ticks, phase: Phase::AwaitElapsed }
        }
    }

    /// Starts a pause of the span `d`, at the reading `current`.
    ///
    /// Returns `None`, and leaves the timer as it was, where the increments
    /// within `d` cannot be counted in 64 bits.
    pub fn delay(&mut self, d: &Interval, current: u32) -> (r: Option<Delay>)
        ensures
            final(self).frequency() == old(self).frequency(),
            r is Some <==> pulses_fit(old(self).frequency().0, d.total_nanos()),
            r is None ==> *final(self) == *old(self),
            r matches Some(run) ==> final(self).engine(run) == begin(
                pulses_in(old(self).frequency().0, d.total_nanos()) as u64,
                current,
            ),
    {
        match self.ticks_in(d) {
            Some(ticks) => Some(self.delay_ticks(ticks, current)),
            None => None,
        }
    }

    /// None blocking variant of delay. It never completes: whatever the span,
    /// it asks the caller to try again and leaves the timer as it was.
    pub fn wait(&mut self, d: &Interval) -> (r: Result<(), WouldBlock>)
        ensures
            r is Err,
            *final(self) == *old(self),
    {
        Err(WouldBlock)
    }

    /// Start a timer counter, at the reading `current`.
    /// The timer is being moved and dedicated to the instant's needs.
    pub fn start(self, current: u32) -> (timer: Self)
        ensures
            timer.frequency() == self.frequency(),
            timer.last_count() == current,
    {
        MonoTimer { frequency: self.frequency, last_count: current }
    }

    /// Stop the counting timer, at the reading `current`: releases the timer
    /// that an instant held.
    pub fn stop(self, current: u32) -> (timer: Self)
        ensures
            timer.frequency() == self.frequency(),
            timer.last_count() == current,
    {
        MonoTimer { frequency: self.frequency, last_count: current }
    }

    /// The maximum / minimum value.
    /// For a count down timer this is the maximum or reload value; this counter
    /// counts up, so it is 0.
    pub fn limit_value(&self) -> (r: u32)
        ensures
            r == 0,
    {
        0
    }

    /// Return the duration between 2 counted values, or `None` where the
    /// frequency is zero and there is no such duration.
    pub fn tick(&self) -> (r: Option<Interval>)
        ensures
            r is Some <==> self.frequency().0 > 0,
            r matches Some(pulse) ==> pulse.total_nanos() == pulse_nanos(self.frequency().0)
                && pulse.nanos < 1_000_000_000,
    {
        let hertz: u32 = self.frequency.0;
        if hertz == 0 {
            return None;
        }
        let pulse: Interval = frequency_tick(hertz);
        proof {
            lemma_scaled_division(1_000_000_000, hertz as int);
        }
        Some(pulse)
    }

    /// Hands the reading `current` to the delay `run` and returns the delay as
    /// it stands afterwards.
    pub fn advance(&mut self, run: Delay, current: u32) -> (next: Delay)
        ensures
            final(self).engine(next) == step(old(self).engine(run), current),
            final(self).frequency() == old(self).frequency(),
    {
        match run.phase {
            Phase::AwaitWrap => {
                if self.has_wrapped(current) {
                    Delay { ticks: run.ticks, phase: Phase::Resync }
                } else {
                    run
                }
            },
            Phase::Resync => self.delay_ticks(run.ticks, current),
            Phase::AwaitElapsed => {
                if run.ticks <= widen(current.wrapping_sub(self.last_count)) {
                    Delay { ticks: run.ticks, phase: Phase::Done }
                } else {
                    run
                }
            },
            Phase::Done => run,
        }
    }

    /// Test if the counter has wrapped since the last recorded count, given the
    /// reading `current`. The answer is right across a single wraparound only.
    pub fn has_wrapped(&self, current: u32) -> (r: bool)
        ensures
            r == (current < self.last_count()),
    {
        current < self.last_count
    }
}

} // verus!
