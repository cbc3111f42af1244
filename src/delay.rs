//! Delays and periodic countdowns measured on a free-running 32-bit counter.
//!
//! The counter itself is read by the caller; every decision (how many ticks a
//! delay lasts, whether a countdown has elapsed) is made here on the values read.

use vstd::prelude::*;
use crate::syscon::Clocks;
use crate::time::Hertz;

verus! {

/// Number of distinct values of the free-running counter.
pub open spec fn counter_modulus() -> int {
    0x1_0000_0000
}

/// Longest piece, in milliseconds, that a millisecond delay is cut into, so that its
/// conversion to microseconds fits in 32 bits.
pub const MAX_CHUNK_MS: u32 = 0xFFFF;

/// Ticks that elapsed between two readings of a counter that wraps at 2^32.
pub open spec fn elapsed(baseline: u32, now: u32) -> int {
    (now as int - baseline as int) % counter_modulus()
}

/// The counter value `n` ticks after `baseline`.
pub open spec fn advance(baseline: u32, n: u32) -> u32 {
    ((baseline as int + n as int) % counter_modulus()) as u32
}

/// Ticks elapsed since `baseline`, correct across a wrap of the counter.
pub fn elapsed_ticks(baseline: u32, now: u32) -> (r: u32)
    ensures
        r as int == elapsed(baseline, now),
{
    now.wrapping_sub(baseline)
}

/// Reading the counter `n` ticks after a baseline gives back `n` as the elapsed time,
/// also where the counter wrapped in between.
pub proof fn lemma_elapsed_after_advance(baseline: u32, n: u32)
    ensures
        elapsed(baseline, advance(baseline, n)) == n as int,
{
    let s = baseline as int + n as int;
    if s >= counter_modulus() {
        assert(advance(baseline, n) as int == s - counter_modulus());
        assert(elapsed(baseline, advance(baseline, n)) == (n as int - counter_modulus())
            % counter_modulus());
    } else {
        assert(advance(baseline, n) as int == s);
    }
}

/// Sum of a sequence of microsecond amounts.
pub open spec fn total(s: Seq<u32>) -> int
    decreases s.len(),
{
    if s.len() == 0 {
        0
    } else {
        total(s.drop_last()) + s.last() as int
    }
}

/// The microsecond pieces that a delay of `ms` milliseconds is cut into: whole
/// pieces of `MAX_CHUNK_MS` milliseconds first, then what is left.
pub open spec fn ms_chunks(ms: nat) -> Seq<u32>
    decreases ms,
{
    if ms == 0 {
        seq![]
    } else if ms <= MAX_CHUNK_MS as nat {
        seq![(ms * 1000) as u32]
    } else {
        seq![(MAX_CHUNK_MS * 1000) as u32] + ms_chunks((ms - MAX_CHUNK_MS) as nat)
    }
}

/// Cuts a delay of `ms` milliseconds into microsecond pieces, none of them longer
/// than `MAX_CHUNK_MS` milliseconds, so that no conversion overflows 32 bits.
pub fn ms_to_us_chunks(ms: u32) -> (r: Vec<u32>)
    ensures
        r@ == ms_chunks(ms as nat),
{
    let mut chunks: Vec<u32> = Vec::new();
    let mut left: u32 = ms;
    while left != 0
        invariant
            chunks@ + ms_chunks(left as nat) == ms_chunks(ms as nat),
        decreases left,
    {
        let current_ms: u32 = if left <= MAX_CHUNK_MS { left } else { MAX_CHUNK_MS };
        chunks.push(current_ms * 1_000);
        proof {
            let rest = ms_chunks((left - current_ms) as nat);
            if left <= MAX_CHUNK_MS {
                assert(rest =~= seq![]);
            }
            assert(ms_chunks(left as nat) =~= seq![(current_ms * 1000) as u32] + rest);
        }
        left = left - current_ms;
    }
    assert(chunks@ + ms_chunks(0) =~= chunks@);
    chunks
}

/// Sum of a concatenation.
proof fn lemma_total_concat(a: Seq<u32>, b: Seq<u32>)
    ensures
        total(a + b) == total(a) + total(b),
    decreases b.len(),
{
    if b.len() == 0 {
        assert(a + b =~= a);
    } else {
        assert((a + b).drop_last() =~= a + b.drop_last());
        lemma_total_concat(a, b.drop_last());
    }
}

/// A millisecond delay cut into pieces lasts exactly as long in microseconds, and no
/// piece converts more than `MAX_CHUNK_MS` milliseconds.
pub proof fn lemma_ms_chunks(ms: nat)
    ensures
        total(ms_chunks(ms)) == ms * 1000,
        forall|i: int|
            0 <= i < ms_chunks(ms).len() ==> 0 < #[trigger] ms_chunks(ms)[i] <= MAX_CHUNK_MS
                * 1000,
    decreases ms,
{
    if ms == 0 {
    } else if ms <= MAX_CHUNK_MS as nat {
        assert(ms_chunks(ms).drop_last() =~= seq![]);
        assert(total(ms_chunks(ms)) == total(seq![]) + ms * 1000);
    } else {
        let rest = ms_chunks((ms - MAX_CHUNK_MS) as nat);
        lemma_ms_chunks((ms - MAX_CHUNK_MS) as nat);
        let head = seq![(MAX_CHUNK_MS * 1000) as u32];
        lemma_total_concat(head, rest);
        assert(head.drop_last() =~= seq![]);
        assert(total(head.drop_last()) == 0);
        assert(head.last() == 65_535_000);
        assert forall|i: int| 0 <= i < ms_chunks(ms).len() implies 0 < #[trigger] ms_chunks(
            ms,
        )[i] <= MAX_CHUNK_MS * 1000 by {
            if i > 0 {
                assert(ms_chunks(ms)[i] == rest[i - 1]);
            }
        }
    }
}

/// A blocking delay in progress: done once `ticks` ticks have elapsed since `baseline`.
#[derive(Clone, Copy, Debug, PartialEq, Eq, Structural)]
pub struct BusyWait {
    pub baseline: u32,
    pub ticks: u32,
}

impl BusyWait {
    /// Whether the delay is over, given the counter's value now.
    pub fn is_done(&self, now: u32) -> (r: bool)
        ensures
            r == (elapsed(self.baseline, now) >= self.ticks),
    {
        elapsed_ticks(self.baseline, now) >= self.ticks
    }
}

/// Answer of a poll that has nothing to report yet.
#[derive(Clone, Copy, Debug, PartialEq, Eq, Structural)]
pub struct WouldBlock;

/// Delays and periodic countdowns on a free-running timer that counts up through
/// all 32-bit values at the timer clock.
#[derive(Clone, Copy)]
pub struct Delay {
    scale: u32,
    countdown: Option<(u32, u32)>,
}

/// One poll of a periodic countdown `(ticks, baseline)` at counter value `now`: the
/// countdown afterwards, and whether the period was over.
pub open spec fn poll(countdown: Option<(u32, u32)>, now: u32) -> (Option<(u32, u32)>, bool) {
    match countdown {
        None => (None, false),
        Some((ticks, baseline)) => if elapsed(baseline, now) < ticks {
            (countdown, false)
        } else {
            (Some((ticks, now)), true)
        },
    }
}

impl Delay {
    /// Counter ticks per microsecond.
    pub closed spec fn ticks_per_us(self) -> u32 {
        self.scale
    }

    /// The running countdown as `(period in ticks, counter value it counts from)`.
    pub closed spec fn countdown(self) -> Option<(u32, u32)> {
        self.countdown
    }

    /// A timer clock of at least 1 MHz gives a whole, non-zero number of ticks per
    /// microsecond; a 32-bit clock frequency gives at most 4294.
    pub open spec fn wf(self) -> bool {
        1 <= self.ticks_per_us() <= 4294
    }

    /// Ticks in one period of a countdown at `freq` hertz.
    pub open spec fn tick_period(self, freq: u32) -> u32
        recommends
            freq > 0,
    {
        (self.ticks_per_us() * 1_000_000 / (freq as int)) as u32
    }

    /// Takes the timer that the clocks drive; the caller enables its clock and lets it
    /// count through all 32-bit values.
    pub fn new(clocks: Clocks) -> (r: Delay)
        requires
            clocks.timsclk_hz() >= 1_000_000,
        ensures
            r.wf(),
            r.ticks_per_us() == clocks.timsclk_hz() / 1_000_000,
            r.countdown() is None,
    {
        let scale = clocks.timsclk().0 / 1_000_000;
        Delay { scale, countdown: None }
    }

    /// Counter ticks per microsecond.
    pub fn scale(&self) -> (r: u32)
        ensures
            r == self.ticks_per_us(),
    {
        self.scale
    }

    /// Begins a blocking delay of `us` microseconds, counted from the counter value
    /// `now`; the caller polls the counter until the returned wait is done.
    pub fn delay_us(&self, us: u32, now: u32) -> (r: BusyWait)
        requires
            us * self.ticks_per_us() <= u32::MAX,
        ensures
            r.baseline == now,
            r.ticks == us * self.ticks_per_us(),
    {
        BusyWait { baseline: now, ticks: us * self.scale }
    }

    /// Starts a periodic countdown at `timeout` hertz, counted from the counter value `now`.
    pub fn start(&mut self, timeout: Hertz, now: u32)
        requires
            old(self).wf(),
            timeout.0 > 0,
        ensures
            final(self).wf(),
            final(self).ticks_per_us() == old(self).ticks_per_us(),
            final(self).countdown() == Some((old(self).tick_period(timeout.0), now)),
    {
        let frequency = timeout.0;
        let ticks = self.scale * 1_000_000 / frequency;
        self.countdown = Some((ticks, now));
    }

    /// Polls the countdown at counter value `now`. `Ok` once a full period has elapsed,
    /// and the next period then counts from `now`; `WouldBlock` before that, and always
    /// when no countdown runs.
    pub fn wait(&mut self, now: u32) -> (r: Result<(), WouldBlock>)
        ensures
            final(self).ticks_per_us() == old(self).ticks_per_us(),
            (final(self).countdown(), r is Ok) == poll(old(self).countdown(), now),
    {
        match self.countdown {
            Some((ticks, start_count)) => {
                if elapsed_ticks(start_count, now) < ticks {
                    Err(WouldBlock)
                } else {
                    // Count the next period from here, so the countdown repeats.
                    self.countdown = Some((ticks, now));
                    Ok(())
                }
            },
            None => Err(WouldBlock),
        }
    }

    /// Stops the countdown: `wait` answers `WouldBlock` until the next `start`.
    pub fn cancel(&mut self)
        ensures
            final(self).ticks_per_us() == old(self).ticks_per_us(),
            final(self).countdown() is None,
    {
        self.countdown = None;
    }
}

/// After `start`, a countdown is not ready until a full period has elapsed from its
/// baseline, is ready from then on, and the ready poll re-arms it: a second poll at the
/// same counter value is not ready.
pub proof fn lemma_periodic_wait(d: Delay, freq: u32, baseline: u32, now: u32)
    requires
        d.wf(),
        0 < freq <= d.ticks_per_us() * 1_000_000,
    ensures
        ({
            let started = Some((d.tick_period(freq), baseline));
            let (after, ready) = poll(started, now);
            &&& d.tick_period(freq) > 0
            &&& ready == (elapsed(baseline, now) >= d.tick_period(freq))
            &&& !ready ==> after == started
            &&& ready ==> after == Some((d.tick_period(freq), now)) && !poll(after, now).1
        }),
{
    let s: int = d.ticks_per_us() * 1_000_000;
    let f: int = freq as int;
    assert(s / f >= 1) by (nonlinear_arith)
        requires
            0 < f <= s,
    ;
    assert(s / f <= s) by (nonlinear_arith)
        requires
            0 < f,
            0 <= s,
    ;
    assert(elapsed(now, now) == 0);
}

} // verus!
