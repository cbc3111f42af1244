//! Watchdog timer: derives the timeout exponent from the system clock.

use vstd::prelude::*;
use crate::syscon::{Clocks, Syscon};
use crate::time::Hertz;

verus! {

/// Width limit of the timeout exponent field: exponents must stay below this.
pub const EXPONENT_LIMIT: u32 = 16;

/// The smallest power of two that is at least `x` (1 for 0).
pub open spec fn next_pow2(x: nat) -> nat
    decreases x,
{
    if x <= 1 {
        1
    } else {
        2 * next_pow2(((x + 1) / 2) as nat)
    }
}

/// Number of binary digits of `n` (0 for 0).
pub open spec fn bit_len(n: nat) -> nat
    decreases n,
{
    if n == 0 {
        0
    } else {
        1 + bit_len(n / 2)
    }
}

/// Timeout exponent for a period of `period_hz` hertz on a system clock of `sclk` hertz:
/// the system clock ticks per period, in units of 2^16, rounded up to a power of two,
/// and counted in binary digits.
pub open spec fn exponent_for(sclk: u32, period_hz: u32) -> nat
    recommends
        period_hz > 0,
{
    bit_len(next_pow2((sclk as nat / period_hz as nat) / 0x10000))
}

/// Relies on `u32::next_power_of_two`: the smallest power of two greater than or
/// equal to its argument; the argument is kept where that power fits in 32 bits.
#[verifier::external_body]
fn next_power_of_two(x: u32) -> (r: u32)
    requires
        x <= 0x8000_0000,
    ensures
        r as nat == next_pow2(x as nat),
{
    x.next_power_of_two()
}

proof fn lemma_bit_len_bound(n: nat, k: nat)
    requires
        n < vstd::arithmetic::power2::pow2(k),
    ensures
        bit_len(n) <= k,
    decreases k,
{
    if n > 0 {
        if k == 0 {
            vstd::arithmetic::power2::lemma2_to64();
        } else {
            vstd::arithmetic::power2::lemma_pow2_unfold(k);
            lemma_bit_len_bound(n / 2, (k - 1) as nat);
        }
    }
}

/// Timeout exponent for a period of `period` on a system clock of `sclk` hertz.
pub fn timeout_exponent(sclk: u32, period: Hertz) -> (r: u32)
    requires
        period.0 > 0,
    ensures
        r as nat == exponent_for(sclk, period.0),
{
    let ticks = sclk / period.0;
    assert(ticks >> 16 == ticks / 0x10000) by (bit_vector);
    let mut timerticks = next_power_of_two(ticks >> 16);
    proof {
        vstd::arithmetic::power2::lemma2_to64();
        lemma_bit_len_bound(timerticks as nat, 32);
    }
    let mut timer1: u32 = 0;
    while timerticks != 0
        invariant
            period.0 > 0,
            timer1 + bit_len(timerticks as nat) == exponent_for(sclk, period.0),
            exponent_for(sclk, period.0) <= 32,
        decreases timerticks,
    {
        assert(timerticks >> 1 == timerticks / 2) by (bit_vector);
        timer1 += 1;
        timerticks >>= 1;
    }
    timer1
}

/// Watchdog instance.
pub struct Watchdog<WDT> {
    clocks: Clocks,
    wdt: WDT,
}

impl<WDT> Watchdog<WDT> {
    /// The clocks that the watchdog counts with.
    pub closed spec fn clocks_spec(self) -> Clocks {
        self.clocks
    }

    /// The watchdog peripheral held.
    pub closed spec fn peripheral(self) -> WDT {
        self.wdt
    }

    /// Takes the watchdog peripheral, whose clock the caller has enabled.
    pub fn new<SYS>(wdt: WDT, syscon: &Syscon<SYS>) -> (r: Self)
        ensures
            r.clocks_spec() == syscon.clocks,
            r.peripheral() == wdt,
    {
        Watchdog { wdt, clocks: syscon.clocks }
    }

    /// The watchdog peripheral, for its register writes.
    pub fn registers(&self) -> (r: &WDT)
        ensures
            *r == self.peripheral(),
    {
        &self.wdt
    }

    /// Whether a period of `period` hertz can be set: its exponent fits the hardware field.
    pub open spec fn accepts(self, period: Hertz) -> bool {
        period.0 > 0 && exponent_for(self.clocks_spec().sclk_hz(), period.0) < EXPONENT_LIMIT
    }

    /// The timeout exponent to write before enabling the watchdog, so that at least one
    /// `period` goes by between feeds before a reset. A period whose exponent does not
    /// fit the 4-bit field is a configuration error and is not accepted.
    pub fn start(&mut self, period: Hertz) -> (r: u8)
        requires
            old(self).accepts(period),
        ensures
            *final(self) == *old(self),
            r as nat == exponent_for(old(self).clocks_spec().sclk_hz(), period.0),
            r < EXPONENT_LIMIT,
    {
        let timer1 = timeout_exponent(self.clocks.sclk().0, period);
        timer1 as u8
    }
}

/// A period whose exponent reaches the width of the hardware field is refused by
/// `start`: it is neither wrapped nor clamped into the field.
pub proof fn lemma_wide_exponent_refused<WDT>(w: Watchdog<WDT>, period: Hertz)
    requires
        period.0 > 0,
        exponent_for(w.clocks_spec().sclk_hz(), period.0) >= EXPONENT_LIMIT,
    ensures
        !w.accepts(period),
{
}

} // verus!
