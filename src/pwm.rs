//! Pulse width modulation on a timer in dual-edge mode.
//!
//! In that mode the timer's target register holds both halves of a period: the
//! lower 16 bits are the high time, the upper 16 bits the low time. The caller
//! writes the register value that `target` gives after each change.

use vstd::prelude::*;
use crate::syscon::Syscon;
use crate::time::Hertz;

verus! {

/// Ticks in one PWM period of `freq` hertz.
pub open spec fn period_ticks(timsclk: u32, freq: u32) -> int
    recommends
        freq > 0,
{
    timsclk as int / (freq as int)
}

/// Target register value for a high time of `duty` ticks in a period of `max` ticks:
/// the high time below, the rest of the period as low time above.
pub open spec fn duty_word(duty: u16, max: u16) -> u32
    recommends
        duty <= max,
{
    (duty as int + (max - duty) * 0x10000) as u32
}

/// A PWM output: a timer in dual-edge mode driving a pin that is routed to it.
pub struct Pwm<TIMER, PIN> {
    timer: TIMER,
    pin: PIN,
    ticks: u16,
    tarval: u32,
}

impl<TIMER, PIN> Pwm<TIMER, PIN> {
    /// Ticks in one period: the largest duty.
    pub closed spec fn max_duty(self) -> u16 {
        self.ticks
    }

    /// The value of the target register.
    pub closed spec fn target_word(self) -> u32 {
        self.tarval
    }

    /// The timer and the pin held.
    pub closed spec fn parts(self) -> (TIMER, PIN) {
        (self.timer, self.pin)
    }

    /// Takes a timer whose clock the caller has enabled and an output pin that the
    /// caller routes to it, for a period of `period` hertz that must fit in 16 bits of
    /// ticks. The duty starts at zero.
    pub fn new<SYS>(timer: TIMER, pin: PIN, period: Hertz, syscon: &Syscon<SYS>) -> (r: Self)
        requires
            period.0 > 0,
            period_ticks(syscon.clocks.timsclk_hz(), period.0) < 0x10000,
        ensures
            r.max_duty() == period_ticks(syscon.clocks.timsclk_hz(), period.0),
            r.target_word() == duty_word(0, r.max_duty()),
            r.parts() == (timer, pin),
    {
        let frequency = period.0;
        let ticks = syscon.clocks.timsclk().0 / frequency;
        let mut pwm_pin = Pwm { timer, pin, ticks: ticks as u16, tarval: 0 };
        pwm_pin.set_duty(0);
        pwm_pin
    }

    /// Gives back the timer and the pin; the caller routes the pin back to GPIO.
    pub fn release(self) -> (r: (TIMER, PIN))
        ensures
            r == self.parts(),
    {
        (self.timer, self.pin)
    }

    /// The timer peripheral, for its register writes.
    pub fn registers(&self) -> (r: &TIMER)
        ensures
            *r == self.parts().0,
    {
        &self.timer
    }

    /// The value to write to the timer's target register.
    pub fn target(&self) -> (r: u32)
        ensures
            r == self.target_word(),
    {
        self.tarval
    }

    /// The high time, in ticks: the lower half of the target register.
    pub fn get_duty(&self) -> (r: u16)
        ensures
            r == self.target_word() % 0x10000,
    {
        let word: u32 = self.tarval;
        assert(word & 0xFFFF == word % 0x10000) by (bit_vector);
        (word & 0xFFFF) as u16
    }

    /// The period, in ticks.
    pub fn get_max_duty(&self) -> (r: u16)
        ensures
            r == self.max_duty(),
    {
        self.ticks
    }

    /// Sets the high time to `duty` ticks, and the low time to the rest of the period.
    /// A duty above the period is taken as the whole period.
    pub fn set_duty(&mut self, duty: u16)
        ensures
            final(self).max_duty() == old(self).max_duty(),
            final(self).parts() == old(self).parts(),
            final(self).target_word() == duty_word(
                if duty <= old(self).max_duty() {
                    duty
                } else {
                    old(self).max_duty()
                },
                old(self).max_duty(),
            ),
    {
        let max = self.get_max_duty();
        let high: u16 = if duty <= max { duty } else { max };
        let low: u16 = max - high;
        let word: u32 = high as u32 | ((low as u32) << 16);
        assert(word == high as u32 + low as u32 * 0x10000) by (bit_vector)
            requires
                word == high as u32 | ((low as u32) << 16),
        ;
        self.tarval = word;
    }
}

/// A duty of at most the period is read back as it was set, and the period is kept.
pub proof fn lemma_duty_round_trip(duty: u16, max: u16)
    requires
        duty <= max,
    ensures
        duty_word(duty, max) % 0x10000 == duty,
{
    let w = duty as int + (max - duty) * 0x10000;
    assert(0 <= w < 0x1_0000_0000) by (nonlinear_arith)
        requires
            w == duty as int + (max - duty) * 0x10000,
            0 <= duty <= max < 0x10000,
    ;
    assert(w % 0x10000 == duty) by (nonlinear_arith)
        requires
            w == duty as int + (max - duty) * 0x10000,
            0 <= duty < 0x10000,
            max - duty >= 0,
    ;
}

} // verus!
