//! Countdown timer that signals the end of each period through the timer's
//! overflow flag.
//!
//! The timer's registers are written by the caller, in the order that the
//! functions here hand out; the flag is read by the caller and passed in.

use vstd::prelude::*;
use crate::delay::WouldBlock;
use crate::syscon::{Clocks, Syscon};
use crate::time::Hertz;

verus! {

/// One write to a register of a timer.
#[derive(Clone, Copy, Debug, PartialEq, Eq, Structural)]
pub enum TimerWrite {
    /// Write the enable bit of the control register.
    Enable(bool),
    /// Write the enable bit of the interrupt control register.
    InterruptEnable(bool),
    /// Write the overflow flag register.
    OverflowFlag(u32),
    /// Write the target value the counter runs up to.
    Target(u32),
    /// Write the live counter value.
    Counter(u32),
}

/// Ticks of the target register for a period of `freq` hertz: the counter overflows
/// twice per target, so the target is half the period.
pub open spec fn target_ticks(timsclk: u32, freq: u32) -> u32
    recommends
        freq > 0,
{
    (timsclk as int / (freq as int) / 2) as u32
}

/// The writes that restart a timer on `ticks`: stop it, clear a stale overflow, set the
/// target, reset the counter, and only then start it again.
pub open spec fn restart_writes(ticks: u32) -> Seq<TimerWrite> {
    seq![
        TimerWrite::Enable(false),
        TimerWrite::OverflowFlag(0),
        TimerWrite::Target(ticks),
        TimerWrite::Counter(0),
        TimerWrite::Enable(true),
    ]
}

/// Hardware timer used as a periodic countdown.
pub struct Timer<TIMER> {
    clocks: Clocks,
    timer: TIMER,
}

impl<TIMER> Timer<TIMER> {
    /// The clocks that drive the timer.
    pub closed spec fn clocks_spec(self) -> Clocks {
        self.clocks
    }

    /// The timer peripheral held.
    pub closed spec fn peripheral(self) -> TIMER {
        self.timer
    }

    /// Takes a timer whose clock the caller has enabled. Returns it with the register
    /// writes that turn on its interrupt and start a countdown of `timeout` hertz.
    pub fn timer<SYS>(timer: TIMER, timeout: Hertz, syscon: &Syscon<SYS>) -> (r: (
        Timer<TIMER>,
        Vec<TimerWrite>,
    ))
        requires
            timeout.0 > 0,
        ensures
            r.0.clocks_spec() == syscon.clocks,
            r.0.peripheral() == timer,
            r.1@ == seq![TimerWrite::InterruptEnable(true)] + restart_writes(
                target_ticks(syscon.clocks.timsclk_hz(), timeout.0),
            ),
    {
        let mut writes: Vec<TimerWrite> = Vec::new();
        writes.push(TimerWrite::InterruptEnable(true));
        let t = Timer { timer, clocks: syscon.clocks };
        let mut start = t.start(timeout);
        writes.append(&mut start);
        (t, writes)
    }

    /// The register writes that restart the countdown with a period of `timeout` hertz.
    pub fn start(&self, timeout: Hertz) -> (r: Vec<TimerWrite>)
        requires
            timeout.0 > 0,
        ensures
            r@ == restart_writes(target_ticks(self.clocks_spec().timsclk_hz(), timeout.0)),
    {
        let frequency = timeout.0;
        let ticks = self.clocks.timsclk().0 / frequency / 2;
        let mut writes: Vec<TimerWrite> = Vec::new();
        writes.push(TimerWrite::Enable(false));
        writes.push(TimerWrite::OverflowFlag(0));
        writes.push(TimerWrite::Target(ticks));
        writes.push(TimerWrite::Counter(0));
        writes.push(TimerWrite::Enable(true));
        assert(writes@ =~= restart_writes(ticks));
        writes
    }

    /// Polls with the value of the overflow flag register: `Ok` once the counter has
    /// overflowed. The caller then reads the counter register, which clears the flag.
    pub fn wait(&self, overflow_flag: u32) -> (r: Result<(), WouldBlock>)
        ensures
            r is Ok <==> overflow_flag != 0,
    {
        if overflow_flag == 0 {
            Err(WouldBlock)
        } else {
            Ok(())
        }
    }

    /// The timer peripheral, for its register writes.
    pub fn registers(&self) -> (r: &TIMER)
        ensures
            *r == self.peripheral(),
    {
        &self.timer
    }

    /// Releases the timer.
    pub fn release(self) -> (r: TIMER)
        ensures
            r == self.peripheral(),
    {
        self.timer
    }
}

} // verus!
