//! System controller: clock configuration.

use vstd::prelude::*;
use crate::time::Hertz;

verus! {

/// Frequency of the system clock and of the timer clock after reset.
pub const DEFAULT_CLOCK_HZ: u32 = 18_000_000;

/// Extension trait that turns the SYSCON peripheral into a clock configuration builder.
pub trait SysconExt: Sized {
    /// Starts configuring the clocks; nothing is requested yet.
    fn configure(self) -> (r: CFGR<Self>)
        ensures
            r.requested_timsclk() is None,
            r.requested_sclk() is None,
    ;
}

impl<SYS> SysconExt for SYS {
    fn configure(self) -> (r: CFGR<Self>) {
        CFGR { timsclk: None, sclk: None, syscon: self }
    }
}

/// Clock configuration builder, which owns the SYSCON peripheral until it is frozen.
pub struct CFGR<SYS> {
    timsclk: Option<u32>,
    sclk: Option<u32>,
    syscon: SYS,
}

impl<SYS> CFGR<SYS> {
    /// The timer clock frequency that was asked for, if any.
    pub closed spec fn requested_timsclk(self) -> Option<u32> {
        self.timsclk
    }

    /// The system clock frequency that was asked for, if any.
    pub closed spec fn requested_sclk(self) -> Option<u32> {
        self.sclk
    }

    /// Whether `freeze` can honour this configuration: only the reset defaults are supported.
    pub open spec fn is_supported(self) -> bool {
        self.requested_timsclk() is None && self.requested_sclk() is None
    }

    /// Whether `freeze` can honour this configuration.
    pub fn supported(&self) -> (r: bool)
        ensures
            r == self.is_supported(),
    {
        self.timsclk.is_none() && self.sclk.is_none()
    }

    /// Asks for a timer clock frequency.
    pub fn timsclk(self, freq: Hertz) -> (r: Self)
        ensures
            r.requested_timsclk() == Some(freq.0),
            r.requested_sclk() == self.requested_sclk(),
    {
        CFGR { timsclk: Some(freq.0), ..self }
    }

    /// Asks for a system clock frequency.
    pub fn sclk(self, freq: Hertz) -> (r: Self)
        ensures
            r.requested_sclk() == Some(freq.0),
            r.requested_timsclk() == self.requested_timsclk(),
    {
        CFGR { sclk: Some(freq.0), ..self }
    }

    /// Freezes the clock configuration. Only the reset defaults can be frozen:
    /// choosing another clock source is not supported.
    pub fn freeze(self) -> (r: Syscon<SYS>)
        requires
            self.is_supported(),
        ensures
            r.clocks.sclk_hz() == DEFAULT_CLOCK_HZ,
            r.clocks.timsclk_hz() == DEFAULT_CLOCK_HZ,
    {
        Syscon { clocks: Clocks { timsclk: Hertz(DEFAULT_CLOCK_HZ), sclk: Hertz(DEFAULT_CLOCK_HZ) }, regs: self.syscon }
    }
}

/// Constrained SYSCON peripheral, with its frozen clocks.
pub struct Syscon<SYS> {
    pub clocks: Clocks,
    /// The SYSCON register block, through which peripheral clocks are enabled.
    pub regs: SYS,
}

/// Frozen clock frequencies.
///
/// The existence of this value indicates that the clock configuration can no longer be changed.
#[derive(Clone, Copy)]
pub struct Clocks {
    timsclk: Hertz,
    sclk: Hertz,
}

impl Clocks {
    /// System clock frequency in hertz.
    pub closed spec fn sclk_hz(self) -> u32 {
        self.sclk.0
    }

    /// Timer clock frequency in hertz.
    pub closed spec fn timsclk_hz(self) -> u32 {
        self.timsclk.0
    }

    /// Builds a clock record from known frequencies, in hertz.
    pub fn new(timsclk: Hertz, sclk: Hertz) -> (r: Clocks)
        ensures
            r.timsclk_hz() == timsclk.0,
            r.sclk_hz() == sclk.0,
    {
        Clocks { timsclk, sclk }
    }

    /// Returns the frequency of the system clock.
    pub fn sclk(&self) -> (r: Hertz)
        ensures
            r.0 == self.sclk_hz(),
    {
        self.sclk
    }

    /// Returns the frequency of the timer clock.
    pub fn timsclk(&self) -> (r: Hertz)
        ensures
            r.0 == self.timsclk_hz(),
    {
        self.timsclk
    }
}

} // verus!
