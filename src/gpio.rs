//! General purpose input / output.
//!
//! A pin's mode is part of its type: `Input<Floating>`, `Input<PullUp>` or
//! `Output`. Only output pins can be driven and only input pins can be read.
//! Mode changes consume the pin and update the caller's copy of the port's
//! direction register in the same step, so type and hardware cannot drift apart.
//! Pin levels are read from and written to the caller's copy of the port's data
//! register; each pin touches only its own bit.

use vstd::prelude::*;
use core::marker::PhantomData;

verus! {

/// Number of pins on port A.
pub const PIN_COUNT: u8 = 10;

/// Alternate function 0 (type state).
pub struct AF0;

/// Alternate function 1 (type state).
pub struct AF1;

/// Alternate function 2 (type state).
pub struct AF2;

/// Alternate function 3 (type state).
pub struct AF3;

/// Alternate function 4 (type state).
pub struct AF4;

/// Alternate function 5 (type state).
pub struct AF5;

/// Alternate function 6 (type state).
pub struct AF6;

/// Alternate function 7 (type state).
pub struct AF7;

/// Input mode (type state).
pub struct Input<MODE> {
    _mode: PhantomData<MODE>,
}

/// Floating input (type state).
pub struct Floating;

/// Pulled up input (type state).
pub struct PullUp;

/// Output mode (type state).
pub struct Output;

/// Whether bit `i` of a register value is set.
pub open spec fn bit_set(v: u32, i: u8) -> bool
    recommends
        i < 32,
{
    v & (1u32 << i) != 0
}

/// A register value with bit `i` set and every other bit kept.
pub open spec fn with_bit(v: u32, i: u8) -> u32
    recommends
        i < 32,
{
    v | (1u32 << i)
}

/// A register value with bit `i` cleared and every other bit kept.
pub open spec fn without_bit(v: u32, i: u8) -> u32
    recommends
        i < 32,
{
    v & !(1u32 << i)
}

fn test_bit(v: u32, i: u8) -> (r: bool)
    requires
        i < 32,
    ensures
        r == bit_set(v, i),
{
    v & (1u32 << i) != 0
}

fn set_bit(v: &mut u32, i: u8)
    requires
        i < 32,
    ensures
        *final(v) == with_bit(*old(v), i),
{
    *v = *v | (1u32 << i);
}

fn clear_bit(v: &mut u32, i: u8)
    requires
        i < 32,
    ensures
        *final(v) == without_bit(*old(v), i),
{
    *v = *v & !(1u32 << i);
}

/// Setting or clearing one bit leaves the others as they were, and the bit reads back
/// as written.
pub proof fn lemma_bit_ops(v: u32, i: u8, j: u8)
    requires
        i < 32,
        j < 32,
    ensures
        bit_set(with_bit(v, i), i),
        !bit_set(without_bit(v, i), i),
        i != j ==> bit_set(with_bit(v, i), j) == bit_set(v, j),
        i != j ==> bit_set(without_bit(v, i), j) == bit_set(v, j),
{
    assert(bit_set(with_bit(v, i), i)) by (bit_vector)
        requires
            i < 32,
    ;
    assert(!bit_set(without_bit(v, i), i)) by (bit_vector)
        requires
            i < 32,
    ;
    assert(i != j ==> bit_set(with_bit(v, i), j) == bit_set(v, j)) by (bit_vector)
        requires
            i < 32,
            j < 32,
    ;
    assert(i != j ==> bit_set(without_bit(v, i), j) == bit_set(v, j)) by (bit_vector)
        requires
            i < 32,
            j < 32,
    ;
}

/// Pin `N` of port A, in mode `MODE`.
pub struct PA<const N: u8, MODE> {
    _mode: PhantomData<MODE>,
}

impl<const N: u8, MODE> PA<N, MODE> {
    /// Configures the pin as a floating input: clears its direction bit.
    pub fn into_floating_input(self, dir: &mut u32) -> (r: PA<N, Input<Floating>>)
        requires
            N < PIN_COUNT,
        ensures
            *final(dir) == without_bit(*old(dir), N),
    {
        clear_bit(dir, N);
        PA { _mode: PhantomData }
    }

    /// Configures the pin as a push-pull output: sets its direction bit.
    pub fn into_push_pull_output(self, dir: &mut u32) -> (r: PA<N, Output>)
        requires
            N < PIN_COUNT,
        ensures
            *final(dir) == with_bit(*old(dir), N),
    {
        set_bit(dir, N);
        PA { _mode: PhantomData }
    }

    /// Erases the pin number from the type, so that pins of one mode can be kept together.
    pub fn downgrade(self) -> (r: Pin<MODE>)
        requires
            N < PIN_COUNT,
        ensures
            r.index() == N,
    {
        Pin { i: N, _mode: PhantomData }
    }
}

impl<const N: u8> PA<N, Output> {
    /// Drives the pin high.
    pub fn set_high(&mut self, dat: &mut u32)
        requires
            N < PIN_COUNT,
        ensures
            *final(dat) == with_bit(*old(dat), N),
    {
        set_bit(dat, N);
    }

    /// Drives the pin low.
    pub fn set_low(&mut self, dat: &mut u32)
        requires
            N < PIN_COUNT,
        ensures
            *final(dat) == without_bit(*old(dat), N),
    {
        clear_bit(dat, N);
    }

    /// Whether the level last written is high.
    pub fn is_set_high(&self, dat: u32) -> (r: bool)
        requires
            N < PIN_COUNT,
        ensures
            r == bit_set(dat, N),
    {
        test_bit(dat, N)
    }

    /// Whether the level last written is low.
    pub fn is_set_low(&self, dat: u32) -> (r: bool)
        requires
            N < PIN_COUNT,
        ensures
            r == !bit_set(dat, N),
    {
        !test_bit(dat, N)
    }

    /// Drives the pin to the level opposite to the one last written.
    pub fn toggle(&mut self, dat: &mut u32)
        requires
            N < PIN_COUNT,
        ensures
            *final(dat) == if bit_set(*old(dat), N) {
                without_bit(*old(dat), N)
            } else {
                with_bit(*old(dat), N)
            },
    {
        if self.is_set_low(*dat) {
            self.set_high(dat);
        } else {
            self.set_low(dat);
        }
    }
}

impl<const N: u8, MODE> PA<N, Input<MODE>> {
    /// Whether the input latch reads high: its bit is clear.
    pub fn is_high(&self, dat: u32) -> (r: bool)
        requires
            N < PIN_COUNT,
        ensures
            r == !bit_set(dat, N),
    {
        !test_bit(dat, N)
    }

    /// Whether the input latch reads low: its bit is set.
    pub fn is_low(&self, dat: u32) -> (r: bool)
        requires
            N < PIN_COUNT,
        ensures
            r == bit_set(dat, N),
    {
        test_bit(dat, N)
    }
}

/// Fully erased pin: the pin number is a value, the mode is still a type.
pub struct Pin<MODE> {
    i: u8,
    _mode: PhantomData<MODE>,
}

impl<MODE> Pin<MODE> {
    /// Number of the pin on its port.
    pub closed spec fn index(self) -> u8 {
        self.i
    }

    /// Number of the pin on its port.
    pub fn pin_number(&self) -> (r: u8)
        ensures
            r == self.index(),
    {
        self.i
    }
}

impl Pin<Output> {
    /// Drives the pin high.
    pub fn set_high(&mut self, dat: &mut u32)
        requires
            old(self).index() < PIN_COUNT,
        ensures
            *final(self) == *old(self),
            *final(dat) == with_bit(*old(dat), old(self).index()),
    {
        set_bit(dat, self.i);
    }

    /// Drives the pin low.
    pub fn set_low(&mut self, dat: &mut u32)
        requires
            old(self).index() < PIN_COUNT,
        ensures
            *final(self) == *old(self),
            *final(dat) == without_bit(*old(dat), old(self).index()),
    {
        clear_bit(dat, self.i);
    }

    /// Whether the level last written is high.
    pub fn is_set_high(&self, dat: u32) -> (r: bool)
        requires
            self.index() < PIN_COUNT,
        ensures
            r == bit_set(dat, self.index()),
    {
        test_bit(dat, self.i)
    }

    /// Whether the level last written is low.
    pub fn is_set_low(&self, dat: u32) -> (r: bool)
        requires
            self.index() < PIN_COUNT,
        ensures
            r == !bit_set(dat, self.index()),
    {
        !test_bit(dat, self.i)
    }

    /// Drives the pin to the level opposite to the one last written.
    pub fn toggle(&mut self, dat: &mut u32)
        requires
            old(self).index() < PIN_COUNT,
        ensures
            *final(self) == *old(self),
            *final(dat) == if bit_set(*old(dat), old(self).index()) {
                without_bit(*old(dat), old(self).index())
            } else {
                with_bit(*old(dat), old(self).index())
            },
    {
        if self.is_set_low(*dat) {
            self.set_high(dat);
        } else {
            self.set_low(dat);
        }
    }
}

impl<MODE> Pin<Input<MODE>> {
    /// Whether the input latch reads high: its bit is clear.
    pub fn is_high(&self, dat: u32) -> (r: bool)
        requires
            self.index() < PIN_COUNT,
        ensures
            r == !bit_set(dat, self.index()),
    {
        !test_bit(dat, self.i)
    }

    /// Whether the input latch reads low: its bit is set.
    pub fn is_low(&self, dat: u32) -> (r: bool)
        requires
            self.index() < PIN_COUNT,
        ensures
            r == bit_set(dat, self.index()),
    {
        test_bit(dat, self.i)
    }
}

/// Pin 0 of port A.
#[allow(non_camel_case_types)]
pub type PA_0<MODE> = PA<0, MODE>;

/// Pin 1 of port A.
#[allow(non_camel_case_types)]
pub type PA_1<MODE> = PA<1, MODE>;

/// Pin 2 of port A.
#[allow(non_camel_case_types)]
pub type PA_2<MODE> = PA<2, MODE>;

/// Pin 3 of port A.
#[allow(non_camel_case_types)]
pub type PA_3<MODE> = PA<3, MODE>;

/// Pin 4 of port A.
#[allow(non_camel_case_types)]
pub type PA_4<MODE> = PA<4, MODE>;

/// Pin 5 of port A.
#[allow(non_camel_case_types)]
pub type PA_5<MODE> = PA<5, MODE>;

/// Pin 6 of port A.
#[allow(non_camel_case_types)]
pub type PA_6<MODE> = PA<6, MODE>;

/// Pin 7 of port A.
#[allow(non_camel_case_types)]
pub type PA_7<MODE> = PA<7, MODE>;

/// Pin 8 of port A.
#[allow(non_camel_case_types)]
pub type PA_8<MODE> = PA<8, MODE>;

/// Pin 9 of port A.
#[allow(non_camel_case_types)]
pub type PA_9<MODE> = PA<9, MODE>;

/// The pins of port A, each a floating input after reset.
pub struct Parts {
    pub pa_0: PA_0<Input<Floating>>,
    pub pa_1: PA_1<Input<Floating>>,
    pub pa_2: PA_2<Input<Floating>>,
    pub pa_3: PA_3<Input<Floating>>,
    pub pa_4: PA_4<Input<Floating>>,
    pub pa_5: PA_5<Input<Floating>>,
    pub pa_6: PA_6<Input<Floating>>,
    pub pa_7: PA_7<Input<Floating>>,
    pub pa_8: PA_8<Input<Floating>>,
    pub pa_9: PA_9<Input<Floating>>,
}

/// Extension trait to split a GPIO peripheral in independent pins.
pub trait GpioExt {
    /// The parts to split the GPIO into.
    type Parts;

    /// Splits the GPIO block into independent pins.
    fn split(self) -> Self::Parts;
}

/// The owner of the port A peripheral gives it up for its pins; the port's clock is on
/// after reset.
impl<GPIO> GpioExt for GPIO {
    type Parts = Parts;

    fn split(self) -> Parts {
        Parts {
            pa_0: PA { _mode: PhantomData },
            pa_1: PA { _mode: PhantomData },
            pa_2: PA { _mode: PhantomData },
            pa_3: PA { _mode: PhantomData },
            pa_4: PA { _mode: PhantomData },
            pa_5: PA { _mode: PhantomData },
            pa_6: PA { _mode: PhantomData },
            pa_7: PA { _mode: PhantomData },
            pa_8: PA { _mode: PhantomData },
            pa_9: PA { _mode: PhantomData },
        }
    }
}

} // verus!
