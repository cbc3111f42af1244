//! Hardware abstraction layer for the SWM050 microcontroller: the timing core
//! (tick arithmetic for delays, periodic timers, PWM and the watchdog) and the
//! GPIO pin-mode state machine, with register contents handled as plain values.

pub mod time;
pub mod syscon;
pub mod delay;
pub mod timers;
pub mod pwm;
pub mod watchdog;
pub mod gpio;
