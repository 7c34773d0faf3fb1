//! Device support over the host kernel's device interface.

pub mod adc;
pub mod can;
pub mod common;
pub mod dac;
pub mod hwtimer;
pub mod i2c;
pub mod pin;
pub mod pwm;
pub mod rtc;
pub mod spi;
pub mod uart;
pub mod watchdog;
