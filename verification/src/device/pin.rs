//! A GPIO pin: its mode, the rule that only non-output pins take an
//! interrupt, and the rule that input pins are not written.

use vstd::prelude::*;

use crate::base::RTTError;

verus! {

/// The electrical modes a pin can be put in.
#[derive(Copy, Clone, PartialEq, Eq, Structural, Debug)]
pub enum PinMode {
    Output,
    Input,
    InputPullUp,
    InputPullDown,
    OutputOD,
}

impl PinMode {
    /// The kernel's code for this mode.
    pub open spec fn spec_value(self) -> u32 {
        match self {
            PinMode::Output => 0,
            PinMode::Input => 1,
            PinMode::InputPullUp => 2,
            PinMode::InputPullDown => 3,
            PinMode::OutputOD => 4,
        }
    }

    /// The kernel's code for this mode.
    pub fn value(self) -> (v: u32)
        ensures
            v == self.spec_value(),
    {
        match self {
            PinMode::Output => 0,
            PinMode::Input => 1,
            PinMode::InputPullUp => 2,
            PinMode::InputPullDown => 3,
            PinMode::OutputOD => 4,
        }
    }
}

/// The edges and levels an interrupt pin can trigger on.
#[derive(Copy, Clone, PartialEq, Eq, Structural, Debug)]
pub enum PinIrqMode {
    Rising,
    Falling,
    RisingFalling,
    HighLevel,
    LowLevel,
}

/// The two levels of a pin.
#[derive(Copy, Clone, PartialEq, Eq, Structural, Debug)]
pub enum PinState {
    Low,
    High,
}

/// A configured pin: its index and the mode it was put in.
#[derive(Copy, Clone, PartialEq, Eq, Structural, Debug)]
pub struct PIN {
    pub index: isize,
    pub mode: PinMode,
}

impl PIN {
    /// A pin at `index` in a given mode.
    pub fn open(index: isize, mode: PinMode) -> (p: PIN)
        ensures
            p.index == index,
            p.mode == mode,
    {
        PIN { index, mode }
    }

    /// The level a raw read stands for: zero is low, anything else high.
    pub fn read_state(&self, raw: i32) -> (s: PinState)
        ensures
            s == (if raw == 0 {
                PinState::Low
            } else {
                PinState::High
            }),
    {
        if raw == 0 {
            PinState::Low
        } else {
            PinState::High
        }
    }

    /// Whether this pin may be written: an input pin is refused.
    pub fn write_check(&self) -> (r: Result<(), RTTError>)
        ensures
            r == (if self.mode == PinMode::Input {
                Err::<(), RTTError>(RTTError::DeviceWriteFailed)
            } else {
                Ok::<(), RTTError>(())
            }),
    {
        if self.mode == PinMode::Input {
            return Err(RTTError::DeviceWriteFailed);
        }
        Ok(())
    }

    /// Whether this pin may take an interrupt: plain and open-drain
    /// outputs are refused.
    pub fn irq_check(&self) -> (r: Result<(), RTTError>)
        ensures
            r == (if self.mode == PinMode::Output || self.mode == PinMode::OutputOD {
                Err::<(), RTTError>(RTTError::DeviceOpenFailed)
            } else {
                Ok::<(), RTTError>(())
            }),
    {
        if self.mode == PinMode::Output || self.mode == PinMode::OutputOD {
            return Err(RTTError::DeviceOpenFailed);
        }
        Ok(())
    }
}

} // verus!
