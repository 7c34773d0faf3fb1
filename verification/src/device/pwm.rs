//! A PWM device: channels configured with a period and a pulse, and the
//! verdicts on the kernel's set and enable calls.

use vstd::prelude::*;

use crate::base::RTTError;
use crate::device::common::RtDevice;
use crate::device::common::device_find;

verus! {

/// A pulse-width modulator.
pub struct PWM {
    pub handle: RtDevice,
}

/// One configured channel of a modulator.
#[derive(Copy, Clone, PartialEq, Eq, Structural)]
pub struct PWMChannel {
    pub dev: RtDevice,
    pub ch: i32,
}

impl PWM {
    /// Interprets the handle the device-find call returned.
    pub fn new_open(found: usize) -> (r: Result<PWM, RTTError>)
        ensures
            found == 0 ==> r is Err && r->Err_0 == RTTError::DeviceNotFound,
            found != 0 ==> match r {
                Ok(d) => d.handle.id() == found,
                Err(_) => false,
            },
    {
        Ok(PWM { handle: device_find(found)? })
    }

    /// Interprets the code of the kernel's set call for channel `ch`: a
    /// zero code yields the configured channel.
    pub fn channel(&self, ch: i32, code: isize) -> (r: Result<PWMChannel, RTTError>)
        ensures
            code == 0 ==> r == Ok::<PWMChannel, RTTError>(
                PWMChannel { dev: self.handle, ch },
            ),
            code != 0 ==> r is Err && r->Err_0 == RTTError::DeviceOpenFailed,
    {
        if code != 0 {
            return Err(RTTError::DeviceOpenFailed);
        }
        Ok(PWMChannel { dev: self.handle, ch })
    }

    /// The raw device handle, for the embedding's calls.
    pub fn raw(&self) -> (h: usize)
        ensures
            h == self.handle.id(),
    {
        self.handle.raw()
    }
}

impl PWMChannel {
    /// Interprets the code of the kernel's enable call.
    pub fn enable(&self, code: isize) -> (r: Result<(), RTTError>)
        ensures
            r == (if code == 0 {
                Ok::<(), RTTError>(())
            } else {
                Err::<(), RTTError>(RTTError::DeviceOpenFailed)
            }),
    {
        if code != 0 {
            return Err(RTTError::DeviceOpenFailed);
        }
        Ok(())
    }

    /// The raw device handle, for the embedding's calls.
    pub fn raw(&self) -> (h: usize)
        ensures
            h == self.dev.id(),
    {
        self.dev.raw()
    }
}

} // verus!
