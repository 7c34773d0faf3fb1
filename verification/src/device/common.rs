//! What every device shares: the device handle, the verdicts on the codes
//! the kernel's find, open, close and control calls return, and the traits
//! the concrete devices implement.

use vstd::prelude::*;

use crate::base::RTTError;

verus! {

/// A handle to a kernel device, as the kernel's find call returned it.
#[derive(Copy, Clone, PartialEq, Eq, Structural)]
pub struct RtDevice {
    handle: usize,
}

impl RtDevice {
    /// The handle's value.
    pub closed spec fn id(&self) -> int {
        self.handle as int
    }

    /// The raw handle, for the embedding that makes the kernel calls.
    pub fn raw(&self) -> (h: usize)
        ensures
            h == self.id(),
    {
        self.handle
    }
}

/// Interprets the handle the kernel's device-find call returned: null
/// means no device of that name exists.
pub fn device_find(handle: usize) -> (r: Result<RtDevice, RTTError>)
    ensures
        handle == 0 ==> r is Err && r->Err_0 == RTTError::DeviceNotFound,
        handle != 0 ==> match r {
            Ok(d) => d.id() == handle,
            Err(_) => false,
        },
{
    if handle == 0 {
        return Err(RTTError::DeviceNotFound);
    }
    Ok(RtDevice { handle })
}

/// Interprets the code of a device open.
pub fn device_open(code: isize) -> (r: Result<(), RTTError>)
    ensures
        r == (if code == 0 {
            Ok::<(), RTTError>(())
        } else {
            Err::<(), RTTError>(RTTError::DeviceOpenFailed)
        }),
{
    if code != 0 {
        return Err(RTTError::DeviceOpenFailed);
    }
    Ok(())
}

/// Interprets the code of a device close.
pub fn device_close(code: isize) -> (r: Result<(), RTTError>)
    ensures
        r == (if code == 0 {
            Ok::<(), RTTError>(())
        } else {
            Err::<(), RTTError>(RTTError::DeviceCloseFailed)
        }),
{
    if code != 0 {
        return Err(RTTError::DeviceCloseFailed);
    }
    Ok(())
}

/// Interprets the code of a device-control request; every control failure
/// is reported as a configuration error.
pub fn device_ctrl(code: isize) -> (r: Result<(), RTTError>)
    ensures
        r == (if code == 0 {
            Ok::<(), RTTError>(())
        } else {
            Err::<(), RTTError>(RTTError::DeviceConfigFailed)
        }),
{
    if code != 0 {
        return Err(RTTError::DeviceConfigFailed);
    }
    Ok(())
}

/// A device that is opened from a builder of its parameters.
pub trait Open<Builder>: Sized {
    fn open(builder: &Builder) -> Result<Self, RTTError>;
}

/// A device that hands out what it read as a value of `Out`.
pub trait Read<Out> {
    fn read(&self, size: usize) -> Out;
}

} // verus!
