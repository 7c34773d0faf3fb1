//! The watchdog device: a builder for its name and timeout, the control
//! commands that drive it, and the verdicts on what those controls return.

use vstd::prelude::*;
use vstd::string::StrSliceExecFns;

use crate::base::RTTError;
use crate::device::common::RtDevice;
use crate::device::common::device_ctrl;

verus! {

/// Control command: set the watchdog's timeout.
pub const WDT_CMD_SET_TIMEOUT: i32 = 2;

/// Control command: feed the watchdog.
pub const WDT_CMD_KEEPALIVE: i32 = 3;

/// Control command: start the watchdog.
pub const WDT_CMD_START: i32 = 5;

/// Control command: stop the watchdog.
pub const WDT_CMD_STOP: i32 = 6;

/// An opened watchdog device.
pub struct WatchDog {
    pub handle: RtDevice,
}

/// A handle for feeding the watchdog from another thread.
#[derive(Copy, Clone)]
pub struct WatchDogGuard {
    pub dev: RtDevice,
}

/// Gathers a watchdog's name and timeout before it is opened.
pub struct WatchDogBuilder {
    pub name: String,
    pub timeout: u32,
}

impl WatchDog {
    /// A builder with the default parameters: device `wdt`, one second.
    pub fn new() -> (b: WatchDogBuilder)
        ensures
            b.name@ == "wdt"@,
            b.timeout == 1000,
    {
        WatchDogBuilder { name: "wdt".to_owned(), timeout: 1000 }
    }

    /// Wraps a found and initialised watchdog device.
    pub fn from_device(dev: RtDevice) -> (w: WatchDog)
        ensures
            w.handle == dev,
    {
        WatchDog { handle: dev }
    }

    /// Interprets the code of the start control (`WDT_CMD_START`).
    pub fn start(&self, code: isize) -> (r: Result<&WatchDog, RTTError>)
        ensures
            code == 0 ==> match r {
                Ok(w) => *w == *self,
                Err(_) => false,
            },
            code != 0 ==> r is Err && r->Err_0 == RTTError::DeviceConfigFailed,
    {
        device_ctrl(code)?;
        Ok(self)
    }

    /// Interprets the code of the stop control (`WDT_CMD_STOP`).
    pub fn stop(&self, code: isize) -> (r: Result<&WatchDog, RTTError>)
        ensures
            code == 0 ==> match r {
                Ok(w) => *w == *self,
                Err(_) => false,
            },
            code != 0 ==> r is Err && r->Err_0 == RTTError::DeviceConfigFailed,
    {
        device_ctrl(code)?;
        Ok(self)
    }

    /// A guard for feeding this watchdog; guards may cross threads.
    pub fn dog(&self) -> (g: WatchDogGuard)
        ensures
            g.dev == self.handle,
    {
        WatchDogGuard { dev: self.handle }
    }

    /// The raw device handle, for the embedding's control calls.
    pub fn raw(&self) -> (h: usize)
        ensures
            h == self.handle.id(),
    {
        self.handle.raw()
    }
}

impl WatchDogGuard {
    /// Interprets the code of the keepalive control (`WDT_CMD_KEEPALIVE`).
    pub fn active(&self, code: isize) -> (r: Result<(), RTTError>)
        ensures
            r == (if code == 0 {
                Ok::<(), RTTError>(())
            } else {
                Err::<(), RTTError>(RTTError::DeviceConfigFailed)
            }),
    {
        device_ctrl(code)
    }

    /// The raw device handle, for the embedding's control calls.
    pub fn raw(&self) -> (h: usize)
        ensures
            h == self.dev.id(),
    {
        self.dev.raw()
    }
}

impl WatchDogBuilder {
    /// Replaces the device name.
    pub fn name(&mut self, s: &str) -> (r: &mut WatchDogBuilder)
        ensures
            r.name@ == s@,
            r.timeout == old(self).timeout,
            *final(self) == *final(r),
    {
        self.name = s.to_owned();
        self
    }

    /// Replaces the timeout handed to `WDT_CMD_SET_TIMEOUT`.
    pub fn timeout(&mut self, t: u32) -> (r: &mut WatchDogBuilder)
        ensures
            r.name == old(self).name,
            r.timeout == t,
            *final(self) == *final(r),
    {
        self.timeout = t;
        self
    }

    /// The decision side of opening: the verdicts on the find call's
    /// handle, on the device-initialisation code, and on the code of the
    /// timeout control.
    pub fn open(&self, found: usize, init_code: isize, timeout_code: isize) -> (r: Result<
        WatchDog,
        RTTError,
    >)
        ensures
            found == 0 ==> r is Err && r->Err_0 == RTTError::DeviceNotFound,
            found != 0 && init_code != 0 ==> r is Err && r->Err_0 == RTTError::DeviceOpenFailed,
            found != 0 && init_code == 0 && timeout_code != 0 ==> r is Err && r->Err_0
                == RTTError::DeviceConfigFailed,
            found != 0 && init_code == 0 && timeout_code == 0 ==> match r {
                Ok(w) => w.handle.id() == found,
                Err(_) => false,
            },
    {
        let dev = crate::device::common::device_find(found)?;
        if init_code != 0 {
            return Err(RTTError::DeviceOpenFailed);
        }
        device_ctrl(timeout_code)?;
        Ok(WatchDog { handle: dev })
    }
}

} // verus!
