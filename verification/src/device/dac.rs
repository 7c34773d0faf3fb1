//! A DAC device: one channel may be bound at a time, and writing asks the
//! bound channel and judges the kernel's code.

use vstd::prelude::*;

use crate::base::RTTError;
use crate::device::common::RtDevice;
use crate::device::common::device_find;

verus! {

/// A digital-to-analogue converter with at most one bound channel.
pub struct DAC {
    pub handle: RtDevice,
    pub channel: Option<u32>,
}

impl DAC {
    /// Interprets the handle the device-find call returned; no channel is
    /// bound yet.
    pub fn new_open(found: usize) -> (r: Result<DAC, RTTError>)
        ensures
            found == 0 ==> r is Err && r->Err_0 == RTTError::DeviceNotFound,
            found != 0 ==> match r {
                Ok(d) => d.handle.id() == found && d.channel is None,
                Err(_) => false,
            },
    {
        Ok(DAC { handle: device_find(found)?, channel: None })
    }

    /// Binds a channel: allowed once; a second bind is refused without
    /// touching the first.
    pub fn enable_channel(&mut self, channel: u32) -> (r: Result<(), RTTError>)
        ensures
            old(self).channel is None ==> r is Ok && final(self).channel == Some(channel)
                && final(self).handle == old(self).handle,
            old(self).channel is Some ==> r is Err && r->Err_0 == RTTError::DeviceOpenFailed
                && *final(self) == *old(self),
    {
        if self.channel.is_some() {
            return Err(RTTError::DeviceOpenFailed);
        }
        self.channel = Some(channel);
        Ok(())
    }

    /// The channel a write must ask, or the write error when none is
    /// bound.
    pub fn write_channel(&self) -> (r: Result<u32, RTTError>)
        ensures
            match self.channel {
                Some(ch) => r == Ok::<u32, RTTError>(ch),
                None => r == Err::<u32, RTTError>(RTTError::DeviceWriteFailed),
            },
    {
        match self.channel {
            Some(ch) => Ok(ch),
            None => Err(RTTError::DeviceWriteFailed),
        }
    }

    /// Interprets the code the kernel's converter-write call returned.
    pub fn write_result(&self, code: isize) -> (r: Result<(), RTTError>)
        ensures
            r == (if code == 0 {
                Ok::<(), RTTError>(())
            } else {
                Err::<(), RTTError>(RTTError::DeviceWriteFailed)
            }),
    {
        if code != 0 {
            return Err(RTTError::DeviceWriteFailed);
        }
        Ok(())
    }

    /// The raw device handle, for the embedding's calls.
    pub fn raw(&self) -> (h: usize)
        ensures
            h == self.handle.id(),
    {
        self.handle.raw()
    }
}

} // verus!
