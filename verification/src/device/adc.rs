//! An ADC device: one channel may be bound at a time, and reading asks the
//! bound channel.

use vstd::prelude::*;

use crate::base::RTTError;
use crate::device::common::RtDevice;
use crate::device::common::device_find;

verus! {

/// An analogue-to-digital converter with at most one bound channel.
pub struct ADC {
    pub handle: RtDevice,
    pub channel: Option<u32>,
}

impl ADC {
    /// Interprets the handle the device-find call returned; no channel is
    /// bound yet.
    pub fn new_open(found: usize) -> (r: Result<ADC, RTTError>)
        ensures
            found == 0 ==> r is Err && r->Err_0 == RTTError::DeviceNotFound,
            found != 0 ==> match r {
                Ok(d) => d.handle.id() == found && d.channel is None,
                Err(_) => false,
            },
    {
        Ok(ADC { handle: device_find(found)?, channel: None })
    }

    /// Binds a channel: allowed once; a second bind is refused without
    /// touching the first.
    pub fn enable_channel(&mut self, channel: u32) -> (r: Result<(), RTTError>)
        ensures
            old(self).channel is None ==> r is Ok && final(self).channel == Some(channel)
                && final(self).handle == old(self).handle,
            old(self).channel is Some ==> r is Err && r->Err_0 == RTTError::DeviceOpenFailed
                && *final(self) == *old(self),
    {
        if self.channel.is_some() {
            return Err(RTTError::DeviceOpenFailed);
        }
        self.channel = Some(channel);
        Ok(())
    }

    /// The channel a read must ask, or the read error when none is bound.
    pub fn read_channel(&self) -> (r: Result<u32, RTTError>)
        ensures
            match self.channel {
                Some(ch) => r == Ok::<u32, RTTError>(ch),
                None => r == Err::<u32, RTTError>(RTTError::DeviceReadFailed),
            },
    {
        match self.channel {
            Some(ch) => Ok(ch),
            None => Err(RTTError::DeviceReadFailed),
        }
    }

    /// The raw device handle, for the embedding's calls.
    pub fn raw(&self) -> (h: usize)
        ensures
            h == self.handle.id(),
    {
        self.handle.raw()
    }
}

} // verus!
