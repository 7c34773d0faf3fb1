//! A hardware timer: its mode and frequency gathered by a builder, and the
//! decision side of opening and driving it.

use vstd::prelude::*;
use vstd::string::StrSliceExecFns;

use crate::base::RTTError;
use crate::device::common::RtDevice;

verus! {

/// The two ways a hardware timer runs.
#[derive(Copy, Clone, PartialEq, Eq, Structural, Debug)]
pub enum HwTimerMode {
    OneShot,
    Period,
}

impl HwTimerMode {
    /// The kernel's code for this mode.
    pub open spec fn spec_value(self) -> u32 {
        match self {
            HwTimerMode::OneShot => 1,
            HwTimerMode::Period => 2,
        }
    }

    /// The kernel's code for this mode.
    pub fn value(self) -> (v: u32)
        ensures
            v == self.spec_value(),
    {
        match self {
            HwTimerMode::OneShot => 1,
            HwTimerMode::Period => 2,
        }
    }
}

/// An opened hardware timer, remembering its mode and frequency.
pub struct HwTimer {
    pub handle: RtDevice,
    pub mode: HwTimerMode,
    pub freq: Option<u32>,
}

/// Gathers a timer's name, mode and frequency before it is opened.
pub struct HwTimerBuilder {
    pub name: String,
    pub mode: HwTimerMode,
    pub freq: Option<u32>,
}

impl HwTimer {
    /// A builder with the default parameters: one shot, the device's own
    /// frequency.
    pub fn new(name: &str) -> (b: HwTimerBuilder)
        ensures
            b.name@ == name@,
            b.mode == HwTimerMode::OneShot,
            b.freq is None,
    {
        HwTimerBuilder { name: name.to_owned(), mode: HwTimerMode::OneShot, freq: None }
    }

    /// Interprets the codes of a stop control.
    pub fn stop(&self, code: isize) -> (r: Result<(), RTTError>)
        ensures
            r == (if code == 0 {
                Ok::<(), RTTError>(())
            } else {
                Err::<(), RTTError>(RTTError::DeviceConfigFailed)
            }),
    {
        crate::device::common::device_ctrl(code)
    }

    /// The raw device handle, for the embedding's calls.
    pub fn raw(&self) -> (h: usize)
        ensures
            h == self.handle.id(),
    {
        self.handle.raw()
    }
}

impl HwTimerBuilder {
    /// Replaces the mode.
    pub fn mode(&mut self, m: HwTimerMode) -> (r: &mut HwTimerBuilder)
        ensures
            r.name == old(self).name,
            r.mode == m,
            r.freq == old(self).freq,
            *final(self) == *final(r),
    {
        self.mode = m;
        self
    }

    /// Replaces the frequency.
    pub fn freq(&mut self, f: u32) -> (r: &mut HwTimerBuilder)
        ensures
            r.name == old(self).name,
            r.mode == old(self).mode,
            r.freq == Some(f),
            *final(self) == *final(r),
    {
        self.freq = Some(f);
        self
    }

    /// The decision side of opening: the verdicts on the find call's
    /// handle, the open code, the optional frequency control — only issued
    /// when a frequency was asked for — and the mode control.
    pub fn open(&self, found: usize, open_code: isize, freq_code: isize, mode_code: isize) -> (r:
        Result<HwTimer, RTTError>)
        ensures
            found == 0 ==> r is Err && r->Err_0 == RTTError::DeviceNotFound,
            found != 0 && open_code != 0 ==> r is Err && r->Err_0 == RTTError::DeviceOpenFailed,
            found != 0 && open_code == 0 && self.freq is Some && freq_code != 0 ==> r is Err
                && r->Err_0 == RTTError::DeviceConfigFailed,
            found != 0 && open_code == 0 && (self.freq is None || freq_code == 0) && mode_code != 0
                ==> r is Err && r->Err_0 == RTTError::DeviceConfigFailed,
            found != 0 && open_code == 0 && (self.freq is None || freq_code == 0) && mode_code == 0
                ==> match r {
                Ok(t) => t.handle.id() == found && t.mode == self.mode && t.freq == self.freq,
                Err(_) => false,
            },
    {
        let dev = crate::device::common::device_find(found)?;
        crate::device::common::device_open(open_code)?;
        if self.freq.is_some() {
            crate::device::common::device_ctrl(freq_code)?;
        }
        crate::device::common::device_ctrl(mode_code)?;
        Ok(HwTimer { handle: dev, mode: self.mode, freq: self.freq })
    }
}

} // verus!
