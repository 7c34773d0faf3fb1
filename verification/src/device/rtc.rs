//! The real-time clock: a wrapped timestamp and the verdicts on what the
//! clock's set calls return.

use vstd::prelude::*;

use crate::base::RTTError;

verus! {

/// A point in time, as the seconds value the host clock handed out.
#[derive(Copy, Clone, PartialEq, Eq, Structural, Debug)]
pub struct Time {
    seconds: isize,
}

impl Time {
    /// The wrapped seconds value.
    pub closed spec fn spec_seconds(&self) -> int {
        self.seconds as int
    }

    /// Wraps the reading the host clock returned for "now".
    pub fn now(raw: isize) -> (t: Time)
        ensures
            t.spec_seconds() == raw,
    {
        Time { seconds: raw }
    }

    /// Interprets the code the clock's set-date call returned.
    pub fn set_date(code: isize) -> (r: Result<(), RTTError>)
        ensures
            r == (if code == 0 {
                Ok::<(), RTTError>(())
            } else {
                Err::<(), RTTError>(RTTError::DeviceWriteFailed)
            }),
    {
        if code != 0 {
            return Err(RTTError::DeviceWriteFailed);
        }
        Ok(())
    }

    /// Interprets the code the clock's set-time call returned.
    pub fn set_time(code: isize) -> (r: Result<(), RTTError>)
        ensures
            r == (if code == 0 {
                Ok::<(), RTTError>(())
            } else {
                Err::<(), RTTError>(RTTError::DeviceWriteFailed)
            }),
    {
        if code != 0 {
            return Err(RTTError::DeviceWriteFailed);
        }
        Ok(())
    }

    /// The raw seconds value, for the host's time-formatting call.
    pub fn now_num(&self) -> (s: isize)
        ensures
            s == self.spec_seconds(),
    {
        self.seconds
    }
}

} // verus!
