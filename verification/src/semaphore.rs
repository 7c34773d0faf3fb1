//! Counting semaphore backed by the host kernel's semaphore object.

use vstd::prelude::*;

use crate::base::RTTError;

verus! {

/// The kernel semaphore: its handle, as the kernel returned it.
pub struct Semaphore {
    handle: usize,
}

impl Semaphore {
    /// The handle this semaphore was created with.
    pub closed spec fn id(&self) -> int {
        self.handle as int
    }

    /// Interprets the handle a semaphore-creation call returned: a null
    /// handle means the kernel was out of memory.
    pub fn new(handle: usize) -> (r: Result<Semaphore, RTTError>)
        ensures
            handle == 0 ==> r is Err && r->Err_0 == RTTError::OutOfMemory,
            handle != 0 ==> match r {
                Ok(s) => s.id() == handle,
                Err(_) => false,
            },
    {
        if handle == 0 {
            return Err(RTTError::OutOfMemory);
        }
        Ok(Semaphore { handle })
    }

    /// Interprets the code of a non-blocking take: anything but zero means
    /// the semaphore could not be taken.
    pub fn try_take(&self, code: isize) -> (r: Result<(), RTTError>)
        ensures
            r == (if code == 0 {
                Ok::<(), RTTError>(())
            } else {
                Err::<(), RTTError>(RTTError::SemaphoreTakeTimeout)
            }),
    {
        if code != 0 {
            return Err(RTTError::SemaphoreTakeTimeout);
        }
        Ok(())
    }

    /// Interprets the code of a bounded take.
    pub fn take(&self, code: isize) -> (r: Result<(), RTTError>)
        ensures
            r == (if code == 0 {
                Ok::<(), RTTError>(())
            } else {
                Err::<(), RTTError>(RTTError::SemaphoreTakeTimeout)
            }),
    {
        self.try_take(code)
    }

    /// Interprets the code of an unbounded take: the kernel was handed the
    /// wait-forever tick instead of a bound.
    pub fn take_wait_forever(&self, code: isize) -> (r: Result<(), RTTError>)
        ensures
            r == (if code == 0 {
                Ok::<(), RTTError>(())
            } else {
                Err::<(), RTTError>(RTTError::SemaphoreTakeTimeout)
            }),
    {
        self.try_take(code)
    }

    /// The raw handle, for the embedding that makes the kernel calls.
    pub fn raw(&self) -> (h: usize)
        ensures
            h == self.id(),
    {
        self.handle
    }
}

} // verus!
