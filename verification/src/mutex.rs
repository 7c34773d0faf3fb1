//! Mutual exclusion backed by the host kernel's mutex object.
//!
//! The kernel creates, takes and releases the mutex; this module holds the
//! decision side of those calls: whether a creation handle is usable and
//! what a take's return code means.

use vstd::prelude::*;

use crate::base::RTTError;

verus! {

/// The bare kernel mutex: its handle, as the kernel returned it.
pub struct MutexRaw {
    handle: usize,
}

impl MutexRaw {
    /// The handle this mutex was created with.
    pub closed spec fn id(&self) -> int {
        self.handle as int
    }

    /// Interprets the handle a mutex-creation call returned: a null handle
    /// means the kernel was out of memory.
    pub fn create(handle: usize) -> (r: Result<MutexRaw, RTTError>)
        ensures
            handle == 0 ==> r == Err::<MutexRaw, RTTError>(RTTError::OutOfMemory),
            handle != 0 ==> match r {
                Ok(m) => m.id() == handle,
                Err(_) => false,
            },
    {
        if handle == 0 {
            return Err(RTTError::OutOfMemory);
        }
        Ok(MutexRaw { handle })
    }

    /// Interprets a take's return code: anything but zero is a timeout.
    pub fn take(&self, code: isize) -> (r: Result<(), RTTError>)
        ensures
            r == (if code == 0 {
                Ok::<(), RTTError>(())
            } else {
                Err::<(), RTTError>(RTTError::MutexTakeTimeout)
            }),
    {
        if code != 0 {
            return Err(RTTError::MutexTakeTimeout);
        }
        Ok(())
    }

    /// The raw handle, for the embedding that makes the kernel calls.
    pub fn raw(&self) -> (h: usize)
        ensures
            h == self.id(),
    {
        self.handle
    }
}

/// A value guarded by a kernel mutex.
pub struct Mutex<T> {
    mutex: MutexRaw,
    data: T,
}

/// Witness of a successful take on a mutex; the embedding releases the
/// kernel object when it lets the guard go.
pub struct MutexGuard {
    handle: usize,
}

impl MutexGuard {
    /// The handle of the mutex this guard was taken from.
    pub closed spec fn id(&self) -> int {
        self.handle as int
    }

    /// The raw handle, for the release call.
    pub fn raw(&self) -> (h: usize)
        ensures
            h == self.id(),
    {
        self.handle
    }
}

impl<T> Mutex<T> {
    /// The handle of the kernel mutex guarding the value.
    pub closed spec fn id(&self) -> int {
        self.mutex.id()
    }

    /// The guarded value.
    pub closed spec fn value(&self) -> T {
        self.data
    }

    /// Wraps `t` behind the kernel mutex whose creation returned `handle`:
    /// a null handle means creation failed for want of memory.
    pub fn new(t: T, handle: usize) -> (r: Result<Mutex<T>, RTTError>)
        ensures
            handle == 0 ==> r is Err && r->Err_0 == RTTError::OutOfMemory,
            handle != 0 ==> match r {
                Ok(m) => m.id() == handle && m.value() == t,
                Err(_) => false,
            },
    {
        let mutex = MutexRaw::create(handle)?;
        Ok(Mutex { mutex, data: t })
    }

    /// Interprets the code of a bounded take: zero grants the guard, any
    /// other code is the timeout.
    pub fn try_lock(&self, code: isize) -> (r: Result<MutexGuard, RTTError>)
        ensures
            code == 0 ==> match r {
                Ok(g) => g.id() == self.id(),
                Err(_) => false,
            },
            code != 0 ==> r is Err && r->Err_0 == RTTError::MutexTakeTimeout,
    {
        self.mutex.take(code)?;
        Ok(MutexGuard { handle: self.mutex.handle })
    }

    /// Interprets the code of an unbounded take, exactly as `try_lock`
    /// does: the kernel was handed the wait-forever tick instead of a
    /// bound.
    pub fn lock(&self, code: isize) -> (r: Result<MutexGuard, RTTError>)
        ensures
            code == 0 ==> match r {
                Ok(g) => g.id() == self.id(),
                Err(_) => false,
            },
            code != 0 ==> r is Err && r->Err_0 == RTTError::MutexTakeTimeout,
    {
        self.try_lock(code)
    }

    /// The raw handle, for the embedding that makes the kernel calls.
    pub fn raw(&self) -> (h: usize)
        ensures
            h == self.id(),
    {
        self.mutex.raw()
    }

    /// Read access to the guarded value; the embedding answers for holding
    /// the guard.
    pub fn data(&self) -> (t: &T)
        ensures
            *t == self.value(),
    {
        &self.data
    }

    /// Write access to the guarded value; the embedding answers for
    /// holding the guard.
    pub fn data_mut(&mut self) -> (t: &mut T)
        ensures
            *t == old(self).value(),
            final(self).value() == *final(t),
            final(self).id() == old(self).id(),
    {
        &mut self.data
    }
}

/// The tick value that asks the kernel to wait without bound.
pub const RT_WAITING_FOREVER: i32 = -1;

} // verus!
