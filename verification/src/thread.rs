//! Threads on the host kernel: the builder that gathers a thread's
//! parameters and the checks on what the kernel's create and startup calls
//! return.

use vstd::prelude::*;
use vstd::string::StrSliceExecFns;

use crate::base::RTTError;

verus! {

/// A running kernel thread: its handle, as the kernel returned it.
pub struct Thread {
    handle: usize,
}

/// Gathers the parameters a thread is created with.
pub struct ThreadBuilder {
    pub th_name: String,
    pub th_stack_size: u32,
    pub th_priority: u8,
    pub th_ticks: u32,
}

impl Thread {
    /// The handle this thread was created with.
    pub closed spec fn id(&self) -> int {
        self.handle as int
    }

    /// A builder with the default parameters: an unnamed thread with a
    /// four-kilobyte stack, priority ten, ten ticks per slice.
    pub fn new() -> (b: ThreadBuilder)
        ensures
            b.th_name@ == "uname"@,
            b.th_stack_size == 4096,
            b.th_priority == 10,
            b.th_ticks == 10,
    {
        ThreadBuilder {
            th_name: "uname".to_owned(),
            th_stack_size: 4096,
            th_priority: 10,
            th_ticks: 10,
        }
    }

    /// Interprets the handle a thread-creation call returned: a null handle
    /// means the kernel was out of memory.
    pub fn from_create(handle: usize) -> (r: Result<Thread, RTTError>)
        ensures
            handle == 0 ==> r is Err && r->Err_0 == RTTError::OutOfMemory,
            handle != 0 ==> match r {
                Ok(t) => t.id() == handle,
                Err(_) => false,
            },
    {
        if handle == 0 {
            return Err(RTTError::OutOfMemory);
        }
        Ok(Thread { handle })
    }

    /// Interprets the code a thread-startup call returned: anything but
    /// zero means the thread could not be started.
    pub fn startup_check(code: isize) -> (r: Result<(), RTTError>)
        ensures
            r == (if code == 0 {
                Ok::<(), RTTError>(())
            } else {
                Err::<(), RTTError>(RTTError::ThreadStartupErr)
            }),
    {
        if code != 0 {
            return Err(RTTError::ThreadStartupErr);
        }
        Ok(())
    }

    /// The raw handle, for the embedding that makes the kernel calls.
    pub fn raw(&self) -> (h: usize)
        ensures
            h == self.id(),
    {
        self.handle
    }
}

impl ThreadBuilder {
    /// Replaces the thread's name.
    pub fn name(&mut self, name: &str) -> (r: &mut ThreadBuilder)
        ensures
            r.th_name@ == name@,
            r.th_stack_size == old(self).th_stack_size,
            r.th_priority == old(self).th_priority,
            r.th_ticks == old(self).th_ticks,
            *final(self) == *final(r),
    {
        self.th_name = name.to_owned();
        self
    }

    /// Replaces the stack size, in bytes.
    pub fn stack_size(&mut self, stack_size: u32) -> (r: &mut ThreadBuilder)
        ensures
            r.th_name == old(self).th_name,
            r.th_stack_size == stack_size,
            r.th_priority == old(self).th_priority,
            r.th_ticks == old(self).th_ticks,
            *final(self) == *final(r),
    {
        self.th_stack_size = stack_size;
        self
    }

    /// Replaces the scheduling priority.
    pub fn priority(&mut self, priority: u8) -> (r: &mut ThreadBuilder)
        ensures
            r.th_name == old(self).th_name,
            r.th_stack_size == old(self).th_stack_size,
            r.th_priority == priority,
            r.th_ticks == old(self).th_ticks,
            *final(self) == *final(r),
    {
        self.th_priority = priority;
        self
    }

    /// Replaces the ticks of one scheduling slice.
    pub fn ticks(&mut self, ticks: u32) -> (r: &mut ThreadBuilder)
        ensures
            r.th_name == old(self).th_name,
            r.th_stack_size == old(self).th_stack_size,
            r.th_priority == old(self).th_priority,
            r.th_ticks == ticks,
            *final(self) == *final(r),
    {
        self.th_ticks = ticks;
        self
    }
}

} // verus!
