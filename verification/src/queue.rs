//! Message queue backed by the host kernel's queue object.
//!
//! Items travel through the kernel as one pointer-sized handle each; this
//! module fixes that element size and interprets the codes the kernel's
//! send and receive calls return.

use vstd::prelude::*;

use crate::base::RTTError;

verus! {

/// The kernel message queue, typed by the items it carries.
pub struct Queue<T> {
    handle: usize,
    item_type: core::marker::PhantomData<T>,
}

impl<T> Queue<T> {
    /// The handle this queue was created with.
    pub closed spec fn id(&self) -> int {
        self.handle as int
    }

    /// Interprets the handle a queue-creation call returned: a null handle
    /// means the kernel was out of memory.
    pub fn new(handle: usize) -> (r: Result<Queue<T>, RTTError>)
        ensures
            handle == 0 ==> r is Err && r->Err_0 == RTTError::OutOfMemory,
            handle != 0 ==> match r {
                Ok(q) => q.id() == handle,
                Err(_) => false,
            },
    {
        if handle == 0 {
            return Err(RTTError::OutOfMemory);
        }
        Ok(Queue { handle, item_type: core::marker::PhantomData })
    }

    /// How many bytes one queued message occupies: an item is passed as a
    /// single pointer-sized handle.
    pub fn mem_size() -> (n: usize)
        ensures
            n == vstd::layout::size_of::<usize>(),
    {
        core::mem::size_of::<usize>()
    }

    /// Interprets the code of a send that was not allowed to wait.
    pub fn send(&self, code: isize) -> (r: Result<(), RTTError>)
        ensures
            r == (if code == 0 {
                Ok::<(), RTTError>(())
            } else {
                Err::<(), RTTError>(RTTError::QueueSendTimeout)
            }),
    {
        self.send_wait(code)
    }

    /// Interprets the code of a bounded send: anything but zero means the
    /// queue stayed full until the wait ran out.
    pub fn send_wait(&self, code: isize) -> (r: Result<(), RTTError>)
        ensures
            r == (if code == 0 {
                Ok::<(), RTTError>(())
            } else {
                Err::<(), RTTError>(RTTError::QueueSendTimeout)
            }),
    {
        if code != 0 {
            return Err(RTTError::QueueSendTimeout);
        }
        Ok(())
    }

    /// Interprets the outcome of a receive: a zero code hands over the item
    /// the kernel delivered, any other code is the timeout.
    pub fn receive(&self, code: isize, item: Option<T>) -> (r: Result<T, RTTError>)
        requires
            code == 0 ==> item is Some,
        ensures
            code == 0 ==> match r {
                Ok(t) => item == Some(t),
                Err(_) => false,
            },
            code != 0 ==> r is Err && r->Err_0 == RTTError::QueueReceiveTimeout,
    {
        if code != 0 {
            return Err(RTTError::QueueReceiveTimeout);
        }
        match item {
            Some(t) => Ok(t),
            None => vstd::pervasive::unreached(),
        }
    }

    /// The raw handle, for the embedding that makes the kernel calls.
    pub fn raw(&self) -> (h: usize)
        ensures
            h == self.id(),
    {
        self.handle
    }
}

} // verus!
