//! The kernel-object wrappers: mutex, semaphore, queue and thread, held to
//! their exact code-to-error mappings.

use rtt_rs::base::RTTError;
use rtt_rs::mutex::Mutex;
use rtt_rs::mutex::MutexRaw;
use rtt_rs::mutex::RT_WAITING_FOREVER;
use rtt_rs::queue::Queue;
use rtt_rs::semaphore::Semaphore;
use rtt_rs::thread::Thread;

#[test]
fn mutex_null_handle_is_out_of_memory() {
    assert_eq!(Mutex::new(5u32, 0).err(), Some(RTTError::OutOfMemory));
    assert!(MutexRaw::create(0).is_err());
}

#[test]
fn mutex_lock_codes() {
    let m = Mutex::new(41u32, 0x1000).unwrap();
    assert!(m.try_lock(0).is_ok());
    assert_eq!(m.try_lock(-2).err(), Some(RTTError::MutexTakeTimeout));
    let g = m.lock(0).unwrap();
    assert_eq!(g.raw(), 0x1000);
    assert_eq!(*m.data(), 41);
    assert_eq!(RT_WAITING_FOREVER, -1);
}

#[test]
fn mutex_data_mut_updates_value() {
    let mut m = Mutex::new(1u32, 7).unwrap();
    *m.data_mut() += 9;
    assert_eq!(*m.data(), 10);
}

#[test]
fn semaphore_codes() {
    assert_eq!(Semaphore::new(0).err(), Some(RTTError::OutOfMemory));
    let s = Semaphore::new(9).unwrap();
    assert_eq!(s.raw(), 9);
    assert!(s.try_take(0).is_ok());
    assert_eq!(s.try_take(1).err(), Some(RTTError::SemaphoreTakeTimeout));
    assert!(s.take(0).is_ok());
    assert_eq!(s.take(-5).err(), Some(RTTError::SemaphoreTakeTimeout));
    assert!(s.take_wait_forever(0).is_ok());
    assert_eq!(
        s.take_wait_forever(2).err(),
        Some(RTTError::SemaphoreTakeTimeout)
    );
}

#[test]
fn queue_codes_and_mem_size() {
    assert!(Queue::<u64>::new(0).is_err());
    let q: Queue<u64> = Queue::new(33).unwrap();
    assert_eq!(q.raw(), 33);
    assert_eq!(Queue::<u64>::mem_size(), core::mem::size_of::<usize>());
    assert!(q.send(0).is_ok());
    assert_eq!(q.send(-1).err(), Some(RTTError::QueueSendTimeout));
    assert!(q.send_wait(0).is_ok());
    assert_eq!(q.send_wait(3).err(), Some(RTTError::QueueSendTimeout));
    assert_eq!(q.receive(0, Some(17u64)).ok(), Some(17));
    assert_eq!(
        q.receive(-2, None).err(),
        Some(RTTError::QueueReceiveTimeout)
    );
}

#[test]
fn thread_builder_defaults_and_setters() {
    let mut b = Thread::new();
    assert_eq!(b.th_name, "uname");
    assert_eq!(b.th_stack_size, 4096);
    assert_eq!(b.th_priority, 10);
    assert_eq!(b.th_ticks, 10);
    b.name("worker").stack_size(8192).priority(3).ticks(20);
    assert_eq!(b.th_name, "worker");
    assert_eq!(b.th_stack_size, 8192);
    assert_eq!(b.th_priority, 3);
    assert_eq!(b.th_ticks, 20);
}

#[test]
fn thread_creation_checks() {
    assert_eq!(Thread::from_create(0).err(), Some(RTTError::OutOfMemory));
    let t = Thread::from_create(0x88).unwrap();
    assert_eq!(t.raw(), 0x88);
    assert!(Thread::startup_check(0).is_ok());
    assert_eq!(
        Thread::startup_check(-1).err(),
        Some(RTTError::ThreadStartupErr)
    );
}
