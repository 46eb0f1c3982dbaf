//! Trusted declarations of the std synchronization and timing primitives the
//! read façade relies on. vstd gives these no specification, so each item
//! here is believed on the strength of std's documentation alone; everything
//! that branches or decides stays in verified code.

use vstd::prelude::*;

verus! {

#[verifier::external_type_specification]
#[verifier::external_body]
#[verifier::reject_recursive_types(T)]
pub struct ExMutex<T: ?Sized>(std::sync::Mutex<T>);

#[verifier::external_type_specification]
#[verifier::external_body]
#[verifier::reject_recursive_types(T)]
pub struct ExMutexGuard<'a, T: ?Sized + 'a>(std::sync::MutexGuard<'a, T>);

#[verifier::external_type_specification]
#[verifier::external_body]
pub struct ExCondvar(std::sync::Condvar);

#[verifier::external_type_specification]
#[verifier::external_body]
pub struct ExInstant(std::time::Instant);

/// Relies on std::sync::Mutex::new: wraps a value in a new unlocked mutex.
pub assume_specification<T>[ std::sync::Mutex::<T>::new ](t: T) -> (m: std::sync::Mutex<T>);

/// Relies on std::sync::Condvar::new: creates a fresh condition variable.
pub assume_specification[ std::sync::Condvar::new ]() -> (cv: std::sync::Condvar);

/// Relies on std::sync::Condvar::notify_one: wakes up at most one waiter.
pub assume_specification[ std::sync::Condvar::notify_one ](cv: &std::sync::Condvar);

/// Relies on std::sync::Condvar::notify_all: wakes up every current waiter.
pub assume_specification[ std::sync::Condvar::notify_all ](cv: &std::sync::Condvar);

/// Relies on std::time::Instant::now: a reading of the monotonic clock; the
/// value depends on the machine and the moment, so nothing is promised of it.
pub assume_specification[ std::time::Instant::now ]() -> (t: std::time::Instant);

/// Relies on std::time::Instant::elapsed: the time since that reading; the
/// value depends on the moment of the call, so nothing is promised of it.
pub assume_specification[ std::time::Instant::elapsed ](t: &std::time::Instant) -> (d:
    core::time::Duration);

/// Relies on core::time::Duration::from_millis: a duration of that many
/// milliseconds.
pub assume_specification[ core::time::Duration::from_millis ](ms: u64) -> (d:
    core::time::Duration);

/// Relies on core::time::Duration::as_millis: the whole milliseconds of the
/// duration; nothing is promised of the value.
pub assume_specification[ core::time::Duration::as_millis ](d: &core::time::Duration) -> (ms:
    u128);

/// Relies on std::sync::Mutex::lock: blocks until this thread holds the
/// lock. Panics only if a holder panicked while holding it, which no
/// function of this library does.
#[verifier::external_body]
pub(crate) fn wake_mutex_lock<'a>(m: &'a std::sync::Mutex<u8>) -> std::sync::MutexGuard<'a, u8> {
    m.lock().unwrap()
}

/// Relies on std::sync::Condvar::wait_timeout: atomically releases the guard
/// and blocks until a notification arrives, the duration passes, or a
/// spurious wakeup occurs; the lock is re-held when it returns. Panics only
/// if a holder panicked while holding the lock, which no function of this
/// library does.
#[verifier::external_body]
pub(crate) fn wake_cond_wait<'a>(
    cv: &std::sync::Condvar,
    guard: std::sync::MutexGuard<'a, u8>,
    timeout: core::time::Duration,
) -> std::sync::MutexGuard<'a, u8> {
    cv.wait_timeout(guard, timeout).unwrap().0
}

} // verus!
