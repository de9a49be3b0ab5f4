use vstd::prelude::*;
use std::sync::{Condvar, Mutex, MutexGuard};

verus! {

/// Whether a semaphore whose count is `count` can be acquired now.
pub open spec fn spec_can_acquire(count: isize) -> bool {
    count > 0
}

/// The count after one release: one more, saturating at `isize::MAX`.
pub open spec fn spec_release_count(count: isize) -> isize {
    if count < isize::MAX {
        (count + 1) as isize
    } else {
        count
    }
}

/// Whether a semaphore whose count is `count` can be acquired now.
pub fn can_acquire(count: isize) -> (b: bool)
    ensures
        b == spec_can_acquire(count),
{
    count > 0
}

/// Whether an acquirer must keep waiting while the count is `*count`.
pub fn must_wait(count: &mut isize) -> (b: bool)
    ensures
        b == !spec_can_acquire(*old(count)),
        *final(count) == *old(count),
{
    !can_acquire(*count)
}

/// The count after one acquire.
pub fn acquire_count(count: isize) -> (r: isize)
    requires
        spec_can_acquire(count),
    ensures
        r == count - 1,
{
    count - 1
}

/// The count after one release.
pub fn release_count(count: isize) -> (r: isize)
    ensures
        r == spec_release_count(count),
{
    if count < isize::MAX {
        count + 1
    } else {
        count
    }
}

/// A release makes the semaphore acquirable, from any count that is not
/// negative.
pub proof fn law_release_enables_acquire(count: isize)
    requires
        count >= 0,
    ensures
        spec_can_acquire(spec_release_count(count)),
{
}

/// An acquire undoes a release, below `isize::MAX`.
pub proof fn law_acquire_undoes_release(count: isize)
    requires
        count < isize::MAX,
    ensures
        spec_release_count(count) - 1 == count,
{
}

/// An acquire never takes the count below zero.
pub proof fn law_acquire_keeps_count_nonnegative(count: isize)
    requires
        spec_can_acquire(count),
    ensures
        count - 1 >= 0,
{
}

#[verifier::external_type_specification]
#[verifier::external_body]
#[verifier::reject_recursive_types(T)]
pub struct ExMutex<T: ?Sized>(Mutex<T>);

#[verifier::external_type_specification]
#[verifier::external_body]
#[verifier::reject_recursive_types(T)]
pub struct ExMutexGuard<'a, T: ?Sized + 'a>(MutexGuard<'a, T>);

#[verifier::external_type_specification]
#[verifier::external_body]
pub struct ExCondvar(Condvar);

/// The count that a held lock guards. While the guard is held no other
/// thread can change it.
pub uninterp spec fn guarded_count(guard: MutexGuard<'_, isize>) -> isize;

/// The count that a lock was created holding. What it holds later is
/// changed by whichever threads hold it.
pub uninterp spec fn created_count(lock: Mutex<isize>) -> isize;

/// `std::sync::Mutex::new`: a new, unlocked lock around `count`, as its
/// documentation says. Nothing is stated of the value later seen through
/// the lock, which other threads may change.
#[verifier::external_body]
fn new_count_lock(count: isize) -> (lock: Mutex<isize>)
    ensures
        created_count(lock) == count,
{
    Mutex::new(count)
}

/// `std::sync::Condvar::new`.
#[verifier::external_body]
fn new_condvar() -> Condvar {
    Condvar::new()
}

/// `std::sync::Mutex::lock`, unwrapped: blocks until the lock is held. The
/// lock is poisoned only by a thread that panicked while holding it, and
/// the holders here (the semaphore's methods) do not panic.
#[verifier::external_body]
fn lock_count<'a>(lock: &'a Mutex<isize>) -> MutexGuard<'a, isize> {
    lock.lock().unwrap()
}

/// Reads the guarded count (`Deref::deref` of the guard).
#[verifier::external_body]
fn read_count(guard: &MutexGuard<'_, isize>) -> (count: isize)
    ensures
        count == guarded_count(*guard),
{
    **guard
}

/// Writes the guarded count (`DerefMut::deref_mut` of the guard).
#[verifier::external_body]
fn write_count(guard: &mut MutexGuard<'_, isize>, count: isize)
    ensures
        guarded_count(*final(guard)) == count,
{
    **guard = count;
}

/// `std::sync::Condvar::wait_while`, unwrapped: releases the lock and blocks
/// until the guarded count no longer needs waiting, as `must_wait` decides,
/// and returns with the lock held again. The documentation of `wait_while`
/// promises that the condition is false on return.
#[verifier::external_body]
fn wait_until_acquirable<'a>(cvar: &Condvar, guard: MutexGuard<'a, isize>) -> (held: MutexGuard<'a, isize>)
    ensures
        spec_can_acquire(guarded_count(held)),
{
    cvar.wait_while(guard, |count| must_wait(count)).unwrap()
}

/// `std::sync::Condvar::notify_one`.
#[verifier::external_body]
fn notify_one(cvar: &Condvar) {
    cvar.notify_one()
}

/// A counting semaphore shared between threads: `acquire` waits until the
/// count is positive and takes one, `release` gives one back and wakes one
/// waiter.
pub struct Semaphore {
    lock: Mutex<isize>,
    cvar: Condvar,
}

impl Semaphore {
    /// The count the semaphore started with.
    pub closed spec fn initial_count(&self) -> isize {
        created_count(self.lock)
    }

    /// A semaphore that starts with `count`.
    pub fn new(count: isize) -> (s: Semaphore)
        ensures
            s.initial_count() == count,
    {
        Semaphore { lock: new_count_lock(count), cvar: new_condvar() }
    }

    /// Waits until the count is positive, then takes one from it.
    pub fn acquire(&self) {
        let guard = lock_count(&self.lock);
        let mut guard = wait_until_acquirable(&self.cvar, guard);
        let count = read_count(&guard);
        let next = acquire_count(count);
        write_count(&mut guard, next);
        assert(guarded_count(guard) == count - 1 && count > 0);
    }

    /// Gives one back to the count and wakes one waiter.
    pub fn release(&self) {
        {
            let mut guard = lock_count(&self.lock);
            let count = read_count(&guard);
            let next = release_count(count);
            write_count(&mut guard, next);
            assert(guarded_count(guard) == spec_release_count(count));
        }
        notify_one(&self.cvar);
    }
}

} // verus!
