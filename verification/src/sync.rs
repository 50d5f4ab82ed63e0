//! What the bus takes from `std::sync`.
//!
//! Verus does not look into these types and functions: everything in this
//! file, but [`acquire`] and [`recover`], is taken on trust. Each item names
//! what of std it stands for and says what is claimed of it. Three claims are
//! made in all: that a clone of an `Arc` points to the same value, that a
//! `Weak` made of an `Arc` refers to that `Arc`'s value, and that a `Weak`
//! upgrades to nothing but the value it refers to.
//!
//! Nothing is claimed of the state that a lock hands out: that is decided by
//! the threads that held the lock before. The functions of
//! [`crate::interface`] are therefore verified for every state that they may
//! be handed.

use crate::bus::MockBus;
use crate::interface::MockInterface;
use core::time::Duration;
use std::sync::{Arc, Condvar, Mutex, MutexGuard, PoisonError, WaitTimeoutResult, Weak};
use vstd::prelude::*;

verus! {

/// `std::sync::Mutex`. Verus knows the type by name only.
#[verifier::external_type_specification]
#[verifier::external_body]
#[verifier::reject_recursive_types(T)]
pub struct ExMutex<T: ?Sized>(Mutex<T>);

/// `std::sync::MutexGuard`. Verus knows the type by name only.
#[verifier::external_type_specification]
#[verifier::external_body]
#[verifier::reject_recursive_types(T)]
pub struct ExMutexGuard<'a, T: ?Sized + 'a>(MutexGuard<'a, T>);

/// `std::sync::PoisonError`. Verus knows the type by name only.
#[verifier::external_type_specification]
#[verifier::external_body]
#[verifier::reject_recursive_types(T)]
pub struct ExPoisonError<T>(PoisonError<T>);

/// `std::sync::Condvar`. Verus knows the type by name only.
#[verifier::external_type_specification]
#[verifier::external_body]
pub struct ExCondvar(Condvar);

/// `std::sync::WaitTimeoutResult`. Verus knows the type by name only.
#[verifier::external_type_specification]
#[verifier::external_body]
pub struct ExWaitTimeoutResult(WaitTimeoutResult);

/// A reference to a bus that does not keep the bus alive.
///
/// The field is a `std::sync::Weak`. That type has an allocator parameter,
/// which keeps it from being declared to Verus, and through it the bus would
/// refer to itself; so the field is hidden.
#[verifier::external_body]
pub struct BusLink {
    bus: Weak<Mutex<MockBus>>,
}

/// The bus that a link refers to, whether that bus still exists or not. A
/// link refers to one bus for as long as the link exists.
pub uninterp spec fn link_target(link: BusLink) -> Arc<Mutex<MockBus>>;

/// `Mutex::new`: a mutex that holds the value. Nothing is claimed of the
/// result.
pub assume_specification<T>[ std::sync::Mutex::<T>::new ](t: T) -> std::sync::Mutex<T>;

/// `Mutex::lock`: waits until the mutex is free and takes it; the error is
/// that of a mutex that a panicking thread left behind. Nothing is claimed of
/// the result.
///
/// The calling thread must not hold the mutex already: std leaves open
/// whether such a call panics or never returns.
pub assume_specification<'a, T: ?Sized>[ std::sync::Mutex::<T>::lock ](
    m: &'a std::sync::Mutex<T>,
) -> Result<std::sync::MutexGuard<'a, T>, std::sync::PoisonError<std::sync::MutexGuard<'a, T>>>;

/// `PoisonError::into_inner`: the guard that came with the error. Nothing is
/// claimed of the result.
pub assume_specification<T>[ std::sync::PoisonError::<T>::into_inner ](
    e: std::sync::PoisonError<T>,
) -> T;

/// `Condvar::new`: a condition variable on which no thread waits. Nothing is
/// claimed of the result.
pub assume_specification[ std::sync::Condvar::new ]() -> std::sync::Condvar;

/// `Condvar::notify_all`: wakes every thread that waits on the condition
/// variable.
pub assume_specification[ std::sync::Condvar::notify_all ](c: &std::sync::Condvar);

/// `Deref::deref` of a guard: the value that the taken mutex holds. Nothing
/// is claimed of the result.
#[verifier::external_body]
pub(crate) fn held<'a, 'b, T>(guard: &'b MutexGuard<'a, T>) -> &'b T {
    std::ops::Deref::deref(guard)
}

/// `DerefMut::deref_mut` of a guard: the value that the taken mutex holds,
/// to change it. Nothing is claimed of the result.
#[verifier::external_body]
pub(crate) fn held_mut<'a, 'b, T>(guard: &'b mut MutexGuard<'a, T>) -> &'b mut T {
    std::ops::DerefMut::deref_mut(guard)
}

/// `Arc::clone`: one more owner of the value. The result points to the very
/// value that `owner` points to.
#[verifier::external_body]
pub(crate) fn share<T>(owner: &Arc<T>) -> (other: Arc<T>)
    ensures
        other == *owner,
{
    Arc::clone(owner)
}

/// `Condvar::wait_while`: gives the mutex of `guard` up and sleeps until the
/// interface is no longer idle, then holds the mutex again. Nothing is
/// claimed of the result.
///
/// `guard` must be of the mutex that `condvar` is always used with: std may
/// panic otherwise.
#[verifier::external_body]
pub(crate) fn wait_while_idle<'a>(
    condvar: &Condvar,
    guard: MutexGuard<'a, MockInterface>,
) -> Result<MutexGuard<'a, MockInterface>, PoisonError<MutexGuard<'a, MockInterface>>> {
    condvar.wait_while(guard, |interface| interface.is_idle())
}

/// `Condvar::wait_timeout_while`: as [`wait_while_idle`], but for no longer
/// than `timeout`. Nothing is claimed of the result.
#[verifier::external_body]
pub(crate) fn wait_timeout_while_idle<'a>(
    condvar: &Condvar,
    guard: MutexGuard<'a, MockInterface>,
    timeout: Duration,
) -> Result<
    (MutexGuard<'a, MockInterface>, WaitTimeoutResult),
    PoisonError<(MutexGuard<'a, MockInterface>, WaitTimeoutResult)>,
> {
    condvar.wait_timeout_while(guard, timeout, |interface| interface.is_idle())
}

/// `Arc::downgrade`: a link that refers to `bus` and does not keep it alive.
#[verifier::external_body]
pub(crate) fn link_to(bus: &Arc<Mutex<MockBus>>) -> (link: BusLink)
    ensures
        link_target(link) == *bus,
{
    BusLink { bus: Arc::downgrade(bus) }
}

/// `Weak::upgrade`: the bus that `link` refers to, if some owner still keeps
/// it alive. Whether one does is not claimed.
#[verifier::external_body]
pub(crate) fn follow(link: &BusLink) -> (bus: Option<Arc<Mutex<MockBus>>>)
    ensures
        bus matches Some(found) ==> found == link_target(*link),
{
    link.bus.upgrade()
}

/// What a lock or a wait handed out, also where a thread that panicked left
/// the mutex poisoned: the state behind it is as good as any other.
///
/// Without poison the result is what was handed out. With poison it is what
/// came with the error, of which nothing can be said here.
pub(crate) fn recover<G>(taken: Result<G, PoisonError<G>>) -> (handed: G)
    ensures
        taken matches Ok(guard) ==> handed == guard,
{
    match taken {
        Ok(guard) => guard,
        Err(poisoned) => poisoned.into_inner(),
    }
}

/// Waits until `mutex` is free and takes it.
pub(crate) fn acquire<'a, T>(mutex: &'a Mutex<T>) -> MutexGuard<'a, T> {
    recover(mutex.lock())
}

} // verus!
