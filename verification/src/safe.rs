//! A driver shared by everything that executes through it.

use crate::dialect::{Dialect, DialectView};
use crate::driver::{answers, Driver, DriverError, ExecutionOutcome};
use crate::operation::CompiledStatement;
use std::sync::{Arc, Mutex, MutexGuard, PoisonError};
use vstd::prelude::*;

verus! {

/// `std::sync::Mutex`, declared as a type whose contents stay opaque.
#[verifier::external_type_specification]
#[verifier::external_body]
#[verifier::reject_recursive_types(T)]
pub struct ExMutex<T: ?Sized>(Mutex<T>);

/// `std::sync::MutexGuard`, declared as a type whose contents stay opaque.
#[verifier::external_type_specification]
#[verifier::external_body]
#[verifier::reject_recursive_types(T)]
pub struct ExMutexGuard<'a, T: ?Sized + 'a>(MutexGuard<'a, T>);

/// `std::sync::PoisonError`, declared as a type whose contents stay opaque.
#[verifier::external_type_specification]
#[verifier::external_body]
#[verifier::reject_recursive_types(T)]
pub struct ExPoisonError<T>(PoisonError<T>);

/// `Mutex::new`: a mutex that guards `value`. Nothing is claimed of it.
#[verifier::external_body]
fn mutex_new<T>(value: T) -> Mutex<T> {
    Mutex::new(value)
}

/// `Mutex::lock`: waits until no one else holds the mutex and hands out
/// its guard, or, where a holder panicked, the guard inside an error.
/// Nothing is claimed of which of the two comes back, nor of what the
/// guard holds. A thread that holds the mutex already must not call this:
/// the call would not return.
#[verifier::external_body]
fn mutex_lock<'a, T>(mutex: &'a Mutex<T>) -> Result<
    MutexGuard<'a, T>,
    PoisonError<MutexGuard<'a, T>>,
> {
    mutex.lock()
}

/// `PoisonError::into_inner`: the guard that the error holds. Nothing is
/// claimed of it.
#[verifier::external_body]
fn poison_into_inner<'a, T>(poisoned: PoisonError<MutexGuard<'a, T>>) -> MutexGuard<'a, T> {
    poisoned.into_inner()
}

/// `DerefMut::deref_mut` of a `MutexGuard`: the value that the mutex
/// guards. Nothing is claimed of it.
#[verifier::external_body]
fn guard_deref_mut<'a, 'b, T>(guard: &'a mut MutexGuard<'b, T>) -> &'a mut T {
    &mut **guard
}

/// `Arc::clone`: another pointer to the same allocation, and so to the
/// same value.
#[verifier::external_body]
fn arc_clone<V>(pointer: &Arc<V>) -> (shared: Arc<V>)
    ensures
        shared == *pointer,
{
    Arc::clone(pointer)
}

/// What the holders of one handle share.
#[verifier::reject_recursive_types(T)]
struct Shared<T: Driver> {
    dialect: Dialect,
    driver: Mutex<T>,
}

/// A handle to a driver that any number of holders share.
///
/// Every clone executes through the same underlying driver, one statement
/// at a time, and the driver lives as long as its last handle. The driver
/// itself is never handed out.
#[verifier::reject_recursive_types(T)]
pub struct Safe<T: Driver> {
    shared: Arc<Shared<T>>,
}

impl<T: Driver> Safe<T> {
    /// The dialect of the shared driver, as a value.
    pub closed spec fn dialect_view(&self) -> DialectView {
        self.shared.dialect@
    }

    /// Wraps `driver` for sharing, with `dialect` as the dialect in which
    /// statements for it are compiled.
    pub fn new(driver: T, dialect: Dialect) -> (handle: Safe<T>)
        ensures
            handle.dialect_view() == dialect@,
    {
        Safe { shared: Arc::new(Shared { dialect, driver: mutex_new(driver) }) }
    }

    /// The dialect in which statements for the shared driver are compiled.
    pub fn dialect(&self) -> (dialect: &Dialect)
        ensures
            dialect@ == self.dialect_view(),
    {
        &self.shared.dialect
    }

    /// Executes `statement` through the shared driver and hands back what
    /// the driver answered.
    ///
    /// The call waits until every execution begun through any other clone
    /// has ended, so that two statements never reach the driver at once.
    /// A driver that panicked during an earlier execution is used all the
    /// same. A driver must not execute through a handle to itself: it
    /// would wait for its own execution to end.
    pub fn execute(&self, statement: &CompiledStatement) -> (outcome: Result<
        ExecutionOutcome,
        DriverError,
    >)
        ensures
            answers::<T>(statement, outcome),
    {
        let mut guard = match mutex_lock(&self.shared.driver) {
            Ok(guard) => guard,
            Err(poisoned) => poison_into_inner(poisoned),
        };
        let driver = guard_deref_mut(&mut guard);
        driver.execute(statement)
    }
}

impl<T: Driver> Clone for Safe<T> {
    /// Another handle to the same driver. The driver is not duplicated.
    fn clone(&self) -> (handle: Safe<T>)
        ensures
            handle == *self,
    {
        Safe { shared: arc_clone(&self.shared) }
    }
}

} // verus!
