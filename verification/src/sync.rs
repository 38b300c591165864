//! The shared-ownership and locking primitives that the registry rests on.
//! Nothing here is proved: each item states what the primitive's own
//! documentation promises.

use std::sync::Arc;
use parking_lot::lock_api::{Mutex, MutexGuard};
use parking_lot::RawMutex;
use vstd::prelude::*;

verus! {

/// `parking_lot::RawMutex`, the lock inside a `parking_lot::Mutex`. Opaque.
#[verifier::external_type_specification]
#[verifier::external_body]
pub struct ExRawMutex(RawMutex);

/// `lock_api::Mutex`, of which `parking_lot::Mutex<T>` is the instance with
/// `parking_lot::RawMutex`. Opaque: what it guards can change between any two
/// looks at it, so nothing is said of its content.
#[verifier::external_type_specification]
#[verifier::external_body]
#[verifier::reject_recursive_types(R)]
#[verifier::reject_recursive_types(T)]
pub struct ExMutex<R, T: ?Sized>(Mutex<R, T>);

/// A held lock on a `parking_lot::Mutex<T>`: the `MutexGuard` that
/// `Mutex::lock` returns. The mutex is unlocked when this value is dropped.
/// The guard's own type is bounded by the trait `lock_api::RawMutex`, which
/// Verus does not take in a declaration, so the guard is kept in a field that
/// Verus does not look into.
#[verifier::external_body]
#[verifier::reject_recursive_types(T)]
pub(crate) struct Locked<'a, T> {
    guard: MutexGuard<'a, RawMutex, T>,
}

/// `Arc::clone`: one more owner of the value that `a` points to. The result
/// points to the same value.
#[verifier::external_body]
pub(crate) fn share<T>(a: &Arc<T>) -> (r: Arc<T>)
    ensures
        r == *a,
{
    Arc::clone(a)
}

/// `Mutex::new`: a new, unlocked mutex around `value`.
#[verifier::external_body]
pub(crate) fn new_mutex<T>(value: T) -> (m: Mutex<RawMutex, T>) {
    Mutex::new(value)
}

/// `Mutex::lock`: blocks until the mutex is free, then holds it until the
/// result is dropped. Nothing is promised of what the mutex guards: another
/// thread may have changed it since it was last seen. A thread that locks a
/// mutex it already holds does not return; the functions of this library drop
/// each lock before they return and take no second one while they hold one.
#[verifier::external_body]
pub(crate) fn lock<'a, T>(m: &'a Mutex<RawMutex, T>) -> (g: Locked<'a, T>) {
    Locked { guard: m.lock() }
}

/// `DerefMut::deref_mut` of the guard: the value that the held mutex guards.
/// What is written through the result is what the next holder of the lock finds.
#[verifier::external_body]
pub(crate) fn guarded<'a, 'b, T>(g: &'a mut Locked<'b, T>) -> (value: &'a mut T) {
    &mut *g.guard
}

} // verus!
