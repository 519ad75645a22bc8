//! A value shared between the render path and the input path, behind a
//! read/write lock.
use vstd::prelude::*;
use std::sync::RwLock;

verus! {

#[verifier::external_type_specification]
#[verifier::external_body]
#[verifier::reject_recursive_types(T)]
pub struct ExRwLock<T: ?Sized>(RwLock<T>);

/// Relies on `RwLock::new`: a lock that holds `t`.
pub assume_specification<T>[ RwLock::<T>::new ](t: T) -> RwLock<T>;

/// Relies on `RwLock::read`: a copy of the value held, or `None` when the lock
/// is poisoned. Another holder may have changed the value at any time, so
/// nothing is known of what comes back.
#[verifier::external_body]
pub(crate) fn read_shared<T: Copy>(lock: &RwLock<T>) -> (r: Option<T>) {
    lock.read().ok().map(|guard| *guard)
}

/// Relies on `RwLock::write`: replaces the value held, unless the lock is
/// poisoned; tells whether it did.
#[verifier::external_body]
pub(crate) fn write_shared<T>(lock: &RwLock<T>, value: T) -> (r: bool) {
    match lock.write() {
        Ok(mut guard) => {
            *guard = value;
            true
        },
        Err(_) => false,
    }
}

} // verus!
