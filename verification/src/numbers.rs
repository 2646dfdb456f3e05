//! A shared list of numbers, a component that is always healthy.

use std::sync::{Arc, Mutex};

use vstd::prelude::*;

verus! {

/// Declares std's mutual-exclusion lock, whose contents Verus does not see.
#[verifier::external_type_specification]
#[verifier::external_body]
#[verifier::reject_recursive_types(T)]
pub struct ExMutex<T: ?Sized>(Mutex<T>);

/// Numbers shared between tasks.
#[derive(Default, Clone)]
pub struct Numbers {
    pub items: Arc<Mutex<Vec<i64>>>,
}

/// Trusted: `Mutex::lock` followed by `Vec::clone` of the guarded list. Nothing is
/// claimed of the result: the list is shared and any task may have changed it. A lock
/// poisoned by a panicking task still gives its contents (`PoisonError::into_inner`).
#[verifier::external_body]
fn locked_copy(items: &Mutex<Vec<i64>>) -> Vec<i64> {
    match items.lock() {
        Ok(guard) => guard.clone(),
        Err(poisoned) => poisoned.into_inner().clone(),
    }
}

impl Numbers {
    /// A copy of the numbers held at the time of the call.
    pub fn get(&self) -> Vec<i64> {
        locked_copy(&self.items)
    }
}

} // verus!
