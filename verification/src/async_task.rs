//! A task that runs a future on the current thread

use vstd::prelude::*;

verus! {

/// A future to be run to completion, woken through thread flag `FLAG`
#[verifier::reject_recursive_types(T)]
pub struct Task<F, T, const FLAG: u8> where F: core::future::Future<Output = T> {
    future: F,
}

impl<F, T, const FLAG: u8> Task<F, T, FLAG> where F: core::future::Future<Output = T> {
    /// The future
    pub closed spec fn spec_future(&self) -> F {
        self.future
    }

    /// A task running `future`
    pub fn new(future: F) -> (t: Self)
        ensures
            t.spec_future() == future,
    {
        Task { future }
    }
}

} // verus!
