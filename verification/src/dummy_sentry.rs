//! A stand-in for the error-reporting middleware.
//!
//! A build without error reporting still needs a value to put where the
//! reporting middleware would go. [`Sentry`] is that value. It is only ever
//! wrapped in a condition that is switched off, so it is never asked to
//! build its service.

use std::marker::PhantomData;
use vstd::prelude::*;

verus! {

/// The stand-in for the error-reporting middleware. It holds nothing.
#[derive(Debug, Clone, Copy, PartialEq, Eq)]
pub struct Sentry;

impl Sentry {
    /// The stand-in. Any two are equal.
    pub fn new() -> (sentry: Sentry)
        ensures
            sentry == Sentry,
    {
        Sentry
    }
}

/// The service the stand-in would wrap a service of type `S` in. It holds
/// nothing either.
pub struct FeatureMiddleware<S> {
    s: PhantomData<S>,
}

} // verus!
