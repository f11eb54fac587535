//! An extractor that answers a failed extraction in the service's own way.

use std::marker::PhantomData;
use vstd::prelude::*;
use vstd::std_specs::convert::FromSpec;

verus! {

/// Wraps what an extractor `E` extracted. Where the extraction fails, its
/// rejection is transformed into `R`, and `R` is what the client is answered
/// with.
pub struct WithRejection<E, R>(pub E, pub PhantomData<R>);

impl<E, R> WithRejection<E, R> {
    /// Wraps what was extracted.
    pub fn new(extracted: E) -> (wrapped: Self)
        ensures
            wrapped.0 == extracted,
    {
        WithRejection(extracted, PhantomData)
    }

    /// Returns the wrapped extractor
    pub fn into_inner(self) -> (inner: E)
        ensures
            inner == self.0,
    {
        self.0
    }

    /// The wrapped extractor, to read.
    pub fn get_ref(&self) -> (inner: &E)
        ensures
            *inner == self.0,
    {
        &self.0
    }

    /// Settles an extraction: what was extracted is wrapped, and a rejection
    /// is transformed into `R` by `R`'s conversion from it.
    pub fn from_extraction<X>(extraction: Result<E, X>) -> (settled: Result<Self, R>) where
        R: From<X>,

        ensures
            extraction matches Ok(extracted) ==> (settled matches Ok(wrapped) && wrapped.0
                == extracted),
            extraction matches Err(rejection) ==> (settled matches Err(answer) && (
            <R as FromSpec<X>>::obeys_from_spec() ==> answer == <R as FromSpec<X>>::from_spec(
                rejection,
            ))),
    {
        match extraction {
            Ok(extracted) => Ok(WithRejection(extracted, PhantomData)),
            Err(rejection) => Err(R::from(rejection)),
        }
    }
}

} // verus!
