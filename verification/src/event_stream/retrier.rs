//! A retrier shared between the tasks that run its tiers.
use crate::event_stream::kafka::retrier::Retrier;
use std::sync::Arc;
use vstd::prelude::*;

verus! {

/// A [`Retrier`] behind a shared pointer.
pub struct ArcedRetrier(pub Arc<Retrier>);

impl ArcedRetrier {
    pub fn new(retrier: Arc<Retrier>) -> (r: Self)
        ensures
            r.0 == retrier,
    {
        Self(retrier)
    }
}

} // verus!
