//! Messages that drive the event stream actor.
use vstd::prelude::*;

verus! {

/// Asks the event stream to start consuming.
#[derive(Debug, Clone, Copy)]
pub struct InitConsumer;

/// Asks the event stream to start its retriers.
#[derive(Debug, Clone, Copy)]
pub struct InitRetrier;

/// Grants the consumer room for this many more messages in the pipeline.
#[derive(Debug, Clone, Copy)]
pub struct FlushCollectedEventsToPipeline(pub usize);

} // verus!
