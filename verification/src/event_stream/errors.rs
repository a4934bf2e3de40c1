//! Errors of the event stream.
use vstd::prelude::*;

verus! {

/// A Kafka message whose headers cannot be turned into flow metadata.
#[derive(Debug)]
pub enum EventStreamError {
    UnableToParseKafkaHeader(String),
}

impl EventStreamError {
    /// The message that the error carries.
    pub open spec fn message(&self) -> Seq<char> {
        match self {
            EventStreamError::UnableToParseKafkaHeader(m) => m@,
        }
    }
}

} // verus!
