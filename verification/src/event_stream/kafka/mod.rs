//! Kafka-specific parts of the event stream.
pub mod headers;
pub mod offset;
pub mod offset_guard;
pub mod retrier;
pub mod state;
