//! The event stream: reading flow records from Kafka, routing failed ones
//! through retry topics, and keeping track of which offsets may be committed.
pub mod actor;
pub mod errors;
pub mod kafka;
pub mod messages;
pub mod retrier;
pub mod transport;
