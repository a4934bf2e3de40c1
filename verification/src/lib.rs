//! Verified core of the krewetka network-flow processing and reporting services.
pub mod decimal;
pub mod event_stream;
pub mod messages;
pub mod storage;
pub mod reporting;
pub mod classification;
pub mod migrator;
