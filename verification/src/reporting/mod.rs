//! The reporting service: statistics about stored flow records.
pub mod config;
pub mod datetime;
pub mod db;
pub mod errors;
pub mod models;
pub mod throughput;
