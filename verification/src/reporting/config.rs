//! The reporting service's settings.
use crate::storage::{clickhouse_dsn, format_clickhouse_dsn};
use vstd::prelude::*;

verus! {

/// How the reporting service reaches ClickHouse.
#[derive(Debug, Clone)]
pub struct Settings {
    pub clickhouse_user: String,
    pub clickhouse_password: String,
    pub clickhouse_host: String,
    pub clickhouse_port: u16,
}

impl Settings {
    /// The connection string of the database (`db::init`).
    pub fn dsn(&self) -> (r: String)
        ensures
            r@ == clickhouse_dsn(
                self.clickhouse_user@,
                self.clickhouse_password@,
                self.clickhouse_host@,
                self.clickhouse_port,
            ),
    {
        format_clickhouse_dsn(
            self.clickhouse_user.as_str(),
            self.clickhouse_password.as_str(),
            self.clickhouse_host.as_str(),
            self.clickhouse_port,
        )
    }
}

} // verus!
