//! What a connection pool is set up with, and the errors of setting it up.

use vstd::prelude::*;
use crate::config::DatabaseConfig;
use crate::error::{DatabaseError, ErrorView};

verus! {

/// The settings of a pool as the pool takes them: counts, and spans of time
/// in whole seconds.
#[derive(Clone, Copy, Debug, PartialEq, Eq, Structural)]
pub struct PoolSettings {
    pub max_connections: u32,
    pub min_connections: u32,
    pub acquire_timeout_seconds: u64,
    pub idle_timeout_seconds: u64,
    pub max_lifetime_seconds: u64,
}

/// A signed number of seconds as the unsigned number that a pool takes: a
/// negative one wraps around.
pub open spec fn unsigned_seconds(seconds: i64) -> u64 {
    if seconds >= 0 {
        seconds as u64
    } else {
        (seconds + 0x1_0000_0000_0000_0000) as u64
    }
}

fn to_unsigned(seconds: i64) -> (n: u64)
    ensures
        n == unsigned_seconds(seconds),
{
    if seconds >= 0 {
        seconds as u64
    } else {
        let below: u64 = (-(seconds + 1)) as u64;
        u64::MAX - below
    }
}

impl DatabaseConfig {
    /// The settings as a pool takes them.
    pub fn pool_settings(&self) -> (settings: PoolSettings)
        ensures
            settings == (PoolSettings {
                max_connections: self.max_connections,
                min_connections: self.min_connections,
                acquire_timeout_seconds: unsigned_seconds(self.acquire_timeout_seconds),
                idle_timeout_seconds: unsigned_seconds(self.idle_timeout_seconds),
                max_lifetime_seconds: unsigned_seconds(self.max_lifetime_seconds),
            }),
    {
        PoolSettings {
            max_connections: self.max_connections,
            min_connections: self.min_connections,
            acquire_timeout_seconds: to_unsigned(self.acquire_timeout_seconds),
            idle_timeout_seconds: to_unsigned(self.idle_timeout_seconds),
            max_lifetime_seconds: to_unsigned(self.max_lifetime_seconds),
        }
    }
}

/// The error for a pool that could not connect, with the engine's words.
pub fn connect_failure(detail: &str) -> (error: DatabaseError)
    ensures
        error@ == ErrorView::Connection("Failed to connect to database pool: "@ + detail@),
{
    DatabaseError::Connection(String::from_str("Failed to connect to database pool: ").concat(detail))
}

/// The error for a health check that failed, with the engine's words.
pub fn health_failure(detail: &str) -> (error: DatabaseError)
    ensures
        error@ == ErrorView::Connection("Health check failed: "@ + detail@),
{
    DatabaseError::Connection(String::from_str("Health check failed: ").concat(detail))
}

} // verus!
