use vstd::prelude::*;

verus! {

/// Where a SQL Server database is and how the pool of its connections is sized.
#[derive(Debug, Clone)]
pub struct MssqlConfig {
    pub host: String,
    pub port: u16,
    pub username: String,
    pub password: String,
    pub database: String,
    /// The most connections that the pool holds.
    pub pool_size: Option<u32>,
    /// The idle connections that the pool keeps.
    pub min_idle: Option<u32>,
    /// The seconds to wait for a connection from the pool.
    pub connection_timeout: Option<u32>,
}

/// The most connections that a pool holds by default.
pub const DEFAULT_POOL_SIZE: u32 = 10;

/// The seconds to wait for a connection by default.
pub const DEFAULT_CONNECTION_TIMEOUT_SECS: u32 = 30;

/// How a pool of connections is sized.
#[derive(Debug, Clone, Copy, PartialEq, Eq, Structural)]
pub struct PoolSettings {
    pub max_size: u32,
    pub min_idle: Option<u32>,
    pub connection_timeout_secs: u64,
}

impl MssqlConfig {
    /// How the pool is sized under this configuration: ten connections and
    /// thirty seconds of waiting where it says nothing else.
    pub open spec fn settings(self) -> PoolSettings {
        PoolSettings {
            max_size: match self.pool_size {
                Some(size) => size,
                None => DEFAULT_POOL_SIZE,
            },
            min_idle: self.min_idle,
            connection_timeout_secs: match self.connection_timeout {
                Some(secs) => secs as u64,
                None => DEFAULT_CONNECTION_TIMEOUT_SECS as u64,
            },
        }
    }

    /// How the pool is sized under this configuration.
    pub fn pool_settings(&self) -> (settings: PoolSettings)
        ensures
            settings == self.settings(),
    {
        PoolSettings {
            max_size: match self.pool_size {
                Some(size) => size,
                None => DEFAULT_POOL_SIZE,
            },
            min_idle: self.min_idle,
            connection_timeout_secs: match self.connection_timeout {
                Some(secs) => secs as u64,
                None => DEFAULT_CONNECTION_TIMEOUT_SECS as u64,
            },
        }
    }
}

} // verus!
