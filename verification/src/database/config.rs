//! The database settings: where the database is and how many connections
//! the pool may open.
use vstd::prelude::*;
use vstd::string::*;

use crate::config::{setting_or, unsigned_setting};

verus! {

/// The pool size when `DATABASE_MAX_CONNECTIONS` is not set or not a number.
pub const DEFAULT_MAX_CONNECTIONS: usize = 10;

/// The database settings.
pub struct DatabaseConfig {
    pub database_url: String,
    pub max_connections: usize,
}

/// A required setting that is missing.
pub struct DatabaseConfigError {
    pub message: String,
}

impl DatabaseConfig {
    /// The settings from the values of `DATABASE_URL`, which is required,
    /// and `DATABASE_MAX_CONNECTIONS`, which defaults to 10 when missing or
    /// not a number.
    pub fn from_values(database_url: Option<String>, max_connections: Option<String>) -> (r: Result<
        Self,
        DatabaseConfigError,
    >)
        ensures
            match database_url {
                Some(u) => (r matches Ok(c) && c.database_url == u && c.max_connections == setting_or(
                    max_connections,
                    usize::MAX as int,
                    10,
                )),
                None => (r matches Err(e) && e.message@ == "DATABASE_URL environment variable not set"@),
            },
    {
        let database_url = match database_url {
            Some(u) => u,
            None => {
                return Err(
                    DatabaseConfigError {
                        message: String::from_str("DATABASE_URL environment variable not set"),
                    },
                );
            },
        };
        let n = unsigned_setting(&max_connections, usize::MAX as u64, DEFAULT_MAX_CONNECTIONS as u64);
        Ok(DatabaseConfig { database_url, max_connections: n as usize })
    }
}

} // verus!
