//! What the connection pool is built from, and how a failed checkout is read.

use crate::errors::ApiError;
use crate::text::same_text;
use vstd::prelude::*;

verus! {

/// The environment variable that holds the connection string.
pub const DATABASE_URL: &'static str = "DATABASE_URL";

/// The settings with which the pool is built.
#[derive(Debug, PartialEq)]
pub struct PoolSettings {
    /// The connection string of the one database the pool serves.
    pub database_url: String,
    /// Whether a connection is validated each time it is handed out.
    pub test_on_check_out: bool,
}

/// Why the pool cannot be configured.
#[derive(Debug, Clone, Copy, PartialEq, Eq, Structural)]
pub enum ConfigError {
    /// No connection string was supplied.
    MissingDatabaseUrl,
}

/// The settings for a pool on the database at `database_url`, where `None`
/// stands for a connection string that the environment does not hold.
/// Connections are validated on every checkout.
pub fn pool_settings(database_url: Option<String>) -> (settings: Result<PoolSettings, ConfigError>)
    ensures
        match database_url {
            Some(url) => settings == Ok::<PoolSettings, ConfigError>(
                PoolSettings { database_url: url, test_on_check_out: true },
            ),
            None => settings == Err::<PoolSettings, ConfigError>(ConfigError::MissingDatabaseUrl),
        },
{
    match database_url {
        Some(url) => Ok(PoolSettings { database_url: url, test_on_check_out: true }),
        None => Err(ConfigError::MissingDatabaseUrl),
    }
}

/// Why the pool handed out no connection.
#[derive(Debug, Clone, Copy, PartialEq, Eq, Structural)]
pub enum LeaseFailure {
    /// Every connection stayed in use until the pool gave up waiting.
    Exhausted,
    /// Establishing or validating a connection failed.
    Invalid,
}

/// How an r2d2 pool words a checkout that timed out with no connection error
/// on record. Where the last attempt to establish or validate a connection
/// left an error, the pool appends a colon, a space and that error.
pub open spec fn bare_timeout() -> Seq<char> {
    "timed out waiting for connection"@
}

impl LeaseFailure {
    /// The error with which a request fails when its checkout failed so.
    pub open spec fn spec_error(self) -> ApiError {
        match self {
            LeaseFailure::Exhausted => ApiError::PoolExhausted,
            LeaseFailure::Invalid => ApiError::ConnectionInvalid,
        }
    }

    /// The error with which a request fails when its checkout failed so.
    pub fn error(self) -> (error: ApiError)
        ensures
            error == self.spec_error(),
    {
        match self {
            LeaseFailure::Exhausted => ApiError::PoolExhausted,
            LeaseFailure::Invalid => ApiError::ConnectionInvalid,
        }
    }

    /// The failure that a report stands for.
    pub open spec fn spec_from_report(report: Seq<char>) -> LeaseFailure {
        if report == bare_timeout() {
            LeaseFailure::Exhausted
        } else {
            LeaseFailure::Invalid
        }
    }

    /// Reads the text with which the pool reports a failed checkout: the bare
    /// timeout means that the pool was exhausted, anything else that a
    /// connection could not be established or validated.
    pub fn from_report(report: &str) -> (failure: LeaseFailure)
        ensures
            failure == Self::spec_from_report(report@),
    {
        if same_text(report, "timed out waiting for connection") {
            LeaseFailure::Exhausted
        } else {
            LeaseFailure::Invalid
        }
    }
}

} // verus!
