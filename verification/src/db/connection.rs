//! Database connection settings and the errors of the connection layer.
use vstd::prelude::*;

use crate::config::AppConfig;
use crate::text::{lemma_remove_all_absent, lemma_remove_all_prefix, remove_all, spec_occurs_at, spec_remove_all};

verus! {

/// An error reported by the database (SQLite, through `sqlx`), as text.
#[derive(Debug, Clone, PartialEq, Eq)]
pub struct DatabaseError {
    /// What the database reported.
    pub message: String,
}

/// Errors of setting up the connection pool.
#[derive(Debug, Clone, PartialEq, Eq)]
pub enum PoolError {
    /// The pool could not be created.
    PoolNotCreated(DatabaseError),
    /// A setting the pool needs is missing.
    MissingConfig(String),
    /// The configuration could not be loaded.
    ConfigError(String),
    /// The schema migration failed.
    MigrationFailed(String),
    /// The connection settings were not initialized before use.
    ConnectionNotInitialized(),
}

/// The message of a pool error.
pub open spec fn pool_error_text(e: PoolError) -> Seq<char> {
    match e {
        PoolError::PoolNotCreated(d) => "Pool can not be created, error: "@ + d.message@,
        PoolError::MissingConfig(m) => "Pool can not be created due to missing config, error: "@ + m@,
        PoolError::ConfigError(m) => "Can not load config, error: "@ + m@,
        PoolError::MigrationFailed(m) => "Migration run failed, error: "@ + m@,
        PoolError::ConnectionNotInitialized() => "Connection not initialized"@,
    }
}

impl PoolError {
    /// The message shown for this error.
    pub fn message(&self) -> (res: String)
        ensures
            res@ == pool_error_text(*self),
    {
        match self {
            PoolError::PoolNotCreated(d) => String::from_str("Pool can not be created, error: ").concat(
                d.message.as_str(),
            ),
            PoolError::MissingConfig(m) => String::from_str(
                "Pool can not be created due to missing config, error: ",
            ).concat(m.as_str()),
            PoolError::ConfigError(m) => String::from_str("Can not load config, error: ").concat(
                m.as_str(),
            ),
            PoolError::MigrationFailed(m) => String::from_str("Migration run failed, error: ").concat(
                m.as_str(),
            ),
            PoolError::ConnectionNotInitialized() => String::from_str("Connection not initialized"),
        }
    }
}

/// The connection settings the pool is created from.
#[derive(Debug, Clone)]
pub struct Connection {
    /// The resolved application configuration.
    pub config: AppConfig,
}

/// The URL scheme that is stripped from the database URL to get the file name.
pub open spec fn sqlite_scheme() -> Seq<char> {
    seq!['s', 'q', 'l', 'i', 't', 'e', ':', '/', '/']
}

impl Connection {
    /// The SQLite file the pool opens: the database URL with every
    /// `sqlite://` taken out (`db_url.replace("sqlite://", "")`).
    pub fn database_filename(&self) -> (res: String)
        ensures
            res@ == spec_remove_all(self.config.db_url@, sqlite_scheme()),
    {
        let scheme = "sqlite://";
        proof {
            reveal_strlit("sqlite://");
            assert(scheme@ =~= sqlite_scheme());
        }
        remove_all(self.config.db_url.as_str(), scheme)
    }
}

/// A database URL that does not mention `sqlite://` is used as the file name as it is.
pub proof fn lemma_plain_path_kept(db_url: Seq<char>)
    requires
        forall|i: int| !spec_occurs_at(db_url, i, sqlite_scheme()),
    ensures
        spec_remove_all(db_url, sqlite_scheme()) == db_url,
{
    lemma_remove_all_absent(db_url, sqlite_scheme());
}

/// A database URL `sqlite://<path>` names the file `<path>` (when the path
/// does not itself mention `sqlite://`).
pub proof fn lemma_scheme_stripped(path: Seq<char>)
    requires
        forall|i: int| !spec_occurs_at(path, i, sqlite_scheme()),
    ensures
        spec_remove_all(sqlite_scheme() + path, sqlite_scheme()) == path,
{
    lemma_remove_all_prefix(sqlite_scheme(), path);
}

} // verus!
