//! Database connection factories.
//!
//! A validated `DatabaseConfig` is turned, on demand, into plain-value
//! connection options in two flavors: administrative options without a
//! target database, and application options with the database name attached
//! and statement logging enabled at trace severity. The pool description
//! derives from the latter; building it is pure local computation that can
//! never fail or touch the network.

use vstd::prelude::*;

use crate::configuration::DatabaseConfig;
use crate::duration::Duration;
use crate::secret::Secret;

verus! {

/// How many seconds a caller may wait to acquire a pooled connection.
pub const ACQUIRE_TIMEOUT_SECS: u64 = 2;

/// TLS posture of a connection: required outright, or opportunistic.
#[derive(Clone, Copy, Debug, PartialEq, Eq, Structural)]
pub enum SslMode {
    /// Refuse to connect unless the server speaks TLS.
    Require,
    /// Use TLS when available, connect in the clear otherwise.
    Prefer,
}

/// Statement-logging severity for the database driver.
#[derive(Clone, Copy, Debug, PartialEq, Eq, Structural)]
pub enum StatementLogLevel {
    Trace,
}

/// Connection options as plain values, derived on demand from the database
/// section and never stored.
pub struct ConnectionOptions {
    pub host: String,
    pub username: String,
    pub password: Secret,
    pub ssl_mode: SslMode,
    pub database: Option<String>,
    pub statement_log: Option<StatementLogLevel>,
}

/// The mathematical value of `ConnectionOptions`.
pub ghost struct ConnectionOptionsView {
    pub host: Seq<char>,
    pub username: Seq<char>,
    pub password: Seq<char>,
    pub ssl_mode: SslMode,
    pub database: Option<Seq<char>>,
    pub statement_log: Option<StatementLogLevel>,
}

impl View for ConnectionOptions {
    type V = ConnectionOptionsView;

    open spec fn view(&self) -> ConnectionOptionsView {
        ConnectionOptionsView {
            host: self.host@,
            username: self.username@,
            password: self.password@,
            ssl_mode: self.ssl_mode,
            database: match self.database {
                Some(ref d) => Some(d@),
                None => None,
            },
            statement_log: self.statement_log,
        }
    }
}

/// The TLS mode a configuration demands: required exactly when the section
/// says so, opportunistic otherwise.
pub open spec fn spec_ssl_mode(require_ssl: bool) -> SslMode {
    if require_ssl {
        SslMode::Require
    } else {
        SslMode::Prefer
    }
}

/// What the administrative options hold: host, user and password from the
/// section, the TLS mode it demands, no target database, no statement log.
pub open spec fn spec_without_db(cfg: crate::configuration::DatabaseConfigView) -> ConnectionOptionsView {
    ConnectionOptionsView {
        host: cfg.host,
        username: cfg.username,
        password: cfg.password,
        ssl_mode: spec_ssl_mode(cfg.require_ssl),
        database: None,
        statement_log: None,
    }
}

/// What the application options hold: the administrative options with the
/// configured database name attached and trace-level statement logging.
pub open spec fn spec_with_db(cfg: crate::configuration::DatabaseConfigView) -> ConnectionOptionsView {
    ConnectionOptionsView {
        database: Some(cfg.database_name),
        statement_log: Some(StatementLogLevel::Trace),
        ..spec_without_db(cfg)
    }
}

/// The description of the lazily constructed pool: the application options
/// plus the fixed acquire timeout.
pub struct PoolConfig {
    pub options: ConnectionOptions,
    pub acquire_timeout: Duration,
}

impl DatabaseConfig {
    /// Administrative connection options: no target database selected; TLS
    /// is required exactly when `require_ssl` is set, opportunistic
    /// otherwise.
    pub fn without_db(&self) -> (r: ConnectionOptions)
        ensures
            r@ == spec_without_db(self@),
    {
        let ssl_mode = if self.require_ssl {
            SslMode::Require
        } else {
            SslMode::Prefer
        };
        ConnectionOptions {
            host: self.host.clone(),
            username: self.username.clone(),
            password: self.password.clone(),
            ssl_mode,
            database: None,
            statement_log: None,
        }
    }

    /// Application connection options: the administrative options with the
    /// configured database name attached and statement logging enabled at
    /// trace severity.
    pub fn with_db(&self) -> (r: ConnectionOptions)
        ensures
            r@ == spec_with_db(self@),
    {
        let mut options = self.without_db();
        options.database = Some(self.database_name.clone());
        options.statement_log = Some(StatementLogLevel::Trace);
        options
    }

    /// Describes the connection pool: the application options bounded by the
    /// fixed two-second acquire timeout. Construction is pure local
    /// computation — it never performs I/O and never fails; the first real
    /// connection attempt is deferred to the first acquisition.
    pub fn get_database_pool(&self) -> (r: PoolConfig)
        ensures
            r.options@ == spec_with_db(self@),
            r.acquire_timeout == (Duration { secs: ACQUIRE_TIMEOUT_SECS, nanos: 0 }),
    {
        PoolConfig {
            options: self.with_db(),
            acquire_timeout: Duration::from_secs(ACQUIRE_TIMEOUT_SECS),
        }
    }
}

/// The administrative options demand TLS exactly when the configuration
/// requires it, and fall back to opportunistic TLS exactly otherwise, for
/// every boolean value of `require_ssl`.
pub proof fn lemma_ssl_mode_tracks_require_ssl(cfg: crate::configuration::DatabaseConfigView)
    ensures
        spec_without_db(cfg).ssl_mode == SslMode::Require <==> cfg.require_ssl,
        spec_without_db(cfg).ssl_mode == SslMode::Prefer <==> !cfg.require_ssl,
{
}

/// The application options differ from the administrative options exactly
/// by the attached database name and the trace-level statement log: every
/// other field agrees, for every database configuration.
pub proof fn lemma_with_db_extends_without_db(cfg: crate::configuration::DatabaseConfigView)
    ensures
        spec_with_db(cfg).host == spec_without_db(cfg).host,
        spec_with_db(cfg).username == spec_without_db(cfg).username,
        spec_with_db(cfg).password == spec_without_db(cfg).password,
        spec_with_db(cfg).ssl_mode == spec_without_db(cfg).ssl_mode,
        spec_without_db(cfg).database is None,
        spec_with_db(cfg).database == Some(cfg.database_name),
        spec_without_db(cfg).statement_log is None,
        spec_with_db(cfg).statement_log == Some(StatementLogLevel::Trace),
{
}

} // verus!
