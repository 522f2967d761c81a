//! Fatal configuration errors.
//!
//! Every variant describes a reason the process must refuse to start:
//! configuration is loaded once, before any request is served, and a value
//! that cannot be validated aborts startup rather than degrading it.

use vstd::prelude::*;

verus! {

/// A fatal startup error raised while resolving the profile or loading and
/// validating the configuration sections.
#[derive(Clone, Copy, Debug, PartialEq, Eq, Structural)]
pub enum ConfigError {
    /// The profile secret held neither of the two recognized values.
    UnknownProfile,
    /// The required `server` section is absent from the source.
    MissingServerSection,
    /// A required field of the `server` section is absent.
    MissingServerField,
    /// A required field of a present `databaseconfig` section is absent.
    MissingDatabaseField,
    /// A required field of a present `opendalconfig` section is absent.
    MissingStorageField,
    /// A numeric-as-string field did not parse as an unsigned 16-bit integer.
    InvalidPort,
    /// The graceful shutdown timeout was negative.
    NegativeShutdownTimeout,
}

impl ConfigError {
    /// A short stable description of the failed validation, for startup logs.
    pub fn describe(&self) -> (r: &'static str)
        ensures
            r@ == self.spec_describe(),
    {
        match self {
            ConfigError::UnknownProfile => "unrecognized application profile",
            ConfigError::MissingServerSection => "missing server configuration section",
            ConfigError::MissingServerField => "missing field in server configuration section",
            ConfigError::MissingDatabaseField => "missing field in database configuration section",
            ConfigError::MissingStorageField => "missing field in storage configuration section",
            ConfigError::InvalidPort => "port is not an unsigned 16-bit integer",
            ConfigError::NegativeShutdownTimeout => "graceful shutdown timeout must be positive",
        }
    }

    /// The description each variant carries.
    pub open spec fn spec_describe(&self) -> Seq<char> {
        match self {
            ConfigError::UnknownProfile => "unrecognized application profile"@,
            ConfigError::MissingServerSection => "missing server configuration section"@,
            ConfigError::MissingServerField => "missing field in server configuration section"@,
            ConfigError::MissingDatabaseField => "missing field in database configuration section"@,
            ConfigError::MissingStorageField => "missing field in storage configuration section"@,
            ConfigError::InvalidPort => "port is not an unsigned 16-bit integer"@,
            ConfigError::NegativeShutdownTimeout => "graceful shutdown timeout must be positive"@,
        }
    }
}

} // verus!
