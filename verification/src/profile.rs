//! Deployment profile selection.
//!
//! The profile is read once at startup from a secret store under a fixed
//! key. Only the two literal values `dev` and `prod` are recognized; any
//! other value — the empty string that an absent key yields included — is a
//! fatal error, so that a typo can never silently select a profile.

use vstd::prelude::*;

use crate::errors::ConfigError;
use crate::text::str_eq;

verus! {

/// The deployment profile, resolved once at startup and immutable after.
#[derive(Clone, Copy, Debug, PartialEq, Eq, Structural)]
pub enum Profile {
    Development,
    Production,
}

/// The fixed key under which the secret store holds the profile value.
pub fn profile_secret_key() -> (r: &'static str)
    ensures
        r@ == "PX_PROFILE"@,
{
    "PX_PROFILE"
}

/// Resolves the deployment profile from the raw secret value.
///
/// Exactly `dev` selects Development and exactly `prod` selects Production;
/// every other value, the empty string included, is a fatal startup error.
pub fn resolve_profile(value: &str) -> (r: Result<Profile, ConfigError>)
    ensures
        r == spec_resolve_profile(value@),
{
    if str_eq(value, "dev") {
        Ok(Profile::Development)
    } else if str_eq(value, "prod") {
        Ok(Profile::Production)
    } else {
        Err(ConfigError::UnknownProfile)
    }
}

/// What `resolve_profile` returns for a given secret value.
pub open spec fn spec_resolve_profile(value: Seq<char>) -> Result<Profile, ConfigError> {
    if value == "dev"@ {
        Ok(Profile::Development)
    } else if value == "prod"@ {
        Ok(Profile::Production)
    } else {
        Err(ConfigError::UnknownProfile)
    }
}

} // verus!
