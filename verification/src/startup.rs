//! The startup decision sequence.
//!
//! What the process decides at startup, in order: resolve the profile from
//! the raw secret value, and only then load and validate the layered
//! configuration under that profile. An unrecognized profile fails before
//! any configuration section is read; any later fatal error carries the
//! stage it arose in. I/O — reading the secret store, the source files,
//! running migrations, binding resources — happens around this function,
//! which only decides.

use vstd::prelude::*;

use crate::configuration::ApplicationConfig;
use crate::configuration::ApplicationConfigView;
use crate::configuration::RawConfig;
use crate::configuration::RawConfigView;
use crate::configuration::load_application_config;
use crate::configuration::spec_load_application;
use crate::errors::ConfigError;
use crate::profile::Profile;
use crate::profile::resolve_profile;
use crate::profile::spec_resolve_profile;

verus! {

/// What the startup sequence yields for given raw inputs: the resolved
/// profile and the configuration loaded under it, or the first fatal error
/// — an unrecognized profile before any section is read.
pub open spec fn spec_startup(
    profile_value: Seq<char>,
    base: RawConfigView,
    dev: RawConfigView,
    prod: RawConfigView,
) -> Result<(Profile, ApplicationConfigView), ConfigError> {
    match spec_resolve_profile(profile_value) {
        Err(e) => Err(e),
        Ok(profile) => {
            match spec_load_application(profile, base, dev, prod) {
                Err(e) => Err(e),
                Ok(cfg) => Ok((profile, cfg)),
            }
        },
    }
}

/// Resolves the profile from the raw secret value, then loads the layered
/// configuration under it, failing fast at the first fatal error.
pub fn resolve_startup_config(
    profile_value: &str,
    base: RawConfig,
    dev_overrides: RawConfig,
    prod_overrides: RawConfig,
) -> (r: Result<(Profile, ApplicationConfig), ConfigError>)
    requires
        base@.wf(),
        dev_overrides@.wf(),
        prod_overrides@.wf(),
    ensures
        (match r {
            Ok((profile, cfg)) => spec_startup(
                profile_value@,
                base@,
                dev_overrides@,
                prod_overrides@,
            ) == Ok::<(Profile, ApplicationConfigView), ConfigError>((profile, cfg@)),
            Err(e) => spec_startup(profile_value@, base@, dev_overrides@, prod_overrides@)
                == Err::<(Profile, ApplicationConfigView), ConfigError>(e),
        }),
{
    let profile = match resolve_profile(profile_value) {
        Err(e) => {
            return Err(e);
        },
        Ok(p) => p,
    };
    match load_application_config(profile, base, dev_overrides, prod_overrides) {
        Err(e) => Err(e),
        Ok(cfg) => Ok((profile, cfg)),
    }
}

} // verus!
