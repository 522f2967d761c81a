//! Plain-value durations.
//!
//! The raw configuration source represents the graceful shutdown timeout as
//! a signed duration; the validated configuration holds an unsigned one. A
//! negative timeout is a validation failure, never a clamped value.

use vstd::prelude::*;

use crate::errors::ConfigError;

verus! {

pub const NANOS_PER_SEC: u32 = 1_000_000_000;

/// A non-negative duration: whole seconds plus a sub-second remainder.
#[derive(Clone, Copy, Debug, PartialEq, Eq, Structural)]
pub struct Duration {
    pub secs: u64,
    pub nanos: u32,
}

impl Duration {
    /// Well-formed: the nanosecond part is a sub-second remainder.
    pub open spec fn wf(&self) -> bool {
        self.nanos < NANOS_PER_SEC
    }

    /// A duration of whole seconds.
    pub fn from_secs(secs: u64) -> (r: Duration)
        ensures
            r.secs == secs,
            r.nanos == 0,
            r.wf(),
    {
        Duration { secs, nanos: 0 }
    }
}

/// A signed duration as the raw source carries it: seconds and a sub-second
/// nanosecond remainder, both zero, both non-negative or both non-positive.
#[derive(Clone, Copy, Debug, PartialEq, Eq, Structural)]
pub struct SignedDuration {
    pub secs: i64,
    pub nanos: i32,
}

impl SignedDuration {
    /// Well-formed: the nanosecond part is a sub-second remainder whose sign
    /// agrees with the seconds part.
    pub open spec fn wf(&self) -> bool {
        &&& -(NANOS_PER_SEC as int) < self.nanos < NANOS_PER_SEC as int
        &&& (self.secs > 0 ==> self.nanos >= 0)
        &&& (self.secs < 0 ==> self.nanos <= 0)
    }

    /// Strictly below zero.
    pub open spec fn spec_is_negative(&self) -> bool {
        self.secs < 0 || self.nanos < 0
    }

    /// Whether the duration is strictly below zero.
    pub fn is_negative(&self) -> (r: bool)
        ensures
            r == self.spec_is_negative(),
    {
        self.secs < 0 || self.nanos < 0
    }
}

/// Validates a raw shutdown timeout: a non-negative duration converts to the
/// equal unsigned duration, a negative one is rejected outright.
pub fn validate_shutdown_timeout(raw: SignedDuration) -> (r: Result<Duration, ConfigError>)
    requires
        raw.wf(),
    ensures
        r == spec_validate_shutdown_timeout(raw),
        r is Ok <==> !raw.spec_is_negative(),
        r is Ok ==> r->Ok_0.wf(),
{
    if raw.is_negative() {
        Err(ConfigError::NegativeShutdownTimeout)
    } else {
        Ok(Duration { secs: raw.secs as u64, nanos: raw.nanos as u32 })
    }
}

/// What validation returns for a given raw timeout.
pub open spec fn spec_validate_shutdown_timeout(raw: SignedDuration) -> Result<
    Duration,
    ConfigError,
> {
    if raw.spec_is_negative() {
        Err(ConfigError::NegativeShutdownTimeout)
    } else {
        Ok(Duration { secs: raw.secs as u64, nanos: raw.nanos as u32 })
    }
}

} // verus!
