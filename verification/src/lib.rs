//! Profile-aware configuration resolution for a small web service.
//!
//! The crate turns layered, partially secret configuration sources into
//! strongly typed, validated configuration sections, and derives from them
//! the plain-value descriptions of the long-lived resource handles (a lazy
//! database connection pool, an object-storage operator) that the process
//! constructs at startup. A small health-probe decision maps the outcome of
//! a storage round-trip onto an HTTP status code.

pub mod configuration;
pub mod database;
pub mod duration;
pub mod errors;
pub mod health;
pub mod profile;
pub mod secret;
pub mod startup;
pub mod storage;
pub mod text;
