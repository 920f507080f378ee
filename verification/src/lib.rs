//! Configuration subsystem of a static-site generator.
//!
//! The crate loads build-time settings from YAML text (or a built-in default
//! document), validates them, and exposes a typed, read-only configuration
//! snapshot plus a few derived path and content helpers.
//!
//! Reading the configuration file and listing the template directories are
//! left to the caller; the logic that turns the raw text into a validated
//! [`config::InkerConfig`] is verified.

pub mod config;
pub mod scalar;
pub mod tree;
