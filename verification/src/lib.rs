//! Verified core of a boot-time configuration reader.
//!
//! The library extracts a flat name-to-value mapping of string-valued boot
//! parameters from the observable content of a platform device/property
//! tree, and loads `key=value` configuration files selected by a small
//! path-resolution policy.  All decisions are made here over plain values;
//! the process that queries the platform store and the filesystem feeds
//! those values in and acts on the results.

pub mod bootparams;
pub mod config;
pub mod errors;
pub mod strmap;
pub mod utils;
