//! A verified core for a two-sided remote-call ("chain extension") code
//! generator: deterministic derivation of numeric identifiers from names,
//! annotation parsing with explicit identifier overrides, compilation of
//! interface, implementation and error-enum declarations into registry,
//! guest-stub and host-dispatcher artifacts, and classification of handler
//! errors into critical and ordinary ones.

pub mod definition;
pub mod error;
pub mod implementation;
pub mod substrate;
pub mod types;
pub mod utils;
