//! A safety-oriented binding layer over an ODBC-style driver interface.
//!
//! The driver itself is reached through the [`driver::Driver`] trait, one
//! method per entry point of the C interface. The library owns the handle
//! hierarchy (environment, connection, statement), the column-buffer fetch
//! loop with its truncation policy, and the diagnostic-record collection;
//! all of that is verified against the contracts in these modules, for every
//! answer a driver may give.

pub mod binder;
pub mod codes;
pub mod diag;
pub mod driver;
pub mod error;
pub mod handles;
pub mod script;
pub mod symbols;
pub mod utf16;

pub use error::{Error, OdbcResult};
pub use handles::{Connection, Env, Statement};
pub use utf16::to_u16s;
