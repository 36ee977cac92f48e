//! Verified core of the TODO backend: title rules, configuration parsing,
//! the decisions of the HTTP handlers, the SQL statements sent to the
//! database and the CORS policy.

pub mod config;
pub mod cors;
pub mod error;
pub mod text;
pub mod todo;
