//! Parsing and calendar helpers.
pub mod csv;
pub mod date;
