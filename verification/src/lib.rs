//! Daily market data collection, rule-based signals and reports.
pub mod calendar;
pub mod cli;
pub mod config;
pub mod models;
pub mod providers;
pub mod services;
pub mod sorting;
pub mod text;
pub mod utils;
