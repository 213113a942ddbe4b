//! What the program does with the data: messages, signals, reports, updates.
pub mod provider_errors;
pub mod signal_streak;
pub mod signal;
pub mod backtest;
pub mod updater;
pub mod bootstrap;
pub mod report;
pub mod email;
