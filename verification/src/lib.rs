//! Small, independent building blocks illustrating ownership, borrowing,
//! duplication, and reference-counted sharing around a configuration value.

pub mod config;
pub mod sharing;
pub mod versioned;
