//! Options that the application offers for every run of the underlying tool.

pub mod global;
