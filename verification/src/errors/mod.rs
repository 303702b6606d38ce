//! Why an operation was refused.

pub mod error;
