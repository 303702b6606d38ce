//! The records that the program keeps.

pub mod badge;
pub mod claim;
pub mod consensus;
