//! The operations, each on the records that it touches.

pub mod claim;
pub mod initialize;
pub mod update;
pub mod upload_badge;
pub mod upload_validation;
pub mod withdraw;
