//! From the bytes of a message to the statement that it makes.

pub mod hex;
pub mod json;
pub mod text;
