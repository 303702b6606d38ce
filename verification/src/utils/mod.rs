//! The checks that rest on the platform: that a statement was signed by the
//! key it is held against, and that the program is the authority it acts
//! as.

pub mod authority;
pub mod ed25519;
pub mod instructions;
