//! Admission of statements signed by an off-chain authority, and the
//! replay-protected settlement of the rewards they grant.
//!
//! A trusted signer states consensus proofs, badges and reward grants.
//! Anyone may relay a statement, but it is applied only if the step before
//! it in the same transaction verified its signature under the configured
//! key, and only once: a proof and a badge by the key they are kept under,
//! a grant by the nonce of its claim record.
//!
//! - [`instructions`] holds the operations, each on the records it touches.
//! - [`ledger`] keeps the records by key and runs the operations on them.
//! - [`guarantees`] states what holds over more than one operation.
//! - [`codec`] reads statements out of messages, [`utils`] checks
//!   signatures and the authority of the program, [`states`] and [`table`]
//!   hold the records, [`errors`] says why an operation was refused.

pub mod codec;
pub mod errors;
pub mod guarantees;
pub mod instructions;
pub mod ledger;
pub mod pubkey;
pub mod states;
pub mod table;
pub mod utils;
