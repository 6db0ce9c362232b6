//! Zero-knowledge proof circuits for shielded value transfer: a Spend
//! circuit (the right to consume an existing note) and an Output circuit
//! (a newly created note is well-formed), together with the protocol for
//! proving and verifying them against an ordered vector of public inputs.

pub mod backend;
pub mod cs;
pub mod field;
pub mod laws;
pub mod merkle;
pub mod note;
pub mod output;
pub mod spend;
