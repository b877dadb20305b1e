//! The unverified boundary: every call that leaves this crate is made here,
//! behind a contract that Verus takes on trust.

pub mod channel;
pub mod codec;
pub mod jwt;
pub mod text;
