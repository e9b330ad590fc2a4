//! The records the engine operates on: files, roles, rules, metadata, and the
//! identities that key them.

pub mod file;
pub mod metadata;
pub mod pubkey;
pub mod role;
pub mod rule;
