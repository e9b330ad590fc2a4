//! An embedded authorization engine for a multi-tenant resource-sharing
//! platform. Each managed resource (a [`state::file::File`]) carries an
//! owner-controlled policy made of role grants ([`state::role::Role`]) and
//! fine-grained permission rules ([`state::rule::Rule`]). The engine decides,
//! for a caller, a target file and a requested capability, whether the call is
//! allowed, and meters an optional per-call fee with a one-time rebate on a
//! principal's first interaction.

pub mod errors;
pub mod instructions;
pub mod state;
pub mod store;
pub mod utils;

pub use errors::Errors;
