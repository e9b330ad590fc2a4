//! Helpers shared by the engine and the lifecycle operations: string
//! validation, fee computation, role and rule predicates.

pub mod file;
pub mod roles;
pub mod rules;
pub mod strings;
