//! The engine and the lifecycle operations: one module per public entry
//! point, each a verified decision from supplied records to an updated record
//! or an error. Reading the records in, persisting the results and notifying
//! caches belong to the surrounding host.

pub mod add_rule;
pub mod allowed;
pub mod assign_role;
pub mod delete_assigned_role;
pub mod delete_file;
pub mod delete_rule;
pub mod initialize_files;
pub mod update_cache;
pub mod update_file;
pub mod update_metadata;
