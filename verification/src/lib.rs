//! An authorization-decision core for contract execution handlers.
//!
//! The library models who may invoke an action as a [`authorization::PermissionGroup`]:
//! either open to anyone (`Public`) or restricted to an explicit list of
//! addresses (`Restricted`). Polymorphic sources produce permission groups
//! for a given execution context; the evaluator queries every source, merges
//! the groups under the exclusive-public rule, and checks the caller address
//! against the merged result.

pub mod authorization;
pub mod context;
pub mod error;
