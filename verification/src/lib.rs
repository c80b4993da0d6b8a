//! Core of a role-guarded content-management API: stateless bearer-token
//! identity, a tiered role hierarchy, and the pure authorization decision
//! functions that govern what a caller may see, change and assign.

pub mod alphabet;
pub mod analytics;
pub mod authorization;
pub mod dto;
pub mod errors;
pub mod identity;
pub mod pagination;
pub mod roles;
pub mod settings;
pub mod strutil;
pub mod subject;
pub mod token;
