//! The business rules, as synchronous functions over already-loaded data.

pub mod authz;
pub mod matrix_rules;
pub mod password_policy;
pub mod role_guards;
