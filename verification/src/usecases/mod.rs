//! The use cases: authorization, guards and audit records around every
//! operation. Each operation is split into the steps that decide (here, all
//! verified) and the repository and mail I/O between them, which the host
//! performs in between and feeds back as plain values.

pub mod actor;
pub mod api_keys;
pub mod audit;
pub mod auth;
pub mod credential_flows;
pub mod ctx;
pub mod error;
pub mod login;
pub mod org;
pub mod permissions;
pub mod reset_request;
pub mod roles;
pub mod users;
