//! Identity and role-based access control for a studio organization: users,
//! roles and the permission matrix, organization settings, audit events and
//! service-account API keys, with the business rules that guard them.

pub mod entities;
pub mod error;
pub mod ids;
pub mod infra;
pub mod ports;
pub mod seed;
pub mod services;
pub mod text;
pub mod usecases;
