//! The adapters' own logic: token generation and hashing, password hashing,
//! decoding stored rows into entities, the values listing queries bind, and
//! the first-boot seed plan. The database and mail I/O around them stays with
//! the host.

pub mod db_error;
pub mod hasher;
pub mod mappers;
pub mod queries;
pub mod seed;
pub mod tokens;
