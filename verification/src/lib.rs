//! A data-access layer for user accounts: entity model, row mapping,
//! use-case-tagged error translation, and a repository over the accounts
//! and followings tables, verified against an in-memory model of the
//! storage engine.

pub mod errors;
pub mod laws;
pub mod repo;
pub mod row;
pub mod user;
