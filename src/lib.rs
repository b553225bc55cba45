//! A verified repository layer for user accounts: entity types, the error
//! taxonomy, the decisions that turn a row store's answers into typed results,
//! and an in-memory repository whose operations are proved against a map model.

pub mod clock;
pub mod date;
pub mod entity;
pub mod error;
pub mod ident;
pub mod laws;
pub mod memory;
pub mod outcome;
