//! Document storage on SurrealDB.
//!
//! A document is kept in three tables: one for its published version, one for its
//! draft and one for what is known about it. This crate decides what is sent to the
//! database and what is made of its answers: the scripts and their bindings, the order
//! of the steps of each operation, the meaning of each reply and of each failure. The
//! connection itself lies with the caller, who performs the steps.

pub mod binding;
pub mod document;
pub mod effect;
pub mod error;
pub mod expr;
pub mod json;
pub mod meaning;
pub mod number;
pub mod plan;
pub mod record;
pub mod script;
pub mod session;
pub mod setup;
pub mod text;
pub mod validation;
pub mod wrapper;
