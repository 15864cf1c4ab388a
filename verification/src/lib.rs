//! Analysis of a parsed bank statement: aggregate figures, a structured
//! context for a free-text question, and an answer chosen by the question's
//! intent.
//!
//! Money is held in whole cents, so every sum in this crate is exact.

pub mod context;
pub mod generators;
pub mod models;
pub mod router;
pub mod services;
pub mod store;
pub mod summary;
pub mod text;
