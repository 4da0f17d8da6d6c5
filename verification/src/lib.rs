//! Core of an interactive SQL client: connection profiles, per-backend
//! dialects, a read-only query gate, session metadata caches, and
//! normalized result sets.

pub mod config;
pub mod database;
pub mod error;
pub mod history;
pub mod query_gate;
pub mod text;
