//! The decision core of a small record service: three entities, each of which
//! can be created and listed, behind a pooled relational store.
//!
//! Nothing here performs I/O. The surrounding server hands in plain values and
//! carries out what the functions of this crate decide.

pub mod errors;
pub mod laws;
pub mod lifecycle;
pub mod models;
pub mod pool;
pub mod requests;
pub mod routes;
pub mod store;
pub mod text;
