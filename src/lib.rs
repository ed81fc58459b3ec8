//! Canonical text rendering of PostgreSQL result sets for SQL logic tests.

pub mod classify;
pub mod digits;
pub mod render;
pub mod value;
pub mod wire;
