//! Structured logging support: typed fields and their encoding.

pub mod field;
