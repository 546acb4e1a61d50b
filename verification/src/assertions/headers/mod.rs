//! Assertions on HTTP header types.

pub mod header_value;
