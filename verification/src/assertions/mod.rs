//! The assertion families, one module per kind of subject or relation.

pub mod boolean;
pub mod character;
pub mod partial_eq;
pub mod partial_ord;
pub mod collection;
pub mod slice;
pub mod array;
pub mod string;
pub mod length;
pub mod iterator;
pub mod into_iterator;
pub mod option;
pub mod result;
pub mod debug;
pub mod display;
pub mod identity;
pub mod exact_size;
pub mod pattern;
pub mod range;
pub mod poll;
pub mod ref_cell;
pub mod str_slice;
pub mod num;
pub mod headers;
pub mod invocation;
