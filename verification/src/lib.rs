//! Fluent assertions whose outcomes and failure reports are specified and proved.

pub mod text;
pub mod render;
pub mod failure;
pub mod assert_that;
pub mod assertions;
pub mod matching;
pub mod laws;
