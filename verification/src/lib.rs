//! Articles with ownership-checked, single-observation mutations.

pub mod domain;
pub mod global;
pub mod text;
