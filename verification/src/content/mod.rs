//! The text that a new project is made of.
pub mod templates;
