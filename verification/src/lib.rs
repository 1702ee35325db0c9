//! Scaffolding for Solana Pinocchio projects: the file templates that a new
//! project starts from, and the decisions of the command line tool.
pub mod cargo_log;
pub mod content;
pub mod keys;
pub mod manifest;
pub mod project;
pub mod text;

pub use project::is_valid_project_name;
