//! Repositories that serve resume content by language.

pub mod cv_toml_reader;

pub use cv_toml_reader::{resume_path, RepoError, ResumeRepository, TomlResumeRepository};
