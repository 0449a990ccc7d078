//! A multilingual resume library: a typed data model, a TOML-backed
//! repository that loads and caches one resume per language, and a
//! per-language table of fixed interface labels.

pub mod models;
pub mod repositories;
pub mod schema;
pub mod templates;
pub mod toml_data;
