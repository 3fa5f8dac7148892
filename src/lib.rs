//! Ingestion of outside content (GitHub activity, web pages, local files)
//! into uniform, uniquely identified records ready for semantic storage.

pub mod text;
pub mod document;
pub mod github;
pub mod loader;
pub mod markup;
pub mod models;
pub mod site;
pub mod time;
