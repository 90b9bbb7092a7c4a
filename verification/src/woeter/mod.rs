//! Filling the catalog with the help of a language model: configuration,
//! prompts and the handling of the requested words.

pub mod config;
pub mod handlers;
pub mod llm;
pub mod notion;
pub mod prompts;
pub mod stream;
pub mod tree;
