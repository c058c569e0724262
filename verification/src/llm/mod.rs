//! Language-model backend: analysis report types, prompt texts, reply parsing and the retry
//! policy of the engine.

pub mod analysis;
pub mod engine;
pub mod parser;
pub mod prompt;
pub mod cleanup;
