//! Repeatable performance measurement of a command-line tool over a set of
//! sample projects, and version-tagged baselines derived from it.

pub mod assemble;
pub mod catalog;
pub mod discovery;
pub mod engine;
pub mod errors;
pub mod events;
pub mod ingest;
pub mod measure;
pub mod metric;
pub mod text;
pub mod types;
