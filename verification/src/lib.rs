//! Converts a structured-data document between three textual formats
//! (JSON, TOML and YAML) by parsing the input into a generic value tree
//! and re-emitting it in the requested target format.
//!
//! The library holds the conversion pipeline itself: extension-based
//! format detection, the validation steps and their order, and the error
//! taxonomy. Reading the input file and persisting the output are left to
//! the caller, which hands the pipeline the file's content and the two
//! existence facts as plain values.

pub mod app;
pub mod cli;
pub mod codec;
pub mod converter;
pub mod error;
pub mod paths;
pub mod reader;
pub mod writer;
