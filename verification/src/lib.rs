//! Parsing, planning and formatting logic of a command-line tool that calls
//! C functions from shared libraries.

pub mod callback;
pub mod cli;
pub mod error;
pub mod ffi;
pub mod grammar;
pub mod library;
pub mod number;
pub mod output;
pub mod parser;
pub mod report;
pub mod spec_file;
pub mod text;
pub mod types;
