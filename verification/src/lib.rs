//! Verified decision logic of the Ruby bindings' data frame readers and writers:
//! how the positional arguments of each reader and writer become the options that
//! are handed to the engine, where each writer sends its bytes, and how a failed
//! column-oriented JSON parse is answered.
pub mod json;
pub mod laws;
pub mod reader;
pub mod text;
pub mod writer;
