//! A small line-oriented text search library.
//!
//! Given a query string and a body of text, the matchers return every line of
//! the text that contains the query as a contiguous substring, either with
//! exact comparison or after folding both sides to lowercase. A configuration
//! builder turns a plain argument list into the run parameters.

pub mod config;
pub mod laws;
pub mod lines;
pub mod matcher;
pub mod substring;

pub use config::Config;
pub use config::ConfigError;
pub use lines::split_lines;
pub use matcher::run_search;
pub use matcher::search;
pub use matcher::search_case_insensitive;
pub use substring::contains_str;
