//! The EDIFACT tokenizer and the three message parsers.

pub mod baplie_parser;
pub mod coarri_parser;
pub mod codeco_parser;
pub mod ingestion;
pub mod tokenizer;

pub use baplie_parser::parse_baplie;
pub use coarri_parser::parse_coarri;
pub use codeco_parser::parse_codeco;
pub use tokenizer::tokenize;
