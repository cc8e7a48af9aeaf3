//! Ingestion of UN/EDIFACT container messages (BAPLIE, COARRI, CODECO) for a
//! terminal operating system: a tolerant segment tokenizer, three stream
//! parsers, and the coordinator that stores a message with its parsed rows.

pub mod decimal;
pub mod middleware;
pub mod models;
pub mod routes;
pub mod services;
pub mod store;
pub mod text;
pub mod validation;
