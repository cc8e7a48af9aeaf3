//! Message processing services.

pub mod edi;
