//! What the endpoints do, apart from their transport.

pub mod edi;
