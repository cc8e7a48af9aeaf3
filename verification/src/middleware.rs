//! Rules applied to every response.

pub mod cache;
