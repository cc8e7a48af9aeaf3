//! Containers on the terminal.

use vstd::prelude::*;

verus! {

/// A stored container.
#[derive(Debug)]
pub struct Container {
    pub id: i64,
    pub container_id: String,
    pub bay: Option<String>,
    pub row: Option<String>,
    pub tier: Option<String>,
    pub size: Option<String>,
    pub container_type: Option<String>,
    pub created_at: String,
    pub updated_at: String,
}

/// A container to be created.
#[derive(Debug)]
pub struct CreateContainer {
    pub container_id: String,
    pub bay: Option<String>,
    pub row: Option<String>,
    pub tier: Option<String>,
    pub size: Option<String>,
    pub container_type: Option<String>,
}

} // verus!
