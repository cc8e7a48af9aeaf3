//! The event history of a container.

use crate::validation::{length_errors, Checks, FieldErrorText, ValidationErrors};
use vstd::prelude::*;

verus! {

/// A stored history entry.
#[derive(Debug)]
pub struct History {
    pub id: i64,
    pub event: String,
    pub description: Option<String>,
    pub container_id: String,
    pub created_at: String,
}

/// A history entry to be created.
#[derive(Debug)]
pub struct CreateHistory {
    pub event: String,
    pub description: Option<String>,
}

impl CreateHistory {
    /// The failed checks of this record: the event needs a character.
    pub open spec fn errors(&self) -> Seq<FieldErrorText> {
        length_errors("event"@, self.event@)
    }

    /// Checks the record; an error lists every field that failed.
    pub fn validate(&self) -> (result: Result<(), ValidationErrors>)
        ensures
            result is Ok <==> self.errors().len() == 0,
            result is Err ==> result->Err_0@ == self.errors(),
    {
        let mut checks = Checks::new();
        checks.length("event", self.event.as_str());
        checks.finish()
    }
}

} // verus!
