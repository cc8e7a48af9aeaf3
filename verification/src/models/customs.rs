//! Customs inspections.

use crate::validation::{
    custom_errors, invalid, same_text, Checks, FieldErrorText, ValidationErrors,
};
use vstd::prelude::*;

verus! {

/// A stored customs inspection.
#[derive(Debug)]
pub struct CustomsInspection {
    pub id: i64,
    pub status: String,
    pub notes: Option<String>,
    pub inspected_by: Option<String>,
    pub container_id: String,
    pub created_at: String,
}

/// A customs inspection to be created.
#[derive(Debug)]
pub struct CreateCustomsInspection {
    pub status: String,
    pub notes: Option<String>,
    pub inspected_by: Option<String>,
}

/// The states an inspection can be in.
pub open spec fn is_inspection_status(status: Seq<char>) -> bool {
    status == "PENDING"@ || status == "IN_PROGRESS"@ || status == "COMPLETED"@ || status
        == "FAILED"@
}

/// Accepts exactly the four inspection states.
pub fn validate_inspection_status(status: &str) -> (result: Result<
    (),
    validator::ValidationError,
>)
    ensures
        result is Ok <==> is_inspection_status(status@),
{
    if same_text(status, "PENDING") || same_text(status, "IN_PROGRESS") || same_text(
        status,
        "COMPLETED",
    ) || same_text(status, "FAILED") {
        Ok(())
    } else {
        Err(invalid("invalid_status"))
    }
}

impl CreateCustomsInspection {
    /// The failed checks of this record: the status must be an inspection
    /// state.
    pub open spec fn errors(&self) -> Seq<FieldErrorText> {
        custom_errors("status"@, is_inspection_status(self.status@), "invalid_status"@)
    }

    /// Checks the record; an error lists every field that failed.
    pub fn validate(&self) -> (result: Result<(), ValidationErrors>)
        ensures
            result is Ok <==> self.errors().len() == 0,
            result is Err ==> result->Err_0@ == self.errors(),
    {
        let mut checks = Checks::new();
        checks.custom("status", validate_inspection_status(self.status.as_str()), "invalid_status");
        checks.finish()
    }
}

} // verus!
