//! Yard tasks.

use crate::validation::{
    custom_errors, invalid, length_errors, same_text, Checks, FieldErrorText, ValidationErrors,
};
use vstd::prelude::*;

verus! {

/// A stored task.
#[derive(Debug)]
pub struct Task {
    pub id: i64,
    pub title: String,
    pub description: Option<String>,
    pub status: String,
    pub assignee: Option<String>,
    pub container_id: Option<String>,
    pub created_at: String,
    pub updated_at: String,
}

/// A task to be created.
#[derive(Debug)]
pub struct CreateTask {
    pub title: String,
    pub description: Option<String>,
    pub status: String,
    pub assignee: Option<String>,
    pub container_id: Option<String>,
}

/// The new content of a task.
#[derive(Debug)]
pub struct UpdateTask {
    pub title: String,
    pub description: Option<String>,
    pub status: String,
    pub assignee: Option<String>,
    pub container_id: Option<String>,
}

/// The states a task can be in.
pub open spec fn is_task_status(status: Seq<char>) -> bool {
    status == "PENDING"@ || status == "IN_PROGRESS"@ || status == "COMPLETED"@
}

/// Accepts exactly the three task states.
pub fn validate_task_status(status: &str) -> (result: Result<(), validator::ValidationError>)
    ensures
        result is Ok <==> is_task_status(status@),
{
    if same_text(status, "PENDING") || same_text(status, "IN_PROGRESS") || same_text(
        status,
        "COMPLETED",
    ) {
        Ok(())
    } else {
        Err(invalid("invalid_status"))
    }
}

/// The failed checks of a task with this title and status: the title needs
/// a character, the status must be a task state.
pub open spec fn task_errors(title: Seq<char>, status: Seq<char>) -> Seq<FieldErrorText> {
    length_errors("title"@, title) + custom_errors(
        "status"@,
        is_task_status(status),
        "invalid_status"@,
    )
}

/// Checks a title and a status as a task's.
pub fn validate_task(title: &str, status: &str) -> (result: Result<(), ValidationErrors>)
    ensures
        result is Ok <==> task_errors(title@, status@).len() == 0,
        result is Err ==> result->Err_0@ == task_errors(title@, status@),
{
    let mut checks = Checks::new();
    checks.length("title", title);
    checks.custom("status", validate_task_status(status), "invalid_status");
    checks.finish()
}

impl CreateTask {
    /// Checks the record; an error lists every field that failed.
    pub fn validate(&self) -> (result: Result<(), ValidationErrors>)
        ensures
            result is Ok <==> task_errors(self.title@, self.status@).len() == 0,
            result is Err ==> result->Err_0@ == task_errors(self.title@, self.status@),
    {
        validate_task(self.title.as_str(), self.status.as_str())
    }
}

impl UpdateTask {
    /// Checks the record; an error lists every field that failed.
    pub fn validate(&self) -> (result: Result<(), ValidationErrors>)
        ensures
            result is Ok <==> task_errors(self.title@, self.status@).len() == 0,
            result is Err ==> result->Err_0@ == task_errors(self.title@, self.status@),
    {
        validate_task(self.title.as_str(), self.status.as_str())
    }
}

} // verus!
