//! Checks on the records that callers send, and the errors they yield.

use crate::text::{chars_of, text_is};
use vstd::prelude::*;

verus! {

#[verifier::external_type_specification]
#[verifier::external_body]
pub struct ExValidationError(validator::ValidationError);

/// Calls `validator::ValidationError::new`, which builds an error that
/// carries `code` and neither message nor parameters. Nothing is claimed of
/// the value.
#[verifier::external_body]
pub(crate) fn invalid(code: &'static str) -> (error: validator::ValidationError) {
    validator::ValidationError::new(code)
}

/// One failed check: the field it was made on and the code of the check.
#[derive(Debug, Clone)]
pub struct FieldError {
    pub field: String,
    pub code: String,
}

/// The text of a `FieldError`.
pub struct FieldErrorText {
    pub field: Seq<char>,
    pub code: Seq<char>,
}

impl View for FieldError {
    type V = FieldErrorText;

    open spec fn view(&self) -> FieldErrorText {
        FieldErrorText { field: self.field@, code: self.code@ }
    }
}

/// The failed checks of one record, in the order of its fields. Never empty
/// when returned as an error.
#[derive(Debug, Clone)]
pub struct ValidationErrors {
    pub errors: Vec<FieldError>,
}

impl View for ValidationErrors {
    type V = Seq<FieldErrorText>;

    open spec fn view(&self) -> Seq<FieldErrorText> {
        self.errors@.map_values(|e: FieldError| e@)
    }
}

/// What a check that asks for at least one character yields on `value`.
pub open spec fn length_errors(field: Seq<char>, value: Seq<char>) -> Seq<FieldErrorText> {
    if value.len() >= 1 {
        Seq::empty()
    } else {
        seq![FieldErrorText { field, code: "length"@ }]
    }
}

/// What a check with a code of its own yields when it `passed` or not.
pub open spec fn custom_errors(field: Seq<char>, passed: bool, code: Seq<char>) -> Seq<
    FieldErrorText,
> {
    if passed {
        Seq::empty()
    } else {
        seq![FieldErrorText { field, code }]
    }
}

/// Whether two texts hold the same characters.
pub fn same_text(a: &str, b: &str) -> (same: bool)
    ensures
        same == (a@ == b@),
{
    let chars = chars_of(a);
    text_is(&chars, b)
}

/// The checks made on one record, gathered field by field.
pub struct Checks {
    pub errors: Vec<FieldError>,
}

impl View for Checks {
    type V = Seq<FieldErrorText>;

    open spec fn view(&self) -> Seq<FieldErrorText> {
        self.errors@.map_values(|e: FieldError| e@)
    }
}

impl Checks {
    /// No check made yet.
    pub fn new() -> (checks: Checks)
        ensures
            checks@ == Seq::<FieldErrorText>::empty(),
    {
        let checks = Checks { errors: Vec::new() };
        assert(checks@ =~= Seq::<FieldErrorText>::empty());
        checks
    }

    /// Asks that `value` has at least one character.
    pub fn length(&mut self, field: &str, value: &str)
        ensures
            final(self)@ == old(self)@ + length_errors(field@, value@),
    {
        if value.is_empty() {
            let ghost before = self@;
            let error = FieldError { field: field.to_owned(), code: "length".to_owned() };
            self.errors.push(error);
            assert(self@ =~= before + length_errors(field@, value@));
        } else {
            assert(self@ =~= self@ + length_errors(field@, value@));
        }
    }

    /// Takes in the outcome of a check that has a code of its own.
    pub fn custom(&mut self, field: &str, outcome: Result<(), validator::ValidationError>, code: &str)
        ensures
            final(self)@ == old(self)@ + custom_errors(field@, outcome is Ok, code@),
    {
        match outcome {
            Ok(_) => {
                assert(self@ =~= self@ + custom_errors(field@, true, code@));
            },
            Err(_) => {
                let ghost before = self@;
                let error = FieldError { field: field.to_owned(), code: code.to_owned() };
                self.errors.push(error);
                assert(self@ =~= before + custom_errors(field@, false, code@));
            },
        }
    }

    /// The outcome of all checks: an error exactly when one of them failed.
    pub fn finish(self) -> (result: Result<(), ValidationErrors>)
        ensures
            result is Ok <==> self@.len() == 0,
            result is Err ==> result->Err_0@ == self@,
    {
        if self.errors.len() == 0 {
            Ok(())
        } else {
            Err(ValidationErrors { errors: self.errors })
        }
    }
}

} // verus!
