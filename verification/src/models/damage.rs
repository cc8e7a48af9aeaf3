//! Damage reports and their photo lists.

use crate::validation::{length_errors, Checks, FieldErrorText, ValidationErrors};
use vstd::prelude::*;

verus! {

/// A stored damage report. The photos are held as the text of a JSON array
/// of strings.
#[derive(Debug)]
pub struct DamageReport {
    pub id: i64,
    pub description: String,
    pub reported_by: String,
    pub photos: Option<String>,
    pub container_id: String,
    pub created_at: String,
}

/// A damage report with its photos as a list.
#[derive(Debug)]
pub struct DamageReportWithPhotos {
    pub id: i64,
    pub description: String,
    pub reported_by: String,
    pub photos: Vec<String>,
    pub container_id: String,
    pub created_at: String,
}

/// A damage report to be created.
#[derive(Debug)]
pub struct CreateDamageReport {
    pub description: String,
    pub reported_by: String,
    pub photos: Option<Vec<String>>,
}

/// The strings held by a list of strings.
pub open spec fn strings_view(list: Seq<String>) -> Seq<Seq<char>> {
    list.map_values(|s: String| s@)
}

/// What `serde_json::from_str` reads from `text` as a list of strings: the
/// list, or nothing where the text is no JSON array of strings.
pub uninterp spec fn json_string_list(text: Seq<char>) -> Option<Seq<Seq<char>>>;

/// What `serde_json::to_string` writes for a list of strings: the text, or
/// nothing where it reports an error.
pub uninterp spec fn json_of_string_list(list: Seq<Seq<char>>) -> Option<Seq<char>>;

/// Calls `serde_json::from_str` for a `Vec<String>`. The outcome depends on
/// the text alone; an error is given as `None`.
#[verifier::external_body]
pub(crate) fn read_string_list(text: &str) -> (list: Option<Vec<String>>)
    ensures
        match list {
            Some(l) => json_string_list(text@) == Some(strings_view(l@)),
            None => json_string_list(text@) is None,
        },
{
    serde_json::from_str::<Vec<String>>(text).ok()
}

/// Calls `serde_json::to_string` on a `Vec<String>`. The outcome depends on
/// the list alone; an error is given as `None`.
#[verifier::external_body]
pub(crate) fn write_string_list(list: &Vec<String>) -> (text: Option<String>)
    ensures
        text.deep_view() == json_of_string_list(strings_view(list@)),
{
    serde_json::to_string(list).ok()
}

/// The photo list of a report: what its stored text holds, and no photo
/// where there is no text or the text cannot be read.
pub open spec fn photo_list(stored: Option<Seq<char>>) -> Seq<Seq<char>> {
    match stored {
        Some(text) => match json_string_list(text) {
            Some(list) => list,
            None => Seq::empty(),
        },
        None => Seq::empty(),
    }
}

/// The photo list to show, given what was read from the stored text.
pub fn photos_or_none(read: Option<Option<Vec<String>>>) -> (photos: Vec<String>)
    ensures
        strings_view(photos@) == match read {
            Some(Some(list)) => strings_view(list@),
            _ => Seq::empty(),
        },
{
    match read {
        Some(Some(list)) => list,
        _ => {
            let photos: Vec<String> = Vec::new();
            assert(strings_view(photos@) =~= Seq::empty());
            photos
        },
    }
}

/// The text under which a photo list is stored, given what was written for
/// it: the written text, or an empty JSON array where writing failed.
pub fn stored_photos(written: Option<Option<String>>) -> (stored: Option<String>)
    ensures
        stored.deep_view() == match written {
            Some(Some(text)) => Some(text@),
            Some(None) => Some("[]"@),
            None => None,
        },
{
    match written {
        Some(Some(text)) => Some(text),
        Some(None) => Some("[]".to_owned()),
        None => None,
    }
}

impl DamageReportWithPhotos {
    /// The report with its stored photo text read into a list.
    pub fn from(report: DamageReport) -> (shown: DamageReportWithPhotos)
        ensures
            shown.id == report.id,
            shown.description@ == report.description@,
            shown.reported_by@ == report.reported_by@,
            strings_view(shown.photos@) == photo_list(report.photos.deep_view()),
            shown.container_id@ == report.container_id@,
            shown.created_at@ == report.created_at@,
    {
        let read = match &report.photos {
            Some(text) => Some(read_string_list(text.as_str())),
            None => None,
        };
        DamageReportWithPhotos {
            id: report.id,
            description: report.description,
            reported_by: report.reported_by,
            photos: photos_or_none(read),
            container_id: report.container_id,
            created_at: report.created_at,
        }
    }
}

impl CreateDamageReport {
    /// The failed checks of this record: description and reporter each need
    /// a character.
    pub open spec fn errors(&self) -> Seq<FieldErrorText> {
        length_errors("description"@, self.description@) + length_errors(
            "reported_by"@,
            self.reported_by@,
        )
    }

    /// Checks the record; an error lists every field that failed.
    pub fn validate(&self) -> (result: Result<(), ValidationErrors>)
        ensures
            result is Ok <==> self.errors().len() == 0,
            result is Err ==> result->Err_0@ == self.errors(),
    {
        let mut checks = Checks::new();
        checks.length("description", self.description.as_str());
        checks.length("reported_by", self.reported_by.as_str());
        checks.finish()
    }

    /// The text under which the photos of this record are stored: none
    /// without photos, else their JSON array.
    pub fn photos_json(&self) -> (stored: Option<String>)
        ensures
            stored.deep_view() == match self.photos {
                Some(list) => match json_of_string_list(strings_view(list@)) {
                    Some(text) => Some(text),
                    None => Some("[]"@),
                },
                None => None,
            },
    {
        let written = match &self.photos {
            Some(list) => Some(write_string_list(list)),
            None => None,
        };
        stored_photos(written)
    }
}

} // verus!
