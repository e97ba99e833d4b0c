//! Requests about problems.

use crate::ident::{is_id_reading, parse_id};
use vstd::prelude::*;

verus! {

/// A problem to make in a subject.
#[derive(Debug)]
pub struct CreateProblemRequest {
    pub subject_id: String,
    pub title: String,
    pub description: Option<String>,
    pub image_path: Option<String>,
    pub s3_image_key: Option<String>,
}

/// Changes to a problem; what is `None` stays as it is.
#[derive(Debug)]
pub struct UpdateProblemRequest {
    pub id: String,
    pub title: Option<String>,
    pub description: Option<Option<String>>,
    pub image_path: Option<Option<String>>,
    pub s3_image_key: Option<Option<String>>,
    pub confidence_level: Option<i32>,
    pub notes: Option<Option<String>>,
}

/// One more attempt at a problem, and how it went.
#[derive(Debug)]
pub struct UpdateProblemStatsRequest {
    pub id: String,
    pub was_successful: bool,
}

impl CreateProblemRequest {
    /// The subject that the problem goes into.
    pub fn parse_subject_id(&self) -> (r: Result<u128, String>)
        ensures
            is_id_reading(self.subject_id@, r),
    {
        parse_id(self.subject_id.as_str())
    }
}

impl UpdateProblemRequest {
    /// The problem to change.
    pub fn parse_id(&self) -> (r: Result<u128, String>)
        ensures
            is_id_reading(self.id@, r),
    {
        parse_id(self.id.as_str())
    }
}

impl UpdateProblemStatsRequest {
    /// The problem that was attempted.
    pub fn parse_id(&self) -> (r: Result<u128, String>)
        ensures
            is_id_reading(self.id@, r),
    {
        parse_id(self.id.as_str())
    }
}

} // verus!
