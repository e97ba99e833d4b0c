//! Requests about subjects, the older name of problem sets.

use crate::ident::{is_id_reading, parse_id};
use vstd::prelude::*;

verus! {

/// A subject to make in a course.
#[derive(Debug)]
pub struct CreateSubjectRequest {
    pub course_id: String,
    pub name: String,
    pub description: Option<String>,
    pub sort_order: i32,
}

/// Changes to a subject; what is `None` stays as it is.
#[derive(Debug)]
pub struct UpdateSubjectRequest {
    pub id: String,
    pub name: Option<String>,
    pub description: Option<Option<String>>,
    pub sort_order: Option<i32>,
}

impl CreateSubjectRequest {
    /// The course that the subject goes into.
    pub fn parse_course_id(&self) -> (r: Result<u128, String>)
        ensures
            is_id_reading(self.course_id@, r),
    {
        parse_id(self.course_id.as_str())
    }
}

impl UpdateSubjectRequest {
    /// The subject to change.
    pub fn parse_id(&self) -> (r: Result<u128, String>)
        ensures
            is_id_reading(self.id@, r),
    {
        parse_id(self.id.as_str())
    }
}

} // verus!
