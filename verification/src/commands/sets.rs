//! Requests about problem sets.

use crate::ident::{is_id_reading, parse_id};
use vstd::prelude::*;

verus! {

/// A set to make in a course.
#[derive(Debug)]
pub struct CreateSetRequest {
    pub course_id: String,
    pub name: String,
    pub description: Option<String>,
    pub sort_order: i32,
}

/// Changes to a set; what is `None` stays as it is.
#[derive(Debug)]
pub struct UpdateSetRequest {
    pub id: String,
    pub name: Option<String>,
    pub description: Option<Option<String>>,
    pub sort_order: Option<i32>,
}

impl CreateSetRequest {
    /// The course that the set goes into.
    pub fn parse_course_id(&self) -> (r: Result<u128, String>)
        ensures
            is_id_reading(self.course_id@, r),
    {
        parse_id(self.course_id.as_str())
    }
}

impl UpdateSetRequest {
    /// The set to change.
    pub fn parse_id(&self) -> (r: Result<u128, String>)
        ensures
            is_id_reading(self.id@, r),
    {
        parse_id(self.id.as_str())
    }
}

} // verus!
