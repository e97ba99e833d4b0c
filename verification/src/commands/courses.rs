//! Requests about courses.

use crate::ident::{is_id_reading, parse_id};
use vstd::prelude::*;

verus! {

/// A course to make in a folder.
#[derive(Debug)]
pub struct CreateCourseRequest {
    pub folder_id: String,
    pub name: String,
    pub description: Option<String>,
    pub color_code: Option<String>,
    pub sort_order: i32,
}

/// Changes to a course; what is `None` stays as it is.
#[derive(Debug)]
pub struct UpdateCourseRequest {
    pub id: String,
    pub name: Option<String>,
    pub description: Option<Option<String>>,
    pub color_code: Option<Option<String>>,
    pub sort_order: Option<i32>,
}

impl CreateCourseRequest {
    /// The folder that the course goes into.
    pub fn parse_folder_id(&self) -> (r: Result<u128, String>)
        ensures
            is_id_reading(self.folder_id@, r),
    {
        parse_id(self.folder_id.as_str())
    }
}

impl UpdateCourseRequest {
    /// The course to change.
    pub fn parse_id(&self) -> (r: Result<u128, String>)
        ensures
            is_id_reading(self.id@, r),
    {
        parse_id(self.id.as_str())
    }
}

} // verus!
