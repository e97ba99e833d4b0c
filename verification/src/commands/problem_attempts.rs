//! Requests about attempts at a problem.

use crate::ident::{is_id_reading, parse_id};
use vstd::prelude::*;

verus! {

/// An attempt to record for a problem.
#[derive(Debug)]
pub struct CreateAttemptRequest {
    pub problem_id: String,
    pub time_spent_seconds: i32,
    pub difficulty_rating: i32,
    pub confidence_level: i32,
    pub was_successful: bool,
    pub notes: Option<String>,
}

/// Changes to an attempt; what is `None` stays as it is.
#[derive(Debug)]
pub struct UpdateAttemptRequest {
    pub id: String,
    pub time_spent_seconds: Option<i32>,
    pub difficulty_rating: Option<i32>,
    pub confidence_level: Option<i32>,
    pub was_successful: Option<bool>,
    pub notes: Option<Option<String>>,
}

impl CreateAttemptRequest {
    /// The problem that was attempted.
    pub fn parse_problem_id(&self) -> (r: Result<u128, String>)
        ensures
            is_id_reading(self.problem_id@, r),
    {
        parse_id(self.problem_id.as_str())
    }
}

impl UpdateAttemptRequest {
    /// The attempt to change.
    pub fn parse_id(&self) -> (r: Result<u128, String>)
        ensures
            is_id_reading(self.id@, r),
    {
        parse_id(self.id.as_str())
    }
}

} // verus!
