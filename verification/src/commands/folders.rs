//! Requests about folders.

use crate::ident::{is_id_reading, parse_id};
use vstd::prelude::*;

verus! {

/// A folder to make for a user.
#[derive(Debug)]
pub struct CreateFolderRequest {
    pub user_id: String,
    pub name: String,
    pub description: Option<String>,
    pub sort_order: i32,
}

/// Changes to a folder; what is `None` stays as it is.
#[derive(Debug)]
pub struct UpdateFolderRequest {
    pub id: String,
    pub name: Option<String>,
    pub description: Option<Option<String>>,
    pub sort_order: Option<i32>,
}

impl CreateFolderRequest {
    /// The user that the folder is for.
    pub fn parse_user_id(&self) -> (r: Result<u128, String>)
        ensures
            is_id_reading(self.user_id@, r),
    {
        parse_id(self.user_id.as_str())
    }
}

impl UpdateFolderRequest {
    /// The folder to change.
    pub fn parse_id(&self) -> (r: Result<u128, String>)
        ensures
            is_id_reading(self.id@, r),
    {
        parse_id(self.id.as_str())
    }
}

} // verus!
