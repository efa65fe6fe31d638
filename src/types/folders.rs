//! Folders and the requests that change them.

use vstd::prelude::*;

verus! {

#[derive(Clone, Debug)]
pub struct Folder {
    pub id: i64,
    pub uid: String,
    pub title: String,
    pub url: Option<String>,
}

#[derive(Clone, Debug)]
pub struct CreateFolderRequest {
    pub title: String,
    pub uid: Option<String>,
}

#[derive(Clone, Debug)]
pub struct UpdateFolderRequest {
    pub title: String,
}

#[derive(Clone, Debug)]
pub struct DeleteFolderResponse {
    pub id: Option<i64>,
    pub title: Option<String>,
    pub message: Option<String>,
}

impl CreateFolderRequest {
    pub fn new(title: &str) -> (r: CreateFolderRequest)
        ensures
            r.title@ == title@,
            r.uid is None,
    {
        CreateFolderRequest { title: String::from_str(title), uid: None }
    }
}

impl UpdateFolderRequest {
    pub fn new(title: &str) -> (r: UpdateFolderRequest)
        ensures
            r.title@ == title@,
    {
        UpdateFolderRequest { title: String::from_str(title) }
    }
}

} // verus!
