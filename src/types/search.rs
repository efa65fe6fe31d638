//! Search parameters and results.

use vstd::prelude::*;

verus! {

#[derive(Clone, Debug, Default)]
pub struct SearchParams {
    pub query: Option<String>,
    pub type_: Option<String>,
    pub starred: Option<bool>,
    pub limit: Option<u32>,
    pub page: Option<u32>,
    pub tag: Vec<String>,
}

#[derive(Clone, Debug)]
pub struct SearchResult {
    pub id: i64,
    pub uid: Option<String>,
    pub title: Option<String>,
    pub uri: Option<String>,
    pub url: Option<String>,
    pub type_: Option<String>,
    pub tags: Option<Vec<String>>,
    pub folder_id: Option<i64>,
    pub folder_uid: Option<String>,
}

} // verus!
