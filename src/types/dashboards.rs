//! Responses of dashboard operations.

use vstd::prelude::*;

verus! {

#[derive(Clone, Debug)]
pub struct SaveDashboardResponse {
    pub id: i64,
    pub uid: Option<String>,
    pub url: Option<String>,
    pub status: Option<String>,
    pub slug: Option<String>,
    pub version: Option<i64>,
}

#[derive(Clone, Debug)]
pub struct DeleteDashboardResponse {
    pub id: Option<i64>,
    pub title: Option<String>,
    pub message: Option<String>,
}

} // verus!
