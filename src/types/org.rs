//! Organisations and their users.

use vstd::prelude::*;

verus! {

#[derive(Clone, Debug)]
pub struct Address {
    pub address1: Option<String>,
    pub address2: Option<String>,
    pub city: Option<String>,
    pub country: Option<String>,
    pub state: Option<String>,
    pub zip_code: Option<String>,
}

#[derive(Clone, Debug)]
pub struct OrgDetails {
    pub address: Option<Address>,
    pub id: Option<i64>,
    pub name: Option<String>,
}

#[derive(Clone, Debug, Default)]
pub struct UpdateOrgRequest {
    pub name: Option<String>,
}

#[derive(Clone, Debug, Default)]
pub struct AddOrgUserRequest {
    pub login_or_email: Option<String>,
    pub role: Option<String>,
}

#[derive(Clone, Debug, Default)]
pub struct UpdateOrgUserRequest {
    pub role: Option<String>,
}

} // verus!
