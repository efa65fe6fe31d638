//! Users and their organisations.

use vstd::prelude::*;

verus! {

#[derive(Clone, Debug)]
pub struct UserOrg {
    pub name: Option<String>,
    pub org_id: Option<i64>,
    pub role: Option<String>,
}

#[derive(Clone, Debug, Default)]
pub struct UpdateUserRequest {
    pub email: Option<String>,
    pub login: Option<String>,
    pub name: Option<String>,
    pub theme: Option<String>,
}

} // verus!
