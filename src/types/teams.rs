//! Teams and their members.

use vstd::prelude::*;

verus! {

#[derive(Clone, Debug, Default)]
pub struct TeamSearchParams {
    pub page: Option<i64>,
    pub per_page: Option<i64>,
    pub name: Option<String>,
    pub query: Option<String>,
    pub access_control: Option<bool>,
    pub sort: Option<String>,
}

#[derive(Clone, Debug)]
pub struct TeamMember {
    pub auth_module: Option<String>,
    pub avatar_url: Option<String>,
    pub email: Option<String>,
    pub labels: Option<Vec<String>>,
    pub login: Option<String>,
    pub name: Option<String>,
    pub org_id: Option<i64>,
    pub permission: Option<i64>,
    pub team_id: Option<i64>,
    pub team_uid: Option<String>,
    pub uid: Option<String>,
    pub user_id: Option<i64>,
    pub user_uid: Option<String>,
}

#[derive(Clone, Debug)]
pub struct CreateTeamRequest {
    pub name: String,
    pub email: Option<String>,
}

#[derive(Clone, Debug)]
pub struct CreateTeamResponse {
    pub message: Option<String>,
    pub team_id: Option<i64>,
    pub uid: Option<String>,
}

#[derive(Clone, Debug, Default)]
pub struct UpdateTeamRequest {
    pub name: Option<String>,
    pub email: Option<String>,
}

#[derive(Clone, Debug)]
pub struct AddTeamMemberRequest {
    pub user_id: i64,
}

#[derive(Clone, Debug, Default)]
pub struct UpdateTeamMemberRequest {
    pub permission: Option<i64>,
}

impl CreateTeamRequest {
    pub fn new(name: &str) -> (r: CreateTeamRequest)
        ensures
            r.name@ == name@,
            r.email is None,
    {
        CreateTeamRequest { name: String::from_str(name), email: None }
    }
}

impl AddTeamMemberRequest {
    pub fn new(user_id: i64) -> (r: AddTeamMemberRequest)
        ensures
            r.user_id == user_id,
    {
        AddTeamMemberRequest { user_id }
    }
}

} // verus!
