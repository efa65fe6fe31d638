//! Service accounts and their tokens.

use vstd::prelude::*;

verus! {

#[derive(Clone, Debug, Default)]
pub struct ServiceAccountSearchParams {
    pub disabled: Option<bool>,
    pub expired_tokens: Option<bool>,
    pub query: Option<String>,
    pub per_page: Option<i64>,
    pub page: Option<i64>,
}

#[derive(Clone, Debug, Default)]
pub struct CreateServiceAccountRequest {
    pub name: Option<String>,
    pub role: Option<String>,
    pub is_disabled: Option<bool>,
}

#[derive(Clone, Debug, Default)]
pub struct UpdateServiceAccountRequest {
    pub name: Option<String>,
    pub role: Option<String>,
    pub is_disabled: Option<bool>,
    pub service_account_id: Option<i64>,
}

#[derive(Clone, Debug, Default)]
pub struct CreateServiceAccountTokenRequest {
    pub name: Option<String>,
    pub seconds_to_live: Option<i64>,
}

#[derive(Clone, Debug)]
pub struct NewApiKey {
    pub id: Option<i64>,
    pub key: Option<String>,
    pub name: Option<String>,
}

} // verus!
