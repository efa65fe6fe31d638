//! Identifiers and small shared responses.

use vstd::prelude::*;

verus! {

#[derive(Clone, Debug, Eq, Hash, Ord, PartialEq, PartialOrd)]
pub struct DashboardUid(pub String);

impl From<String> for DashboardUid {
    fn from(value: String) -> (r: Self)
        ensures
            r.0 == value,
    {
        DashboardUid(value)
    }
}

impl vstd::std_specs::convert::FromSpecImpl<String> for DashboardUid {
    open spec fn obeys_from_spec() -> bool {
        true
    }

    open spec fn from_spec(v: String) -> Self {
        DashboardUid(v)
    }
}

#[derive(Clone, Debug, Eq, Hash, Ord, PartialEq, PartialOrd)]
pub struct FolderUid(pub String);

impl From<String> for FolderUid {
    fn from(value: String) -> (r: Self)
        ensures
            r.0 == value,
    {
        FolderUid(value)
    }
}

impl vstd::std_specs::convert::FromSpecImpl<String> for FolderUid {
    open spec fn obeys_from_spec() -> bool {
        true
    }

    open spec fn from_spec(v: String) -> Self {
        FolderUid(v)
    }
}

#[derive(Clone, Copy, Debug, Eq, Hash, Ord, PartialEq, PartialOrd)]
pub struct DatasourceId(pub i64);

impl From<i64> for DatasourceId {
    fn from(value: i64) -> (r: Self)
        ensures
            r.0 == value,
    {
        DatasourceId(value)
    }
}

impl vstd::std_specs::convert::FromSpecImpl<i64> for DatasourceId {
    open spec fn obeys_from_spec() -> bool {
        true
    }

    open spec fn from_spec(v: i64) -> Self {
        DatasourceId(v)
    }
}

#[derive(Clone, Copy, Debug, Eq, Hash, Ord, PartialEq, PartialOrd)]
pub struct OrgId(pub i64);

impl From<i64> for OrgId {
    fn from(value: i64) -> (r: Self)
        ensures
            r.0 == value,
    {
        OrgId(value)
    }
}

impl vstd::std_specs::convert::FromSpecImpl<i64> for OrgId {
    open spec fn obeys_from_spec() -> bool {
        true
    }

    open spec fn from_spec(v: i64) -> Self {
        OrgId(v)
    }
}

#[derive(Clone, Copy, Debug, Eq, Hash, Ord, PartialEq, PartialOrd)]
pub struct UserId(pub i64);

impl From<i64> for UserId {
    fn from(value: i64) -> (r: Self)
        ensures
            r.0 == value,
    {
        UserId(value)
    }
}

impl vstd::std_specs::convert::FromSpecImpl<i64> for UserId {
    open spec fn obeys_from_spec() -> bool {
        true
    }

    open spec fn from_spec(v: i64) -> Self {
        UserId(v)
    }
}

#[derive(Clone, Copy, Debug, Eq, Hash, Ord, PartialEq, PartialOrd)]
pub struct TeamId(pub i64);

impl From<i64> for TeamId {
    fn from(value: i64) -> (r: Self)
        ensures
            r.0 == value,
    {
        TeamId(value)
    }
}

impl vstd::std_specs::convert::FromSpecImpl<i64> for TeamId {
    open spec fn obeys_from_spec() -> bool {
        true
    }

    open spec fn from_spec(v: i64) -> Self {
        TeamId(v)
    }
}

#[derive(Clone, Copy, Debug, Eq, Hash, Ord, PartialEq, PartialOrd)]
pub struct ServiceAccountId(pub i64);

impl From<i64> for ServiceAccountId {
    fn from(value: i64) -> (r: Self)
        ensures
            r.0 == value,
    {
        ServiceAccountId(value)
    }
}

impl vstd::std_specs::convert::FromSpecImpl<i64> for ServiceAccountId {
    open spec fn obeys_from_spec() -> bool {
        true
    }

    open spec fn from_spec(v: i64) -> Self {
        ServiceAccountId(v)
    }
}

#[derive(Clone, Copy, Debug, Eq, Hash, Ord, PartialEq, PartialOrd)]
pub struct TokenId(pub i64);

impl From<i64> for TokenId {
    fn from(value: i64) -> (r: Self)
        ensures
            r.0 == value,
    {
        TokenId(value)
    }
}

impl vstd::std_specs::convert::FromSpecImpl<i64> for TokenId {
    open spec fn obeys_from_spec() -> bool {
        true
    }

    open spec fn from_spec(v: i64) -> Self {
        TokenId(v)
    }
}

#[derive(Clone, Debug)]
pub struct SuccessResponse {
    pub message: Option<String>,
}

} // verus!
