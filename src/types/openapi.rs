//! Query parameters of operations described by the service's API description.

use vstd::prelude::*;

verus! {

#[derive(Clone, Debug, Default)]
pub struct RouteDeleteMuteTimingQuery {
    pub version: Option<String>,
}

#[derive(Clone, Debug, Default)]
pub struct RouteDeleteTemplateQuery {
    pub version: Option<String>,
}

#[derive(Clone, Debug, Default)]
pub struct RouteExportMuteTimingQuery {
    pub download: Option<bool>,
    pub format: Option<String>,
}

#[derive(Clone, Debug, Default)]
pub struct RouteExportMuteTimingsQuery {
    pub download: Option<bool>,
    pub format: Option<String>,
}

#[derive(Clone, Debug, Default)]
pub struct RouteGetAlertRuleExportQuery {
    pub download: Option<bool>,
    pub format: Option<String>,
}

#[derive(Clone, Debug, Default)]
pub struct RouteGetAlertRuleGroupExportQuery {
    pub download: Option<bool>,
    pub format: Option<String>,
}

#[derive(Clone, Debug, Default)]
pub struct RouteGetAlertRulesExportQuery {
    pub download: Option<bool>,
    pub format: Option<String>,
    pub folder_uid: Vec<String>,
    pub group: Option<String>,
    pub rule_uid: Option<String>,
}

#[derive(Clone, Debug, Default)]
pub struct RouteGetContactpointsQuery {
    pub name: Option<String>,
}

#[derive(Clone, Debug, Default)]
pub struct RouteGetContactpointsExportQuery {
    pub download: Option<bool>,
    pub format: Option<String>,
    pub decrypt: Option<bool>,
    pub name: Option<String>,
}

#[derive(Clone, Debug, Default)]
pub struct DeleteFolderQuery {
    pub force_delete_rules: Option<bool>,
}

#[derive(Clone, Debug, Default)]
pub struct DeleteRoleQuery {
    pub force: Option<bool>,
    pub global: Option<bool>,
}

#[derive(Clone, Debug, Default)]
pub struct GetAnnotationTagsQuery {
    pub tag: Option<String>,
    pub limit: Option<String>,
}

#[derive(Clone, Debug, Default)]
pub struct GetAnnotationsQuery {
    pub from: Option<i64>,
    pub to: Option<i64>,
    pub user_id: Option<i64>,
    pub alert_id: Option<i64>,
    pub alert_uid: Option<String>,
    pub dashboard_id: Option<i64>,
    pub dashboard_uid: Option<String>,
    pub panel_id: Option<i64>,
    pub limit: Option<i64>,
    pub tags: Vec<String>,
    pub type_: Option<String>,
    pub match_any: Option<bool>,
}

#[derive(Clone, Debug, Default)]
pub struct GetCorrelationsQuery {
    pub limit: Option<i64>,
    pub page: Option<i64>,
    pub source_uid: Vec<String>,
}

#[derive(Clone, Debug, Default)]
pub struct GetDashboardVersionsByUidQuery {
    pub limit: Option<i64>,
    pub start: Option<i64>,
}

#[derive(Clone, Debug, Default)]
pub struct GetFoldersQuery {
    pub limit: Option<i64>,
    pub page: Option<i64>,
    pub parent_uid: Option<String>,
    pub permission: Option<String>,
}

#[derive(Clone, Debug, Default)]
pub struct GetLibraryElementsQuery {
    pub search_string: Option<String>,
    pub kind: Option<i64>,
    pub sort_direction: Option<String>,
    pub type_filter: Option<String>,
    pub exclude_uid: Option<String>,
    pub folder_filter: Option<String>,
    pub per_page: Option<i64>,
    pub page: Option<i64>,
}

#[derive(Clone, Debug, Default)]
pub struct GetOrgUsersForCurrentOrgQuery {
    pub query: Option<String>,
    pub limit: Option<i64>,
}

#[derive(Clone, Debug, Default)]
pub struct GetOrgUsersForCurrentOrgLookupQuery {
    pub query: Option<String>,
    pub limit: Option<i64>,
}

#[derive(Clone, Debug, Default)]
pub struct GetShapshotListQuery {
    pub page: Option<i64>,
    pub limit: Option<i64>,
    pub sort: Option<String>,
}

#[derive(Clone, Debug, Default)]
pub struct GetSnapshotQuery {
    pub result_page: Option<i64>,
    pub result_limit: Option<i64>,
    pub result_sort_column: Option<String>,
    pub result_sort_order: Option<String>,
    pub errors_only: Option<bool>,
}

#[derive(Clone, Debug, Default)]
pub struct GetTeamByIdQuery {
    pub accesscontrol: Option<bool>,
}

#[derive(Clone, Debug, Default)]
pub struct ListRolesQuery {
    pub delegatable: Option<bool>,
    pub include_hidden: Option<bool>,
}

#[derive(Clone, Debug, Default)]
pub struct PostAcsQuery {
    pub relay_state: Option<String>,
}

#[derive(Clone, Debug, Default)]
pub struct PostSloQuery {
    pub saml_request: Option<String>,
    pub saml_response: Option<String>,
}

#[derive(Clone, Debug, Default)]
pub struct RemoveTeamGroupApiQueryQuery {
    pub group_id: Option<String>,
}

#[derive(Clone, Debug, Default)]
pub struct RemoveUserRoleQuery {
    pub global: Option<bool>,
}

#[derive(Clone, Debug, Default)]
pub struct RenderReportCsVsQuery {
    pub dashboards: Option<String>,
    pub title: Option<String>,
}

#[derive(Clone, Debug, Default)]
pub struct RenderReportPdFsQuery {
    pub dashboards: Option<String>,
    pub orientation: Option<String>,
    pub layout: Option<String>,
    pub title: Option<String>,
    pub scale_factor: Option<String>,
    pub include_tables: Option<String>,
}

#[derive(Clone, Debug, Default)]
pub struct SearchQuery {
    pub query: Option<String>,
    pub tag: Vec<String>,
    pub type_: Option<String>,
    pub dashboard_ids: Vec<i64>,
    pub dashboard_ui_ds: Vec<String>,
    pub folder_ids: Vec<i64>,
    pub folder_ui_ds: Vec<String>,
    pub starred: Option<bool>,
    pub limit: Option<i64>,
    pub page: Option<i64>,
    pub permission: Option<String>,
    pub sort: Option<String>,
    pub deleted: Option<bool>,
}

#[derive(Clone, Debug, Default)]
pub struct SearchDashboardSnapshotsQuery {
    pub query: Option<String>,
    pub limit: Option<i64>,
}

#[derive(Clone, Debug, Default)]
pub struct SearchOrgServiceAccountsWithPagingQuery {
    pub disabled: Option<bool>,
    pub expired_tokens: Option<bool>,
    pub query: Option<String>,
    pub perpage: Option<i64>,
    pub page: Option<i64>,
}

#[derive(Clone, Debug, Default)]
pub struct SearchOrgsQuery {
    pub page: Option<i64>,
    pub perpage: Option<i64>,
    pub name: Option<String>,
    pub query: Option<String>,
}

#[derive(Clone, Debug, Default)]
pub struct SearchPlaylistsQuery {
    pub query: Option<String>,
    pub limit: Option<i64>,
}

#[derive(Clone, Debug, Default)]
pub struct SearchQueriesQuery {
    pub datasource_uid: Vec<String>,
    pub search_string: Option<String>,
    pub only_starred: Option<bool>,
    pub sort: Option<String>,
    pub page: Option<i64>,
    pub limit: Option<i64>,
    pub from: Option<i64>,
    pub to: Option<i64>,
}

#[derive(Clone, Debug, Default)]
pub struct SearchTeamGroupsQuery {
    pub page: Option<i64>,
    pub perpage: Option<i64>,
    pub query: Option<String>,
    pub name: Option<String>,
}

#[derive(Clone, Debug, Default)]
pub struct SearchTeamsQuery {
    pub page: Option<i64>,
    pub perpage: Option<i64>,
    pub name: Option<String>,
    pub query: Option<String>,
    pub accesscontrol: Option<bool>,
    pub sort: Option<String>,
}

#[derive(Clone, Debug, Default)]
pub struct SearchUsersQuery {
    pub perpage: Option<i64>,
    pub page: Option<i64>,
}

} // verus!
