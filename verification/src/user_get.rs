//! Which users to list.

use vstd::prelude::*;

use crate::user::ViewUsersRestrictions;

verus! {

/// Which users to list.
#[derive(Debug, Clone, Default, PartialEq, Eq)]
pub struct UserGetOptions {
    pub in_team_id: String,
    pub not_in_team_id: String,
    pub in_channel_id: String,
    pub not_in_channel_id: String,
    pub in_group_id: String,
    pub not_in_group_id: String,
    pub group_constrained: bool,
    pub without_team: bool,
    pub inactive: bool,
    pub active: bool,
    pub role: String,
    pub roles: Vec<String>,
    /// These need a channel.
    pub channel_roles: Vec<String>,
    /// These need a team.
    pub team_roles: Vec<String>,
    pub sort: String,
    pub view_restrictions: Option<ViewUsersRestrictions>,
    pub page: i64,
    pub per_page: i64,
    pub updated_after: i64,
}

/// Which of the users with given ids to list.
#[derive(Debug, Clone, Copy, Default, PartialEq, Eq)]
pub struct UserGetByIdsOptions {
    /// Only users that have changed since.
    pub since: i64,
}

} // verus!
