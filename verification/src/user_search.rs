//! Searches for users.

use vstd::prelude::*;

use crate::user::ViewUsersRestrictions;

verus! {

pub const USER_SEARCH_MAX_LIMIT: i64 = 1000;

pub const USER_SEARCH_DEFAULT_LIMIT: i64 = 100;

/// A search for users, as a client asks for it.
#[derive(Debug, Clone, Default, PartialEq, Eq)]
pub struct UserSearch {
    pub term: String,
    pub team_id: String,
    pub not_in_team_id: String,
    pub in_channel_id: String,
    pub not_in_channel_id: String,
    pub in_group_id: String,
    pub group_constrained: bool,
    pub allow_inactive: bool,
    pub without_team: bool,
    pub limit: i64,
    pub role: String,
    pub roles: Option<Vec<String>>,
    pub channel_roles: Option<Vec<String>>,
    pub team_roles: Option<Vec<String>>,
    pub not_in_group_id: String,
}

/// What a search for users may look at, as the server decides.
#[derive(Debug, Clone, Default, PartialEq, Eq)]
pub struct UserSearchOptions {
    pub is_admin: bool,
    pub allow_emails: bool,
    pub allow_full_names: bool,
    pub allow_inactive: bool,
    pub group_constrained: bool,
    pub limit: i64,
    pub role: String,
    pub roles: Vec<String>,
    pub channel_roles: Vec<String>,
    pub team_roles: Vec<String>,
    pub view_restrictions: Option<ViewUsersRestrictions>,
    pub list_of_allowed_channels: Vec<String>,
}

} // verus!
