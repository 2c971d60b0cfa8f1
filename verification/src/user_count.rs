//! Which users to count.

use vstd::prelude::*;

use crate::user::ViewUsersRestrictions;

verus! {

/// Which users to count.
#[derive(Debug, Clone, Default, PartialEq, Eq)]
pub struct UserCountOptions {
    pub include_bot_accounts: bool,
    pub include_deleted: bool,
    pub include_remote_users: bool,
    pub exclude_regular_users: bool,
    /// Empty for any team.
    pub team_id: String,
    /// Empty for any channel.
    pub channel_id: String,
    pub view_restrictions: Option<ViewUsersRestrictions>,
    pub roles: Vec<String>,
    /// These need a channel.
    pub channel_roles: Vec<String>,
    /// These need a team.
    pub team_roles: Vec<String>,
}

} // verus!
