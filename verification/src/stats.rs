//! Counts.

use vstd::prelude::*;

verus! {

/// How many members a team has.
#[derive(Debug, Clone, Default, PartialEq, Eq)]
pub struct TeamStats {
    pub team_id: String,
    pub total_member_count: i64,
    pub active_member_count: i64,
}

/// How many users there are.
#[derive(Debug, Clone, Default, PartialEq, Eq)]
pub struct UsersStats {
    pub total_users_count: i64,
}

/// How many connections a node of a cluster has.
#[derive(Debug, Clone, Default, PartialEq, Eq)]
pub struct ClusterStats {
    pub id: String,
    pub total_websocket_connections: i64,
    pub total_read_db_connections: i64,
    pub total_master_db_connections: i64,
}

} // verus!
