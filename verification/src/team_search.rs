//! Searches for teams.

use vstd::prelude::*;

verus! {

/// A search for teams. The last four fields are the server's own.
#[derive(Debug, Clone, Default, PartialEq, Eq)]
pub struct TeamSearch {
    pub term: String,
    pub page: Option<i64>,
    pub per_page: Option<i64>,
    pub allow_open_invite: Option<bool>,
    pub group_constrained: Option<bool>,
    pub include_group_constrained: Option<bool>,
    pub policy_id: Option<String>,
    pub exclude_policy_constrained: Option<bool>,
    pub include_policy_id: Option<bool>,
    pub include_policy_enforced: Option<bool>,
    pub include_deleted: Option<bool>,
    pub team_type: Option<String>,
}

impl TeamSearch {
    /// Whether one page is asked for: both its number and its size are given.
    pub fn is_paginated(&self) -> (r: bool)
        ensures
            r == (self.page is Some && self.per_page is Some),
    {
        self.page.is_some() && self.per_page.is_some()
    }
}

} // verus!
