//! Users that names are completed to.

use vstd::prelude::*;

use crate::user::User;

verus! {

/// Users in a channel and out of it.
#[derive(Debug, Clone, Default, PartialEq, Eq)]
pub struct UserAutocompleteInChannel {
    pub in_channel: Option<Vec<User>>,
    pub out_of_channel: Option<Vec<User>>,
}

/// Users in a team.
#[derive(Debug, Clone, Default, PartialEq, Eq)]
pub struct UserAutocompleteInTeam {
    pub in_team: Option<Vec<User>>,
}

/// Users, and agents among them.
#[derive(Debug, Clone, Default, PartialEq, Eq)]
pub struct UserAutocomplete {
    pub users: Option<Vec<User>>,
    pub out_of_channel: Vec<User>,
    pub agents: Vec<User>,
}

} // verus!
