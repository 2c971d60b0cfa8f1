//! Searches for things by a term.

use vstd::prelude::*;

verus! {

/// A search for emoji.
#[derive(Debug, Clone, Default, PartialEq, Eq)]
pub struct EmojiSearch {
    pub term: String,
    /// Whether names must begin with the term.
    pub prefix_only: bool,
}

/// A search for access tokens.
#[derive(Debug, Clone, Default, PartialEq, Eq)]
pub struct UserAccessTokenSearch {
    pub term: String,
}

} // verus!
