//! Reactions to posts.

use vstd::prelude::*;

verus! {

/// A reaction of a user to a post.
#[derive(Debug, Clone, Default, PartialEq, Eq)]
pub struct Reaction {
    pub user_id: String,
    pub post_id: String,
    pub emoji_name: String,
    pub create_at: i64,
    pub update_at: i64,
    pub delete_at: i64,
    pub remote_id: Option<String>,
    pub channel_id: String,
}

} // verus!
