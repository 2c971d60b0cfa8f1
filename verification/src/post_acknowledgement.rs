//! Acknowledgements of posts.

use vstd::prelude::*;

verus! {

/// That a user has acknowledged a post.
#[derive(Debug, Clone, Default, PartialEq, Eq)]
pub struct PostAcknowledgement {
    pub user_id: String,
    pub post_id: String,
    pub acknowledged_at: i64,
    pub channel_id: String,
    pub remote_id: Option<String>,
}

} // verus!
