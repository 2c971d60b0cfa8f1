//! That a user is typing.

use vstd::prelude::*;

verus! {

/// That a user is typing in a channel, or in a thread of it.
#[derive(Debug, Clone, Default, PartialEq, Eq)]
pub struct TypingRequest {
    pub channel_id: String,
    /// The post that the thread is under.
    pub parent_id: String,
}

} // verus!
