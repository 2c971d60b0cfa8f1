//! Threads of posts.

use vstd::prelude::*;

use crate::post::Post;
use crate::text::{cat3, decimal_text};
use crate::user::User;
use crate::utils::{etag, is_valid_id, AppError, AppResult, StringArray};

verus! {

/// A thread: a post and the answers to it.
#[derive(Debug, Clone, Default, PartialEq, Eq)]
pub struct Thread {
    pub post_id: String,
    pub channel_id: String,
    pub reply_count: i64,
    pub last_reply_at: i64,
    pub participants: Option<StringArray>,
    pub delete_at: i64,
    pub team_id: String,
}

impl Thread {
    /// The entity tag of the thread.
    pub fn etag(&self) -> (r: String)
        ensures
            r@ == crate::utils::entity_tag(
                seq![self.post_id@, crate::text::decimal(self.last_reply_at as int)],
            ),
    {
        let parts: Vec<String> = vec![self.post_id.clone(), decimal_text(self.last_reply_at)];
        assert(crate::text::views(parts@) =~= seq![
            self.post_id@,
            crate::text::decimal(self.last_reply_at as int),
        ]);
        etag(parts.as_slice())
    }
}

/// A thread as a user sees it.
#[derive(Debug, Clone, Default, PartialEq, Eq)]
pub struct ThreadResponse {
    pub post_id: String,
    pub reply_count: i64,
    pub last_reply_at: i64,
    pub last_viewed_at: i64,
    pub participants: Option<Vec<User>>,
    pub post: Option<Box<Post>>,
    pub unread_replies: i64,
    pub unread_mentions: i64,
    pub is_urgent: bool,
    pub delete_at: i64,
}

/// Threads of a user, and how many there are.
#[derive(Debug, Clone, Default, PartialEq, Eq)]
pub struct Threads {
    pub total: i64,
    pub total_unread_threads: i64,
    pub total_unread_mentions: i64,
    pub total_unread_urgent_mentions: i64,
    pub threads: Option<Vec<ThreadResponse>>,
}

/// Which threads of a user to list.
#[derive(Debug, Clone, Default, PartialEq, Eq)]
pub struct GetUserThreadsOpts {
    pub page_size: u64,
    pub extended: bool,
    pub deleted: bool,
    pub since: u64,
    pub before: String,
    pub after: String,
    pub unread: bool,
    pub totals_only: bool,
    pub threads_only: bool,
    pub team_only: bool,
    pub include_is_urgent: bool,
    pub exclude_direct: bool,
}

/// A user as a follower of a thread.
#[derive(Debug, Clone, Default, PartialEq, Eq)]
pub struct ThreadMembership {
    pub post_id: String,
    pub user_id: String,
    pub following: bool,
    pub last_updated: i64,
    pub last_viewed: i64,
    pub unread_mentions: i64,
}

/// The error of a field of a membership.
pub open spec fn membership_fault(field: Seq<char>) -> crate::utils::ErrorModel {
    crate::utils::plain_error(
        "ThreadMembership.IsValid"@,
        "model.thread.is_valid."@ + field + ".app_error"@,
        ""@,
        400,
    )
}

fn membership_error(field: &str) -> (e: Box<AppError>)
    ensures
        e@ == membership_fault(field@),
{
    let id: String = cat3("model.thread.is_valid.", field, ".app_error");
    AppError::boxed("ThreadMembership.IsValid", id.as_str(), None, "", 400)
}

impl ThreadMembership {
    /// The first thing that is wrong with the membership.
    pub open spec fn fault(&self) -> Option<crate::utils::ErrorModel> {
        if !crate::utils::valid_id(self.post_id@) {
            Some(membership_fault("post_id"@))
        } else if !crate::utils::valid_id(self.user_id@) {
            Some(membership_fault("user_id"@))
        } else {
            None
        }
    }

    /// Whether the membership is in order.
    pub fn is_valid(&self) -> (r: AppResult)
        ensures
            crate::utils::fault_of(r) == self.fault(),
    {
        if !is_valid_id(self.post_id.as_str()) {
            return Err(membership_error("post_id"));
        }
        if !is_valid_id(self.user_id.as_str()) {
            return Err(membership_error("user_id"));
        }
        Ok(())
    }
}

/// A membership as it is exported.
#[derive(Debug, Clone, Default, PartialEq, Eq)]
pub struct ThreadMembershipForExport {
    pub username: String,
    pub last_viewed: i64,
    pub unread_mentions: i64,
}

/// A membership is in order if it has the ids of a post and of a user.
pub proof fn valid_memberships(m: ThreadMembership)
    ensures
        (m.fault() is None) == (crate::utils::valid_id(m.post_id@) && crate::utils::valid_id(
            m.user_id@,
        )),
{
}

/// Where one field alone has to change for a membership to be in order, the error is that
/// of the field.
pub proof fn faults_of_a_membership_are_named(bad: ThreadMembership, good: ThreadMembership)
    requires
        bad.fault() is Some,
        good.fault() is None,
    ensures
        good == (ThreadMembership { post_id: good.post_id, ..bad }) ==> crate::utils::reports(
            bad.fault()->0,
            "ThreadMembership.IsValid"@,
            "model.thread.is_valid."@ + "post_id"@ + ".app_error"@,
            ""@,
            400,
        ),
        good == (ThreadMembership { user_id: good.user_id, ..bad }) ==> crate::utils::reports(
            bad.fault()->0,
            "ThreadMembership.IsValid"@,
            "model.thread.is_valid."@ + "user_id"@ + ".app_error"@,
            ""@,
            400,
        ),
{
}

/// What is wrong with the first fields of a membership is reported whatever the fields behind
/// them are.
pub proof fn faults_of_a_membership_come_in_order(all: ThreadMembership, good: ThreadMembership)
    requires
        good.fault() is None,
    ensures
        ({
            let first = ThreadMembership { post_id: all.post_id, ..good };
            first.fault() is Some ==> all.fault() == first.fault()
        }),
        ({
            let first = ThreadMembership { post_id: all.post_id, user_id: all.user_id, ..good };
            first.fault() is Some ==> all.fault() == first.fault()
        }),
{
}

} // verus!
