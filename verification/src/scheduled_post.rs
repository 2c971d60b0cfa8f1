//! Scheduled posts: drafts with an id and a time to be sent at.

use vstd::prelude::*;

use crate::calendar::is_known_zone;
use crate::draft::Draft;
use crate::post::{copy_metadata, Post, PostMetadata, PostPriority};
use crate::text::{cat, cat3, clone_opt_strings, same};
use crate::utils::{ensure_id, get_millis, AppError, AppResult};
use crate::value::{copy_interface, interface_value, shown_text, StringInterface, Value};

pub use crate::scheduled_post_recurrence::{
    SCHEDULED_POST_REPEAT_TYPE_NONE, SCHEDULED_POST_REPEAT_TYPE_WEEKLY,
};

verus! {

pub const SCHEDULED_POST_ERROR_UNKNOWN_ERROR: &'static str = "unknown";

pub const SCHEDULED_POST_ERROR_CODE_CHANNEL_ARCHIVED: &'static str = "channel_archived";

pub const SCHEDULED_POST_ERROR_CODE_RESTRICTED_DM: &'static str = "restricted_dm";

pub const SCHEDULED_POST_ERROR_CODE_CHANNEL_NOT_FOUND: &'static str = "channel_not_found";

pub const SCHEDULED_POST_ERROR_CODE_USER_DOES_NOT_EXIST: &'static str = "user_missing";

pub const SCHEDULED_POST_ERROR_CODE_USER_DELETED: &'static str = "user_deleted";

pub const SCHEDULED_POST_ERROR_CODE_NO_CHANNEL_PERMISSION: &'static str = "no_channel_permission";

pub const SCHEDULED_POST_ERROR_NO_CHANNEL_MEMBER: &'static str = "no_channel_member";

pub const SCHEDULED_POST_ERROR_THREAD_DELETED: &'static str = "thread_deleted";

pub const SCHEDULED_POST_ERROR_UNABLE_TO_SEND: &'static str = "unable_to_send";

pub const SCHEDULED_POST_ERROR_INVALID_POST: &'static str = "invalid_post";

/// How far the time to be sent at may lie ahead of the clock, at least, in milliseconds. It is
/// negative: five seconds of the past are accepted.
pub const SCHEDULED_POST_MAX_TIME_GAP: i64 = -5000;

/// A draft that is to be sent at a time.
#[derive(Debug, Clone, Default, PartialEq, Eq)]
pub struct ScheduledPost {
    pub draft: Draft,
    pub id: String,
    pub scheduled_at: i64,
    pub processed_at: i64,
    pub error_code: String,
    pub repeat_type: String,
    pub repeat_timezone: String,
}

impl std::ops::Deref for ScheduledPost {
    type Target = Draft;

    fn deref(&self) -> (r: &Draft)
        ensures
            *r == self.draft,
    {
        &self.draft
    }
}

/// The members of a scheduled post on the wire: those of the draft first, then its own.
pub open spec fn scheduled_members(s: ScheduledPost) -> Seq<(Seq<char>, crate::value::Json)> {
    crate::draft::draft_members(s.draft) + own_members(s)
}

/// The members of a scheduled post that are not those of its draft.
pub open spec fn own_members(s: ScheduledPost) -> Seq<(Seq<char>, crate::value::Json)> {
    seq![
        ("id"@, crate::value::Json::Str(s.id@)),
        ("scheduled_at"@, crate::value::Json::Int(s.scheduled_at as int)),
        ("processed_at"@, crate::value::Json::Int(s.processed_at as int)),
        ("error_code"@, crate::value::Json::Str(s.error_code@)),
        ("repeat_type"@, crate::value::Json::Str(s.repeat_type@)),
        ("repeat_timezone"@, crate::value::Json::Str(s.repeat_timezone@)),
    ]
}

impl ScheduledPost {
    /// The scheduled post as a value, the members of the draft first.
    pub fn serialize(&self) -> (v: Value)
        ensures
            v@ == crate::value::Json::Object(scheduled_members(*self)),
    {
        let mut out: Vec<(String, Value)> = self.draft.to_members();
        out.push(("id".to_owned(), Value::Str(self.id.clone())));
        out.push(("scheduled_at".to_owned(), Value::Int(self.scheduled_at)));
        out.push(("processed_at".to_owned(), Value::Int(self.processed_at)));
        out.push(("error_code".to_owned(), Value::Str(self.error_code.clone())));
        out.push(("repeat_type".to_owned(), Value::Str(self.repeat_type.clone())));
        out.push(("repeat_timezone".to_owned(), Value::Str(self.repeat_timezone.clone())));
        proof {
            crate::value::object_members(out);
            assert(crate::value::members(out@) =~= scheduled_members(*self));
        }
        Value::Object(out)
    }
}

/// On the wire a scheduled post begins as its draft does, but for the draft's closing brace.
pub proof fn the_draft_comes_first(s: ScheduledPost)
    ensures
        crate::text::starts_with(
            crate::value::wire(crate::value::Json::Object(scheduled_members(s))),
            crate::value::wire(
                crate::value::Json::Object(crate::draft::draft_members(s.draft)),
            ).drop_last(),
        ),
{
    crate::value::longer_objects_begin_alike(
        crate::draft::draft_members(s.draft),
        own_members(s),
    );
}

/// Why a scheduled post cannot become a post: its priority, as a message shows it.
#[derive(Debug, Clone, PartialEq, Eq)]
pub enum ToPostError {
    PriorityNotAString(String),
    RequestedAckNotABool(String),
    PersistentNotificationsNotABool(String),
}

impl ToPostError {
    /// The text of the error.
    pub open spec fn text(&self) -> Seq<char> {
        match self {
            ToPostError::PriorityNotAString(p) =>
                "ScheduledPost.ToPost: priority is not a string. ScheduledPost.Priority: "@ + p@,
            ToPostError::RequestedAckNotABool(p) =>
                "ScheduledPost.ToPost: requested_ack is not a bool. ScheduledPost.Priority: "@ + p@,
            ToPostError::PersistentNotificationsNotABool(p) =>
                "ScheduledPost.ToPost: persistent_notifications is not a bool. ScheduledPost.Priority: "@
                + p@,
        }
    }

    /// The text of the error.
    pub fn to_text(&self) -> (r: String)
        ensures
            r@ == self.text(),
    {
        match self {
            ToPostError::PriorityNotAString(p) => cat(
                "ScheduledPost.ToPost: priority is not a string. ScheduledPost.Priority: ",
                p.as_str(),
            ),
            ToPostError::RequestedAckNotABool(p) => cat(
                "ScheduledPost.ToPost: requested_ack is not a bool. ScheduledPost.Priority: ",
                p.as_str(),
            ),
            ToPostError::PersistentNotificationsNotABool(p) => cat(
                "ScheduledPost.ToPost: persistent_notifications is not a bool. ScheduledPost.Priority: ",
                p.as_str(),
            ),
        }
    }
}

/// The error of a field of a scheduled post.
pub open spec fn scheduled_fault(field: Seq<char>, details: Seq<char>) -> crate::utils::ErrorModel {
    crate::utils::plain_error(
        "ScheduledPost.IsValid"@,
        "model.scheduled_post.is_valid."@ + field + ".app_error"@,
        details,
        400,
    )
}

fn scheduled_error(field: &str, details: &str) -> (r: AppResult)
    ensures
        crate::utils::fault_of(r) == Some(scheduled_fault(field@, details@)),
{
    let id: String = cat3("model.scheduled_post.is_valid.", field, ".app_error");
    Err(AppError::boxed("ScheduledPost.IsValid", id.as_str(), None, details, 400))
}

/// Whether an optional list is missing or empty.
pub open spec fn no_items(v: Option<Vec<String>>) -> bool {
    match v {
        Some(x) => x@.len() == 0,
        None => true,
    }
}

fn has_no_items(v: &Option<Vec<String>>) -> (r: bool)
    ensures
        r == no_items(*v),
{
    match v {
        Some(x) => x.len() == 0,
        None => true,
    }
}

/// The value under a key of a map, as JSON.
pub open spec fn member(m: StringInterface, key: Seq<char>) -> Option<crate::value::Json> {
    if m@.dom().contains(key) {
        Some(m@[key]@)
    } else {
        None
    }
}

/// The text under a key, where there is one.
pub open spec fn text_member(m: StringInterface, key: Seq<char>) -> Option<Seq<char>> {
    match member(m, key) {
        Some(crate::value::Json::Str(s)) => Some(s),
        _ => None,
    }
}

/// The truth value under a key, where there is one.
pub open spec fn bool_member(m: StringInterface, key: Seq<char>) -> Option<bool> {
    match member(m, key) {
        Some(crate::value::Json::Bool(b)) => Some(b),
        _ => None,
    }
}

fn get_text_member(m: &StringInterface, key: &str) -> (r: Option<String>)
    ensures
        crate::text::opt_view(r) == text_member(*m, key@),
{
    match m.get(key) {
        Some(Value::Str(s)) => Some(s.clone()),
        _ => None,
    }
}

fn get_bool_member(m: &StringInterface, key: &str) -> (r: Option<bool>)
    ensures
        r == bool_member(*m, key@),
{
    match m.get(key) {
        Some(Value::Bool(b)) => Some(*b),
        _ => None,
    }
}

/// A priority as a message shows it.
pub open spec fn priority_shown(priority: StringInterface) -> Seq<char> {
    crate::value::shown(
        crate::value::Json::Object(crate::value::json_list(priority.list())),
    )
}

impl ScheduledPost {
    /// The first thing that is wrong with the schedule at a time of the clock, the draft aside.
    pub open spec fn schedule_fault(&self, now: int) -> Option<crate::utils::ErrorModel> {
        let id = "id="@ + self.id@;
        if self.id@.len() == 0 {
            Some(scheduled_fault("id"@, id))
        } else if self.draft.message@.len() == 0 && no_items(self.draft.file_ids) {
            Some(scheduled_fault("empty_post"@, id))
        } else if self.scheduled_at - now < SCHEDULED_POST_MAX_TIME_GAP {
            Some(scheduled_fault("scheduled_at"@, id))
        } else if self.processed_at < 0 {
            Some(scheduled_fault("processed_at"@, id))
        } else if self.repeat_type@ == SCHEDULED_POST_REPEAT_TYPE_WEEKLY@ {
            self.repeat_fault()
        } else if self.repeat_type@ != SCHEDULED_POST_REPEAT_TYPE_NONE@ {
            Some(scheduled_fault("repeat_type"@, id + ", repeat_type="@ + self.repeat_type@))
        } else {
            None
        }
    }

    /// What is wrong with a weekly repetition, if anything: files go with the first post only, and
    /// the zone must be known and must not be that of the server.
    pub open spec fn repeat_fault(&self) -> Option<crate::utils::ErrorModel> {
        let id = "id="@ + self.id@;
        let zone = id + ", repeat_timezone="@ + self.repeat_timezone@;
        if !no_items(self.draft.file_ids) {
            Some(scheduled_fault("repeat_files"@, id))
        } else if self.repeat_timezone@.len() == 0 {
            Some(scheduled_fault("repeat_timezone"@, id))
        } else if self.repeat_timezone@ == "Local"@ {
            Some(scheduled_fault("repeat_timezone_invalid"@, zone))
        } else if !crate::calendar::known_zone(self.repeat_timezone@) {
            Some(
                scheduled_fault(
                    "repeat_timezone_invalid"@,
                    zone + ", unknown time zone "@ + self.repeat_timezone@,
                ),
            )
        } else {
            None
        }
    }

    /// The first thing that is wrong with the scheduled post at a time of the clock, the length of
    /// its message aside.
    pub open spec fn base_fault(&self, now: int) -> Option<crate::utils::ErrorModel> {
        if self.draft.base_fault() is Some {
            self.draft.base_fault()
        } else {
            self.schedule_fault(now)
        }
    }

    /// The first thing that is wrong with the scheduled post at a time of the clock.
    pub open spec fn fault(&self, max_message_size: int, now: int) -> Option<
        crate::utils::ErrorModel,
    > {
        if self.draft.fault(max_message_size) is Some {
            self.draft.fault(max_message_size)
        } else {
            self.base_fault(now)
        }
    }

    fn check_repeat(&self) -> (r: AppResult)
        ensures
            crate::utils::fault_of(r) == self.repeat_fault(),
    {
        let id: String = cat("id=", self.id.as_str());
        if !has_no_items(&self.draft.file_ids) {
            return scheduled_error("repeat_files", id.as_str());
        }
        if self.repeat_timezone.as_str().is_empty() {
            return scheduled_error("repeat_timezone", id.as_str());
        }
        let zone: String = cat3(
            id.as_str(),
            ", repeat_timezone=",
            self.repeat_timezone.as_str(),
        );
        if same(self.repeat_timezone.as_str(), "Local") {
            return scheduled_error("repeat_timezone_invalid", zone.as_str());
        }
        if !is_known_zone(self.repeat_timezone.as_str()) {
            let details: String = cat3(
                zone.as_str(),
                ", unknown time zone ",
                self.repeat_timezone.as_str(),
            );
            return scheduled_error("repeat_timezone_invalid", details.as_str());
        }
        Ok(())
    }

    /// Checks the scheduled post at a time of the clock, the length of its message aside.
    pub fn base_is_valid_at(&self, now: i64) -> (r: AppResult)
        ensures
            crate::utils::fault_of(r) == self.base_fault(now as int),
    {
        let draft: AppResult = self.draft.base_is_valid();
        if draft.is_err() {
            return draft;
        }
        let id: String = cat("id=", self.id.as_str());
        if self.id.as_str().is_empty() {
            return scheduled_error("id", id.as_str());
        }
        if self.draft.message.as_str().is_empty() && has_no_items(&self.draft.file_ids) {
            return scheduled_error("empty_post", id.as_str());
        }
        if (self.scheduled_at as i128) - (now as i128) < SCHEDULED_POST_MAX_TIME_GAP as i128 {
            return scheduled_error("scheduled_at", id.as_str());
        }
        if self.processed_at < 0 {
            return scheduled_error("processed_at", id.as_str());
        }
        if same(self.repeat_type.as_str(), SCHEDULED_POST_REPEAT_TYPE_WEEKLY) {
            return self.check_repeat();
        }
        if !same(self.repeat_type.as_str(), SCHEDULED_POST_REPEAT_TYPE_NONE) {
            let details: String = cat3(id.as_str(), ", repeat_type=", self.repeat_type.as_str());
            return scheduled_error("repeat_type", details.as_str());
        }
        Ok(())
    }

    /// Checks the scheduled post against the clock, the length of its message aside.
    pub fn base_is_valid(&self) -> (r: AppResult)
        ensures
            exists|now: int|
                crate::utils::is_clock(now) && crate::utils::fault_of(r)
                    == #[trigger] self.base_fault(now),
    {
        let now: i64 = get_millis();
        let r: AppResult = self.base_is_valid_at(now);
        assert(crate::utils::fault_of(r) == self.base_fault(now as int));
        r
    }

    /// Checks the scheduled post at a time of the clock: the whole draft, then the schedule.
    pub fn is_valid_at(&self, max_message_size: i64, now: i64) -> (r: AppResult)
        requires
            self.draft.message@.len() <= i64::MAX,
        ensures
            crate::utils::fault_of(r) == self.fault(max_message_size as int, now as int),
    {
        let draft: AppResult = self.draft.is_valid(max_message_size);
        if draft.is_err() {
            return draft;
        }
        self.base_is_valid_at(now)
    }

    /// Checks the scheduled post against the clock.
    pub fn is_valid(&self, max_message_size: i64) -> (r: AppResult)
        requires
            self.draft.message@.len() <= i64::MAX,
        ensures
            exists|now: int|
                crate::utils::is_clock(now) && crate::utils::fault_of(r) == #[trigger] self.fault(
                    max_message_size as int,
                    now,
                ),
    {
        let now: i64 = get_millis();
        let r: AppResult = self.is_valid_at(max_message_size, now);
        assert(crate::utils::fault_of(r) == self.fault(max_message_size as int, now as int));
        r
    }

    /// Whether this is a scheduled post that was made ready for storing at an instant.
    pub open spec fn is_saved(&self, before: ScheduledPost, now: int) -> bool {
        &&& *self == (ScheduledPost {
            draft: self.draft,
            id: self.id,
            processed_at: 0,
            error_code: self.error_code,
            ..before
        })
        &&& crate::utils::kept_or_new_id(self.id@, before.id@)
        &&& self.error_code@.len() == 0
        &&& self.draft.is_saved(before.draft, now)
    }

    /// Prepares the scheduled post for storing at an instant.
    pub fn pre_save_at(&mut self, now: i64)
        ensures
            final(self).is_saved(*old(self), now as int),
    {
        ensure_id(&mut self.id);
        self.processed_at = 0;
        self.error_code = String::new();
        self.draft.pre_save_at(now);
    }

    /// Prepares the scheduled post for storing: an id where there is none, no processing state, and
    /// the draft ready to be stored.
    pub fn pre_save(&mut self)
        ensures
            exists|now: int|
                crate::utils::is_clock(now) && #[trigger] final(self).is_saved(*old(self), now),
    {
        let now: i64 = get_millis();
        self.pre_save_at(now);
    }

    /// Whether this is a changed scheduled post that was made ready for storing at an instant.
    pub open spec fn is_updated(&self, before: ScheduledPost, now: int) -> bool {
        &&& *self == (ScheduledPost { draft: self.draft, ..before })
        &&& self.draft == (Draft {
            update_at: self.draft.update_at,
            props: self.draft.props,
            file_ids: self.draft.file_ids,
            ..before.draft
        })
        &&& self.draft.update_at == now
        &&& crate::draft::committed(self.draft, before.draft)
    }

    /// Prepares a changed scheduled post for storing at an instant.
    pub fn pre_update_at(&mut self, now: i64)
        ensures
            final(self).is_updated(*old(self), now as int),
    {
        self.draft.update_at = now;
        self.draft.pre_commit();
    }

    /// Prepares a changed scheduled post for storing: the time of the change, and the properties
    /// and files in order. The processing state stays.
    pub fn pre_update(&mut self)
        ensures
            exists|now: int|
                crate::utils::is_clock(now) && #[trigger] final(self).is_updated(*old(self), now),
    {
        let now: i64 = get_millis();
        self.pre_update_at(now);
    }

    /// What the priority of the draft asks for, if it is in order: the level, the request of an
    /// acknowledgement and the persistent notifications. All three must be there.
    pub open spec fn asked_priority(&self) -> Option<(Seq<char>, bool, bool)> {
        let p = self.draft.priority->0;
        match (
            text_member(p, "priority"@),
            bool_member(p, "requested_ack"@),
            bool_member(p, "persistent_notifications"@),
        ) {
            (Some(level), Some(ack), Some(persistent)) => Some((level, ack, persistent)),
            _ => None,
        }
    }

    /// Whether the draft has a priority that is not empty.
    pub open spec fn has_priority(&self) -> bool {
        match self.draft.priority {
            Some(p) => p@ != Map::<Seq<char>, Value>::empty(),
            None => false,
        }
    }

    /// What `to_post` makes, its priority aside.
    pub open spec fn carried_over(&self, post: Post) -> bool {
        &&& post.user_id == self.draft.user_id
        &&& post.channel_id == self.draft.channel_id
        &&& post.message == self.draft.message
        &&& crate::text::opt_seq(post.file_ids) == crate::text::opt_seq(self.draft.file_ids)
        &&& post.root_id == self.draft.root_id
        &&& post.post_type == self.draft.draft_type
        &&& match self.draft.props {
            Some(m) if m@ != Map::<Seq<char>, Value>::empty() => crate::post::opt_json_map(post.props)
                == Some(crate::post::json_map(m@)),
            _ => post.props is None,
        }
        &&& exists|blank: Post|
            #![trigger crate::post::blank_post(blank)]
            crate::post::blank_post(blank) && post == (Post {
                user_id: post.user_id,
                channel_id: post.channel_id,
                message: post.message,
                file_ids: post.file_ids,
                root_id: post.root_id,
                metadata: post.metadata,
                post_type: post.post_type,
                props: post.props,
                ..blank
            })
    }

    fn post_without_priority(&self) -> (post: Post)
        ensures
            self.carried_over(post),
            match self.draft.metadata {
                Some(m) => post.metadata is Some && crate::post::same_metadata(post.metadata->0, m),
                None => post.metadata is None,
            },
    {
        let mut post: Post = Post::blank();
        let ghost blank = post;
        post.user_id = self.draft.user_id.clone();
        post.channel_id = self.draft.channel_id.clone();
        post.message = self.draft.message.clone();
        post.file_ids = clone_opt_strings(&self.draft.file_ids);
        post.root_id = self.draft.root_id.clone();
        post.metadata = match &self.draft.metadata {
            Some(m) => Some(copy_metadata(m)),
            None => None,
        };
        post.post_type = self.draft.draft_type.clone();
        post.props = copy_props(&self.draft.props);
        assert(crate::post::blank_post(blank));
        post
    }

    /// Makes the post to be sent. It carries over the author, the channel, the message, the files,
    /// the thread, the metadata, the type and the properties, and nothing else. A priority that is
    /// there must be complete.
    pub fn to_post(&self) -> (r: Result<Post, ToPostError>)
        ensures
            match r {
                Ok(post) => self.carried_over(post) && if self.has_priority() {
                    self.asked_priority() is Some && self.prioritized(post)
                } else {
                    match self.draft.metadata {
                        Some(m) => post.metadata is Some && crate::post::same_metadata(
                            post.metadata->0,
                            m,
                        ),
                        None => post.metadata is None,
                    }
                },
                Err(ToPostError::PriorityNotAString(shown)) => self.has_priority() && text_member(
                    self.draft.priority->0,
                    "priority"@,
                ) is None && shown@ == priority_shown(self.draft.priority->0),
                Err(ToPostError::RequestedAckNotABool(shown)) => self.has_priority() && text_member(
                    self.draft.priority->0,
                    "priority"@,
                ) is Some && bool_member(self.draft.priority->0, "requested_ack"@) is None && shown@
                    == priority_shown(self.draft.priority->0),
                Err(ToPostError::PersistentNotificationsNotABool(shown)) => self.has_priority()
                    && text_member(self.draft.priority->0, "priority"@) is Some && bool_member(
                    self.draft.priority->0,
                    "requested_ack"@,
                ) is Some && bool_member(self.draft.priority->0, "persistent_notifications"@) is None
                    && shown@ == priority_shown(self.draft.priority->0),
            },
    {
        let mut post: Post = self.post_without_priority();
        let priority: &StringInterface = match &self.draft.priority {
            Some(p) => p,
            None => {
                return Ok(post);
            },
        };
        if priority.is_empty() {
            return Ok(post);
        }
        let level: String = match get_text_member(priority, "priority") {
            Some(level) => level,
            None => {
                return Err(ToPostError::PriorityNotAString(show_priority(priority)));
            },
        };
        let ack: bool = match get_bool_member(priority, "requested_ack") {
            Some(ack) => ack,
            None => {
                return Err(ToPostError::RequestedAckNotABool(show_priority(priority)));
            },
        };
        let persistent: bool = match get_bool_member(priority, "persistent_notifications") {
            Some(persistent) => persistent,
            None => {
                return Err(ToPostError::PersistentNotificationsNotABool(show_priority(priority)));
            },
        };
        let ghost before = post;
        let taken: Option<PostMetadata> = post.metadata.take();
        let mut metadata: PostMetadata = match taken {
            Some(m) => m,
            None => PostMetadata::empty(),
        };
        metadata.priority = Some(
            PostPriority {
                priority: Some(level),
                requested_ack: Some(ack),
                persistent_notifications: Some(persistent),
                post_id: String::new(),
                channel_id: String::new(),
            },
        );
        post.metadata = Some(metadata);
        proof {
            let blank = choose|blank: Post|
                #![trigger crate::post::blank_post(blank)]
                crate::post::blank_post(blank) && before == (Post {
                    user_id: before.user_id,
                    channel_id: before.channel_id,
                    message: before.message,
                    file_ids: before.file_ids,
                    root_id: before.root_id,
                    metadata: before.metadata,
                    post_type: before.post_type,
                    props: before.props,
                    ..blank
                });
            assert(crate::post::blank_post(blank));
            assert(self.carried_over(post));
        }
        Ok(post)
    }

    /// The metadata of a post with the priority that was asked for: all else of the metadata stays,
    /// or is empty where there were none.
    pub open spec fn prioritized(&self, post: Post) -> bool {
        let (level, ack, persistent) = self.asked_priority()->0;
        &&& post.metadata is Some
        &&& match self.draft.metadata {
            Some(m) => crate::post::same_attachments(post.metadata->0, m),
            None => crate::post::no_attachments(post.metadata->0),
        }
        &&& post.metadata->0.priority is Some
        &&& crate::text::opt_view(post.metadata->0.priority->0.priority) == Some(level)
        &&& post.metadata->0.priority->0.requested_ack == Some(ack)
        &&& post.metadata->0.priority->0.persistent_notifications == Some(persistent)
        &&& post.metadata->0.priority->0.post_id@.len() == 0
        &&& post.metadata->0.priority->0.channel_id@.len() == 0
    }

    /// Puts back what an update may not change: the id, the time of creation, the author, the
    /// channel, the thread and the type.
    pub fn restore_non_updatable_fields(&mut self, original: &ScheduledPost)
        ensures
            restored(*final(self), *old(self), *original),
    {
        self.id = original.id.clone();
        self.draft.create_at = original.draft.create_at;
        self.draft.user_id = original.draft.user_id.clone();
        self.draft.channel_id = original.draft.channel_id.clone();
        self.draft.root_id = original.draft.root_id.clone();
        self.draft.draft_type = original.draft.draft_type.clone();
    }

    /// Removes what a client must not set: the time of creation and the embeds of metadata that
    /// are there.
    pub fn sanitize_input(&mut self)
        ensures
            input_sanitized(*final(self), *old(self)),
    {
        self.draft.create_at = 0;
        let taken: Option<PostMetadata> = self.draft.metadata.take();
        if let Some(mut m) = taken {
            m.embeds = Vec::new();
            self.draft.metadata = Some(m);
        }
    }

    /// The priority in the metadata. The priority that the draft asks for is another field.
    pub fn get_priority(&self) -> (r: Option<&PostPriority>)
        ensures
            match r {
                Some(p) => self.draft.metadata is Some && self.draft.metadata->0.priority == Some(*p),
                None => self.draft.metadata is None || self.draft.metadata->0.priority is None,
            },
    {
        match &self.draft.metadata {
            Some(m) => m.priority.as_ref(),
            None => None,
        }
    }
}

fn show_priority(priority: &StringInterface) -> (r: String)
    ensures
        r@ == priority_shown(*priority),
{
    shown_text(&interface_value(priority))
}

/// A copy of properties; none where there are none or they are empty.
fn copy_props(props: &Option<StringInterface>) -> (r: Option<StringInterface>)
    ensures
        match *props {
            Some(m) if m@ != Map::<Seq<char>, Value>::empty() => crate::post::opt_json_map(r) == Some(
                crate::post::json_map(m@),
            ),
            _ => r is None,
        },
{
    match props {
        None => None,
        Some(m) => {
            if m.is_empty() {
                return None;
            }
            Some(copy_interface(m))
        },
    }
}

/// An update with what it may not change put back.
pub open spec fn restored(
    new: ScheduledPost,
    old: ScheduledPost,
    original: ScheduledPost,
) -> bool {
    new == (ScheduledPost {
        id: original.id,
        draft: Draft {
            create_at: original.draft.create_at,
            user_id: original.draft.user_id,
            channel_id: original.draft.channel_id,
            root_id: original.draft.root_id,
            draft_type: original.draft.draft_type,
            ..old.draft
        },
        ..old
    })
}

/// A scheduled post without what a client must not set.
pub open spec fn input_sanitized(new: ScheduledPost, old: ScheduledPost) -> bool {
    &&& new == (ScheduledPost {
        draft: Draft { create_at: 0, metadata: new.draft.metadata, ..old.draft },
        ..old
    })
    &&& match old.draft.metadata {
        Some(m) => new.draft.metadata is Some && new.draft.metadata->0.embeds@.len() == 0
            && new.draft.metadata->0 == (PostMetadata {
            embeds: new.draft.metadata->0.embeds,
            ..m
        }),
        None => new.draft.metadata is None,
    }
}

/// An update changes neither whose post it is nor where it goes, and keeps all else that it says.
pub proof fn updates_keep_author_and_place(
    new: ScheduledPost,
    old: ScheduledPost,
    original: ScheduledPost,
)
    requires
        restored(new, old, original),
    ensures
        new.id == original.id,
        new.draft.create_at == original.draft.create_at,
        new.draft.user_id == original.draft.user_id,
        new.draft.channel_id == original.draft.channel_id,
        new.draft.root_id == original.draft.root_id,
        new.draft.draft_type == original.draft.draft_type,
        new.draft.message == old.draft.message && new.draft.props == old.draft.props
            && new.draft.file_ids == old.draft.file_ids && new.draft.metadata == old.draft.metadata
            && new.draft.priority == old.draft.priority && new.draft.update_at == old.draft.update_at
            && new.draft.delete_at == old.draft.delete_at,
        new.scheduled_at == old.scheduled_at && new.processed_at == old.processed_at && new.error_code
            == old.error_code && new.repeat_type == old.repeat_type && new.repeat_timezone
            == old.repeat_timezone,
{
}

/// A client sets neither the time of creation nor embeds, and all else as it likes.
pub proof fn clients_set_no_embeds(new: ScheduledPost, old: ScheduledPost)
    requires
        input_sanitized(new, old),
    ensures
        new.draft.create_at == 0,
        old.draft.metadata is None ==> new.draft.metadata is None,
        old.draft.metadata is Some ==> new.draft.metadata is Some
            && new.draft.metadata->0.embeds@.len() == 0 && new.draft.metadata->0.emojis
            == old.draft.metadata->0.emojis && new.draft.metadata->0.files
            == old.draft.metadata->0.files && new.draft.metadata->0.reactions
            == old.draft.metadata->0.reactions && new.draft.metadata->0.priority
            == old.draft.metadata->0.priority && new.draft.metadata->0.acknowledgements
            == old.draft.metadata->0.acknowledgements,
        new.draft.message == old.draft.message && new.draft.user_id == old.draft.user_id
            && new.draft.channel_id == old.draft.channel_id && new.draft.root_id == old.draft.root_id
            && new.draft.props == old.draft.props && new.draft.file_ids == old.draft.file_ids
            && new.draft.priority == old.draft.priority && new.draft.draft_type
            == old.draft.draft_type,
        new.id == old.id && new.scheduled_at == old.scheduled_at && new.repeat_type == old.repeat_type
            && new.repeat_timezone == old.repeat_timezone,
{
}

/// A scheduled post is in order at a time of the clock if and only if its draft is and all of these
/// hold: it says something, it is not more than five seconds late, and a weekly one has no files and
/// a zone that is known.
pub proof fn valid_scheduled_posts(s: ScheduledPost, max_message_size: int, now: int)
    ensures
        (s.fault(max_message_size, now) is None) == ({
            let files = s.draft.file_ids is Some && s.draft.file_ids->0@.len() > 0;
            &&& s.draft.fault(max_message_size) is None
            &&& s.id@.len() > 0
            &&& s.draft.message@.len() > 0 || files
            &&& s.scheduled_at >= now - 5000
            &&& s.processed_at >= 0
            &&& s.repeat_type@ == "weekly"@ || s.repeat_type@ == ""@
            &&& s.repeat_type@ == "weekly"@ ==> !files && s.repeat_timezone@.len() > 0
                && s.repeat_timezone@ != "Local"@ && crate::calendar::known_zone(s.repeat_timezone@)
        }),
{
}

/// A scheduled post that was made ready has an id, its own where it had one, and has not been
/// processed; when and how often it is sent stays.
pub proof fn saved_posts_are_not_processed(before: ScheduledPost, after: ScheduledPost, now: int)
    requires
        after.is_saved(before, now),
    ensures
        after.processed_at == 0 && after.error_code@.len() == 0,
        before.id@.len() > 0 ==> after.id@ == before.id@,
        before.id@.len() == 0 ==> crate::utils::valid_id(after.id@),
        after.scheduled_at == before.scheduled_at && after.repeat_type == before.repeat_type
            && after.repeat_timezone == before.repeat_timezone,
        after.draft.is_saved(before.draft, now),
{
}

/// A changed scheduled post that was made ready is changed only in the time of the change, the
/// properties and the files of its draft.
pub proof fn updated_posts_keep_the_rest(before: ScheduledPost, after: ScheduledPost, now: int)
    requires
        after.is_updated(before, now),
    ensures
        after.draft.update_at == now,
        crate::draft::committed(after.draft, before.draft),
        after == (ScheduledPost {
            draft: Draft {
                update_at: after.draft.update_at,
                props: after.draft.props,
                file_ids: after.draft.file_ids,
                ..before.draft
            },
            ..before
        }),
{
}

/// The post that is sent is what was scheduled: the author, the channel, the thread, the message, the
/// files and the type are those of the draft, and nothing else is set.
pub proof fn posts_say_what_was_scheduled(s: ScheduledPost, post: Post)
    requires
        s.carried_over(post),
    ensures
        post.user_id == s.draft.user_id && post.channel_id == s.draft.channel_id,
        post.message == s.draft.message && post.root_id == s.draft.root_id,
        post.post_type == s.draft.draft_type,
        s.draft.file_ids is Some ==> post.file_ids is Some && post.file_ids->0@
            == s.draft.file_ids->0@,
        s.draft.file_ids is None ==> post.file_ids is None,
        s.draft.props is None ==> post.props is None,
        s.draft.props is Some && s.draft.props->0@ == Map::<Seq<char>, Value>::empty()
            ==> post.props is None,
        s.draft.props is Some && s.draft.props->0@ != Map::<Seq<char>, Value>::empty()
            ==> post.props is Some && post.props->0@.dom() == s.draft.props->0@.dom() && forall|
            key: Seq<char>,
        | #[trigger]
            s.draft.props->0@.dom().contains(key) ==> post.props->0@[key]@ == s.draft.props->0@[key]@,
        post.id@.len() == 0 && post.original_id@.len() == 0 && post.pending_post_id@.len() == 0
            && post.hashtags@.len() == 0,
        post.create_at == 0 && post.update_at == 0 && post.edit_at == 0 && post.delete_at == 0,
        !post.is_pinned && !post.has_reactions && post.remote_id is None,
{
    if s.draft.props is Some && s.draft.props->0@ != Map::<Seq<char>, Value>::empty() {
        let a = crate::post::json_map(post.props->0@);
        let b = crate::post::json_map(s.draft.props->0@);
        assert(a == b);
        assert(post.props->0@.dom() =~= a.dom());
        assert(s.draft.props->0@.dom() =~= b.dom());
        assert forall|key: Seq<char>| #[trigger]
            s.draft.props->0@.dom().contains(key) implies post.props->0@[key]@
            == s.draft.props->0@[key]@ by {
            assert(a[key] == post.props->0@[key]@);
            assert(b[key] == s.draft.props->0@[key]@);
        }
    }
}

/// The priority of the post is what the draft asks for, all three parts of it, and what else the
/// metadata hold stays.
pub proof fn posts_have_the_priority_asked_for(s: ScheduledPost, post: Post)
    requires
        s.draft.priority is Some,
        s.asked_priority() is Some,
        s.prioritized(post),
    ensures
        ({
            let asked = s.draft.priority->0@;
            let given = post.metadata->0.priority->0;
            &&& post.metadata is Some && post.metadata->0.priority is Some
            &&& asked.dom().contains("priority"@) && given.priority is Some && asked["priority"@]@
                == crate::value::Json::Str(given.priority->0@)
            &&& asked.dom().contains("requested_ack"@) && given.requested_ack is Some
                && asked["requested_ack"@]@ == crate::value::Json::Bool(given.requested_ack->0)
            &&& asked.dom().contains("persistent_notifications"@)
                && given.persistent_notifications is Some && asked["persistent_notifications"@]@
                == crate::value::Json::Bool(given.persistent_notifications->0)
            &&& given.post_id@.len() == 0 && given.channel_id@.len() == 0
            &&& s.draft.metadata is Some ==> crate::post::same_attachments(
                post.metadata->0,
                s.draft.metadata->0,
            )
            &&& s.draft.metadata is None ==> crate::post::no_attachments(post.metadata->0)
        }),
{
}

/// Where one field alone has to change for a scheduled post to be in order, the error is that
/// of the field.
pub proof fn faults_of_a_scheduled_post_are_named(
    bad: ScheduledPost,
    good: ScheduledPost,
    max_message_size: int,
    now: int,
)
    requires
        bad.fault(max_message_size, now) is Some,
        good.fault(max_message_size, now) is None,
    ensures
        good == (ScheduledPost { id: good.id, ..bad }) ==> crate::utils::reports(
            bad.fault(max_message_size, now)->0,
            "ScheduledPost.IsValid"@,
            "model.scheduled_post.is_valid."@ + "id"@ + ".app_error"@,
            "id="@ + bad.id@,
            400,
        ),
        good == (ScheduledPost { scheduled_at: good.scheduled_at, ..bad }) ==> crate::utils::reports(
            bad.fault(max_message_size, now)->0,
            "ScheduledPost.IsValid"@,
            "model.scheduled_post.is_valid."@ + "scheduled_at"@ + ".app_error"@,
            "id="@ + bad.id@,
            400,
        ),
        good == (ScheduledPost { processed_at: good.processed_at, ..bad }) ==> crate::utils::reports(
            bad.fault(max_message_size, now)->0,
            "ScheduledPost.IsValid"@,
            "model.scheduled_post.is_valid."@ + "processed_at"@ + ".app_error"@,
            "id="@ + bad.id@,
            400,
        ),
        good == (ScheduledPost { repeat_type: good.repeat_type, ..bad })
            && bad.repeat_type@ != "weekly"@ ==> crate::utils::reports(
            bad.fault(max_message_size, now)->0,
            "ScheduledPost.IsValid"@,
            "model.scheduled_post.is_valid."@ + "repeat_type"@ + ".app_error"@,
            "id="@ + bad.id@ + ", repeat_type="@ + bad.repeat_type@,
            400,
        ),
        good == (ScheduledPost { repeat_timezone: good.repeat_timezone, ..bad })
            && bad.repeat_timezone@.len() == 0 ==> crate::utils::reports(
            bad.fault(max_message_size, now)->0,
            "ScheduledPost.IsValid"@,
            "model.scheduled_post.is_valid."@ + "repeat_timezone"@ + ".app_error"@,
            "id="@ + bad.id@,
            400,
        ),
        good == (ScheduledPost { repeat_timezone: good.repeat_timezone, ..bad })
            && bad.repeat_timezone@.len() > 0
            && bad.repeat_timezone@ == "Local"@ ==> crate::utils::reports(
            bad.fault(max_message_size, now)->0,
            "ScheduledPost.IsValid"@,
            "model.scheduled_post.is_valid."@ + "repeat_timezone_invalid"@ + ".app_error"@,
            "id="@ + bad.id@ + ", repeat_timezone="@ + bad.repeat_timezone@,
            400,
        ),
        good == (ScheduledPost { repeat_timezone: good.repeat_timezone, ..bad })
            && bad.repeat_timezone@.len() > 0
            && bad.repeat_timezone@ != "Local"@ ==> crate::utils::reports(
            bad.fault(max_message_size, now)->0,
            "ScheduledPost.IsValid"@,
            "model.scheduled_post.is_valid."@ + "repeat_timezone_invalid"@ + ".app_error"@,
            "id="@
                + bad.id@
                + ", repeat_timezone="@
                + bad.repeat_timezone@
                + ", unknown time zone "@
                + bad.repeat_timezone@,
            400,
        ),
{
}

/// What is wrong with the first fields of a scheduled post is reported whatever the fields behind
/// them are.
pub proof fn faults_of_a_scheduled_post_come_in_order(
    all: ScheduledPost,
    good: ScheduledPost,
    max_message_size: int,
    now: int,
)
    requires
        good.fault(max_message_size, now) is None,
    ensures
        ({
            let first = ScheduledPost { draft: all.draft, ..good };
            first.fault(max_message_size, now) is Some && all.draft.fault(max_message_size) is Some ==> all.fault(max_message_size, now)
                == first.fault(max_message_size, now)
        }),
        ({
            let first = ScheduledPost { draft: all.draft, id: all.id, ..good };
            first.fault(max_message_size, now) is Some && all.id@.len() == 0 ==> all.fault(max_message_size, now)
                == first.fault(max_message_size, now)
        }),
        ({
            let first = ScheduledPost { draft: all.draft, id: all.id, ..good };
            first.fault(max_message_size, now) is Some && good.repeat_type@.len() == 0 ==> all.fault(max_message_size, now)
                == first.fault(max_message_size, now)
        }),
        ({
            let first = ScheduledPost {
                draft: all.draft,
                id: all.id,
                scheduled_at: all.scheduled_at,
                ..good
            };
            first.fault(max_message_size, now) is Some && good.repeat_type@.len() == 0 ==> all.fault(max_message_size, now)
                == first.fault(max_message_size, now)
        }),
        ({
            let first = ScheduledPost {
                draft: all.draft,
                id: all.id,
                scheduled_at: all.scheduled_at,
                processed_at: all.processed_at,
                ..good
            };
            first.fault(max_message_size, now) is Some && good.repeat_type@.len() == 0 ==> all.fault(max_message_size, now)
                == first.fault(max_message_size, now)
        }),
        ({
            let first = ScheduledPost {
                draft: all.draft,
                id: all.id,
                scheduled_at: all.scheduled_at,
                processed_at: all.processed_at,
                repeat_type: all.repeat_type,
                repeat_timezone: all.repeat_timezone,
                ..good
            };
            first.fault(max_message_size, now) is Some ==> all.fault(max_message_size, now)
                == first.fault(max_message_size, now)
        }),
{
    reveal_strlit("");
    reveal_strlit("weekly");
    assert(good.repeat_type@.len() == 0 ==> good.repeat_type@ =~= ""@);
    assert("weekly"@.len() == 6);
}

/// On the wire the six members of a scheduled post of its own come last.
pub proof fn own_members_come_last(s: ScheduledPost)
    ensures
        scheduled_members(s).len() == crate::draft::draft_members(s.draft).len() + 6,
        scheduled_members(s).skip(scheduled_members(s).len() - 6) == seq![
            ("id"@, crate::value::Json::Str(s.id@)),
            ("scheduled_at"@, crate::value::Json::Int(s.scheduled_at as int)),
            ("processed_at"@, crate::value::Json::Int(s.processed_at as int)),
            ("error_code"@, crate::value::Json::Str(s.error_code@)),
            ("repeat_type"@, crate::value::Json::Str(s.repeat_type@)),
            ("repeat_timezone"@, crate::value::Json::Str(s.repeat_timezone@)),
        ],
{
}

/// A priority that is missing or empty is none, and one that is there is asked for as it stands.
pub proof fn priorities_are_asked_for(s: ScheduledPost)
    ensures
        s.draft.priority is None ==> !s.has_priority(),
        s.draft.priority is Some ==> s.has_priority() == (s.draft.priority->0@ != Map::<
            Seq<char>,
            Value,
        >::empty()),
{
}

} // verus!
