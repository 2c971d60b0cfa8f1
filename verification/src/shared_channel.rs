//! Channels that are shared with remote clusters.
//!
//! A shared channel is at home on one server. Elsewhere it belongs to the remote cluster that it
//! came from.

use vstd::prelude::*;
use vstd::string::StrSliceExecFns;

use crate::channel::{
    CHANNEL_DISPLAY_NAME_MAX_RUNES, CHANNEL_HEADER_MAX_RUNES, CHANNEL_PURPOSE_MAX_RUNES,
    CHANNEL_TYPE_DIRECT, CHANNEL_TYPE_GROUP,
};
use crate::post::Post;
use crate::post_acknowledgement::PostAcknowledgement;
use crate::reaction::Reaction;
use crate::remote_cluster::Bitmask;
use crate::status::Status;
use crate::str_map::{StrMap, StringMap};
use crate::text::{cat, cat3, same};
use crate::user::User;
use crate::utils::{
    ensure_id, get_millis, is_valid_channel_identifier, is_valid_id, new_id, sanitize_unicode,
    AppError, AppResult,
};

verus! {

/// A channel that is shared.
#[derive(Debug, Clone, Default, PartialEq, Eq)]
pub struct SharedChannel {
    pub channel_id: String,
    pub team_id: String,
    /// Whether this server is the channel's home.
    pub home: bool,
    pub read_only: bool,
    pub share_name: String,
    pub share_display_name: String,
    pub share_purpose: String,
    pub share_header: String,
    pub creator_id: String,
    pub create_at: i64,
    pub update_at: i64,
    /// The remote cluster of a channel that is not at home.
    pub remote_id: String,
    pub type_: String,
}

/// The error of a field of something that is shared.
pub open spec fn shared_fault(
    where_: Seq<char>,
    field: Seq<char>,
    details: Seq<char>,
) -> crate::utils::ErrorModel {
    crate::utils::plain_error(
        where_,
        "model.channel.is_valid."@ + field + ".app_error"@,
        details,
        400,
    )
}

fn shared_error(where_: &str, field: &str, details: &str) -> (e: Box<AppError>)
    ensures
        e@ == shared_fault(where_@, field@, details@),
{
    let id: String = cat3("model.channel.is_valid.", field, ".app_error");
    AppError::boxed(where_, id.as_str(), None, details, 400)
}

/// The error of an id that is none.
pub open spec fn id_fault(
    where_: Seq<char>,
    label: Seq<char>,
    id: Seq<char>,
) -> crate::utils::ErrorModel {
    shared_fault(where_, "id"@, label + id)
}

impl SharedChannel {
    /// The first thing that is wrong with the shared channel.
    pub open spec fn fault(&self) -> Option<crate::utils::ErrorModel> {
        let here = "SharedChannel.IsValid"@;
        let details = "id="@ + self.channel_id@;
        if !crate::utils::valid_id(self.channel_id@) {
            Some(id_fault(here, "ChannelId="@, self.channel_id@))
        } else if self.type_@ != CHANNEL_TYPE_DIRECT@ && self.type_@ != CHANNEL_TYPE_GROUP@
            && !crate::utils::valid_id(self.team_id@) {
            Some(id_fault(here, "TeamId="@, self.team_id@))
        } else if self.create_at == 0 {
            Some(shared_fault(here, "create_at"@, details))
        } else if self.update_at == 0 {
            Some(shared_fault(here, "update_at"@, details))
        } else if self.share_display_name@.len() > CHANNEL_DISPLAY_NAME_MAX_RUNES {
            Some(shared_fault(here, "display_name"@, details))
        } else if !crate::utils::valid_channel_identifier(self.share_name@) {
            Some(shared_fault(here, "1_or_more"@, details))
        } else if self.share_header@.len() > CHANNEL_HEADER_MAX_RUNES {
            Some(shared_fault(here, "header"@, details))
        } else if self.share_purpose@.len() > CHANNEL_PURPOSE_MAX_RUNES {
            Some(shared_fault(here, "purpose"@, details))
        } else if !crate::utils::valid_id(self.creator_id@) {
            Some(shared_fault(here, "creator_id"@, "CreatorId="@ + self.creator_id@))
        } else if !self.home && !crate::utils::valid_id(self.remote_id@) {
            Some(id_fault(here, "RemoteId="@, self.remote_id@))
        } else {
            None
        }
    }

    /// Whether the shared channel is in order. Direct and group messages need no team; a channel
    /// that is not at home needs its remote cluster.
    pub fn is_valid(&self) -> (r: AppResult)
        ensures
            crate::utils::fault_of(r) == self.fault(),
    {
        let here: &'static str = "SharedChannel.IsValid";
        let details: String = cat("id=", self.channel_id.as_str());
        if !is_valid_id(self.channel_id.as_str()) {
            return Err(
                shared_error(here, "id", cat("ChannelId=", self.channel_id.as_str()).as_str()),
            );
        }
        if !same(self.type_.as_str(), CHANNEL_TYPE_DIRECT) && !same(
            self.type_.as_str(),
            CHANNEL_TYPE_GROUP,
        ) && !is_valid_id(self.team_id.as_str()) {
            return Err(shared_error(here, "id", cat("TeamId=", self.team_id.as_str()).as_str()));
        }
        if self.create_at == 0 {
            return Err(shared_error(here, "create_at", details.as_str()));
        }
        if self.update_at == 0 {
            return Err(shared_error(here, "update_at", details.as_str()));
        }
        if self.share_display_name.as_str().unicode_len() > CHANNEL_DISPLAY_NAME_MAX_RUNES {
            return Err(shared_error(here, "display_name", details.as_str()));
        }
        if !is_valid_channel_identifier(self.share_name.as_str()) {
            return Err(shared_error(here, "1_or_more", details.as_str()));
        }
        if self.share_header.as_str().unicode_len() > CHANNEL_HEADER_MAX_RUNES {
            return Err(shared_error(here, "header", details.as_str()));
        }
        if self.share_purpose.as_str().unicode_len() > CHANNEL_PURPOSE_MAX_RUNES {
            return Err(shared_error(here, "purpose", details.as_str()));
        }
        if !is_valid_id(self.creator_id.as_str()) {
            return Err(
                shared_error(
                    here,
                    "creator_id",
                    cat("CreatorId=", self.creator_id.as_str()).as_str(),
                ),
            );
        }
        if !self.home && !is_valid_id(self.remote_id.as_str()) {
            return Err(shared_error(here, "id", cat("RemoteId=", self.remote_id.as_str()).as_str()));
        }
        Ok(())
    }

    /// Whether this is a channel with clean names and new times.
    pub open spec fn is_cleaned(
        &self,
        before: SharedChannel,
        create_at: int,
        update_at: int,
    ) -> bool {
        &&& *self == (SharedChannel {
            share_name: self.share_name,
            share_display_name: self.share_display_name,
            create_at: self.create_at,
            update_at: self.update_at,
            ..before
        })
        &&& self.share_name@ == crate::utils::wanted(before.share_name@)
        &&& self.share_display_name@ == crate::utils::wanted(before.share_display_name@)
        &&& self.create_at == create_at
        &&& self.update_at == update_at
    }

    /// Makes the channel ready for storing at an instant.
    pub fn pre_save_at(&mut self, now: i64)
        ensures
            final(self).is_cleaned(*old(self), now as int, now as int),
    {
        self.share_name = sanitize_unicode(self.share_name.as_str());
        self.share_display_name = sanitize_unicode(self.share_display_name.as_str());
        self.create_at = now;
        self.update_at = now;
    }

    /// Makes the channel ready for storing: clean names, and the time.
    pub fn pre_save(&mut self)
        ensures
            exists|now: int|
                crate::utils::is_clock(now) && #[trigger] final(self).is_cleaned(
                    *old(self),
                    now,
                    now,
                ),
    {
        let now: i64 = get_millis();
        self.pre_save_at(now);
    }

    /// Makes a changed channel ready for storing at an instant.
    pub fn pre_update_at(&mut self, now: i64)
        ensures
            final(self).is_cleaned(*old(self), old(self).create_at as int, now as int),
    {
        self.update_at = now;
        self.share_name = sanitize_unicode(self.share_name.as_str());
        self.share_display_name = sanitize_unicode(self.share_display_name.as_str());
    }

    /// Makes a changed channel ready for storing: clean names, and the time of the change.
    pub fn pre_update(&mut self)
        ensures
            exists|now: int|
                crate::utils::is_clock(now) && #[trigger] final(self).is_cleaned(
                    *old(self),
                    old(self).create_at as int,
                    now,
                ),
    {
        let now: i64 = get_millis();
        self.pre_update_at(now);
    }
}

/// A remote cluster that shares a channel, and how far it is synchronised.
#[derive(Debug, Clone, Default, PartialEq, Eq)]
pub struct SharedChannelRemote {
    pub id: String,
    pub channel_id: String,
    pub creator_id: String,
    pub create_at: i64,
    pub update_at: i64,
    pub delete_at: i64,
    pub is_invite_accepted: bool,
    pub is_invite_confirmed: bool,
    pub remote_id: String,
    pub last_post_update_at: i64,
    pub last_post_update_id: String,
    pub last_post_create_at: i64,
    pub last_post_create_id: String,
    pub last_members_sync_at: i64,
}

impl SharedChannelRemote {
    /// The first thing that is wrong with the remote.
    pub open spec fn fault(&self) -> Option<crate::utils::ErrorModel> {
        let here = "SharedChannelRemote.IsValid"@;
        let details = "id="@ + self.channel_id@;
        if !crate::utils::valid_id(self.id@) {
            Some(id_fault(here, "Id="@, self.id@))
        } else if !crate::utils::valid_id(self.channel_id@) {
            Some(id_fault(here, "ChannelId="@, self.channel_id@))
        } else if self.create_at == 0 {
            Some(shared_fault(here, "create_at"@, details))
        } else if self.update_at == 0 {
            Some(shared_fault(here, "update_at"@, details))
        } else if !crate::utils::valid_id(self.creator_id@) {
            Some(shared_fault(here, "creator_id"@, "id="@ + self.creator_id@))
        } else {
            None
        }
    }

    /// Whether the remote is in order.
    pub fn is_valid(&self) -> (r: AppResult)
        ensures
            crate::utils::fault_of(r) == self.fault(),
    {
        let here: &'static str = "SharedChannelRemote.IsValid";
        let details: String = cat("id=", self.channel_id.as_str());
        if !is_valid_id(self.id.as_str()) {
            return Err(shared_error(here, "id", cat("Id=", self.id.as_str()).as_str()));
        }
        if !is_valid_id(self.channel_id.as_str()) {
            return Err(
                shared_error(here, "id", cat("ChannelId=", self.channel_id.as_str()).as_str()),
            );
        }
        if self.create_at == 0 {
            return Err(shared_error(here, "create_at", details.as_str()));
        }
        if self.update_at == 0 {
            return Err(shared_error(here, "update_at", details.as_str()));
        }
        if !is_valid_id(self.creator_id.as_str()) {
            return Err(
                shared_error(here, "creator_id", cat("id=", self.creator_id.as_str()).as_str()),
            );
        }
        Ok(())
    }

    /// Whether this is a remote that was made ready for storing at an instant. The time it was made
    /// stays where it is known; it is changed now.
    pub open spec fn is_saved(&self, before: SharedChannelRemote, now: int) -> bool {
        &&& *self == (SharedChannelRemote {
            id: self.id,
            create_at: self.create_at,
            update_at: self.update_at,
            ..before
        })
        &&& crate::utils::kept_or_new_id(self.id@, before.id@)
        &&& self.create_at == (if before.create_at == 0 {
            now
        } else {
            before.create_at as int
        })
        &&& self.update_at == now
    }

    /// Makes the remote ready for storing at an instant.
    pub fn pre_save_at(&mut self, now: i64)
        ensures
            final(self).is_saved(*old(self), now as int),
    {
        ensure_id(&mut self.id);
        if self.create_at == 0 {
            self.create_at = now;
        }
        self.update_at = now;
    }

    /// Makes the remote ready for storing: an id and the time it was made, each where there is
    /// none, and the time of the change.
    pub fn pre_save(&mut self)
        ensures
            exists|now: int|
                crate::utils::is_clock(now) && #[trigger] final(self).is_saved(*old(self), now),
    {
        let now: i64 = get_millis();
        self.pre_save_at(now);
    }

    /// Sets the time of the last change to an instant.
    pub fn pre_update_at(&mut self, now: i64)
        ensures
            *final(self) == (SharedChannelRemote { update_at: now, ..*old(self) }),
    {
        self.update_at = now;
    }

    /// Sets the time of the last change.
    pub fn pre_update(&mut self)
        ensures
            *final(self) == (SharedChannelRemote {
                update_at: final(self).update_at,
                ..*old(self)
            }),
            crate::utils::is_clock(final(self).update_at as int),
    {
        let now: i64 = get_millis();
        self.pre_update_at(now);
    }
}

/// What administrators see of a remote.
#[derive(Debug, Clone, Default, PartialEq, Eq)]
pub struct SharedChannelRemoteStatus {
    pub channel_id: String,
    pub remote_id: String,
    pub display_name: String,
    pub site_url: String,
    pub last_ping_at: i64,
    pub last_sync_at: i64,
    pub read_only: bool,
    pub is_invite_accepted: bool,
    pub token: String,
}

/// How far a user is synchronised with a remote.
#[derive(Debug, Clone, Default, PartialEq, Eq)]
pub struct SharedChannelUser {
    pub id: String,
    pub user_id: String,
    pub channel_id: String,
    pub remote_id: String,
    pub create_at: i64,
    pub last_sync_at: i64,
}

impl SharedChannelUser {
    /// Whether this is a user that was made ready for storing at an instant: with a new id,
    /// whatever it had before.
    pub open spec fn is_saved(&self, before: SharedChannelUser, now: int) -> bool {
        &&& *self == (SharedChannelUser { id: self.id, create_at: self.create_at, ..before })
        &&& crate::utils::is_random_text(self.id@, 26)
        &&& crate::utils::valid_id(self.id@)
        &&& self.create_at == now
    }

    /// Makes the user ready for storing at an instant.
    pub fn pre_save_at(&mut self, now: i64)
        ensures
            final(self).is_saved(*old(self), now as int),
    {
        self.id = new_id();
        self.create_at = now;
    }

    /// Makes the user ready for storing: a new id, and the time.
    pub fn pre_save(&mut self)
        ensures
            exists|now: int|
                crate::utils::is_clock(now) && #[trigger] final(self).is_saved(*old(self), now),
    {
        let now: i64 = get_millis();
        self.pre_save_at(now);
    }

    /// The first thing that is wrong with the user.
    pub open spec fn fault(&self) -> Option<crate::utils::ErrorModel> {
        let here = "SharedChannelUser.IsValid"@;
        if !crate::utils::valid_id(self.id@) {
            Some(id_fault(here, "Id="@, self.id@))
        } else if !crate::utils::valid_id(self.user_id@) {
            Some(id_fault(here, "UserId="@, self.user_id@))
        } else if !crate::utils::valid_id(self.channel_id@) {
            Some(id_fault(here, "ChannelId="@, self.channel_id@))
        } else if !crate::utils::valid_id(self.remote_id@) {
            Some(id_fault(here, "RemoteId="@, self.remote_id@))
        } else if self.create_at == 0 {
            Some(shared_fault(here, "create_at"@, ""@))
        } else {
            None
        }
    }

    /// Whether the user is in order.
    pub fn is_valid(&self) -> (r: AppResult)
        ensures
            crate::utils::fault_of(r) == self.fault(),
    {
        let here: &'static str = "SharedChannelUser.IsValid";
        if !is_valid_id(self.id.as_str()) {
            return Err(shared_error(here, "id", cat("Id=", self.id.as_str()).as_str()));
        }
        if !is_valid_id(self.user_id.as_str()) {
            return Err(shared_error(here, "id", cat("UserId=", self.user_id.as_str()).as_str()));
        }
        if !is_valid_id(self.channel_id.as_str()) {
            return Err(
                shared_error(here, "id", cat("ChannelId=", self.channel_id.as_str()).as_str()),
            );
        }
        if !is_valid_id(self.remote_id.as_str()) {
            return Err(shared_error(here, "id", cat("RemoteId=", self.remote_id.as_str()).as_str()));
        }
        if self.create_at == 0 {
            return Err(shared_error(here, "create_at", ""));
        }
        Ok(())
    }
}

/// Which users to synchronise.
#[derive(Debug, Clone, Default, PartialEq, Eq)]
pub struct GetUsersForSyncFilter {
    pub check_profile_image: bool,
    pub channel_id: String,
    pub limit: u64,
}

/// How far a file is synchronised with a remote.
#[derive(Debug, Clone, Default, PartialEq, Eq)]
pub struct SharedChannelAttachment {
    pub id: String,
    pub file_id: String,
    pub remote_id: String,
    pub create_at: i64,
    pub last_sync_at: i64,
}

impl SharedChannelAttachment {
    /// Whether this is an attachment that was made ready for storing at an instant. The time it was
    /// made stays where it is known; it is synchronised now.
    pub open spec fn is_saved(&self, before: SharedChannelAttachment, now: int) -> bool {
        &&& *self == (SharedChannelAttachment {
            id: self.id,
            create_at: self.create_at,
            last_sync_at: self.last_sync_at,
            ..before
        })
        &&& crate::utils::kept_or_new_id(self.id@, before.id@)
        &&& self.create_at == (if before.create_at == 0 {
            now
        } else {
            before.create_at as int
        })
        &&& self.last_sync_at == now
    }

    /// Makes the attachment ready for storing at an instant.
    pub fn pre_save_at(&mut self, now: i64)
        ensures
            final(self).is_saved(*old(self), now as int),
    {
        ensure_id(&mut self.id);
        if self.create_at == 0 {
            self.create_at = now;
        }
        self.last_sync_at = now;
    }

    /// Makes the attachment ready for storing, for the first time or again.
    pub fn pre_save(&mut self)
        ensures
            exists|now: int|
                crate::utils::is_clock(now) && #[trigger] final(self).is_saved(*old(self), now),
    {
        let now: i64 = get_millis();
        self.pre_save_at(now);
    }

    /// The first thing that is wrong with the attachment.
    pub open spec fn fault(&self) -> Option<crate::utils::ErrorModel> {
        let here = "SharedChannelAttachment.IsValid"@;
        if !crate::utils::valid_id(self.id@) {
            Some(id_fault(here, "Id="@, self.id@))
        } else if !crate::utils::valid_id(self.file_id@) {
            Some(id_fault(here, "FileId="@, self.file_id@))
        } else if !crate::utils::valid_id(self.remote_id@) {
            Some(id_fault(here, "RemoteId="@, self.remote_id@))
        } else if self.create_at == 0 {
            Some(shared_fault(here, "create_at"@, ""@))
        } else {
            None
        }
    }

    /// Whether the attachment is in order.
    pub fn is_valid(&self) -> (r: AppResult)
        ensures
            crate::utils::fault_of(r) == self.fault(),
    {
        let here: &'static str = "SharedChannelAttachment.IsValid";
        if !is_valid_id(self.id.as_str()) {
            return Err(shared_error(here, "id", cat("Id=", self.id.as_str()).as_str()));
        }
        if !is_valid_id(self.file_id.as_str()) {
            return Err(shared_error(here, "id", cat("FileId=", self.file_id.as_str()).as_str()));
        }
        if !is_valid_id(self.remote_id.as_str()) {
            return Err(shared_error(here, "id", cat("RemoteId=", self.remote_id.as_str()).as_str()));
        }
        if self.create_at == 0 {
            return Err(shared_error(here, "create_at", ""));
        }
        Ok(())
    }
}

/// Which shared channels to list.
#[derive(Debug, Clone, Default, PartialEq, Eq)]
pub struct SharedChannelFilterOpts {
    pub team_id: String,
    pub creator_id: String,
    pub member_id: String,
    pub exclude_home: bool,
    pub exclude_remote: bool,
}

/// Which remotes to list.
#[derive(Debug, Clone, Default, PartialEq, Eq)]
pub struct SharedChannelRemoteFilterOpts {
    pub channel_id: String,
    pub remote_id: String,
    pub include_unconfirmed: bool,
    pub exclude_confirmed: bool,
    pub exclude_home: bool,
    pub exclude_remote: bool,
    pub include_deleted: bool,
}

/// That a user joined or left a channel.
#[derive(Debug, Clone, Default, PartialEq, Eq)]
pub struct MembershipChangeMsg {
    pub channel_id: String,
    pub user_id: String,
    pub is_add: bool,
    pub remote_id: String,
    pub change_time: i64,
}

/// Changes that are sent to a remote together.
#[derive(Debug, Clone, Default, PartialEq, Eq)]
pub struct SyncMsg {
    pub id: String,
    pub channel_id: String,
    /// Users by their ids.
    pub users: Option<StrMap<User>>,
    pub posts: Option<Vec<Post>>,
    pub reactions: Option<Vec<Reaction>>,
    pub statuses: Option<Vec<Status>>,
    pub membership_changes: Option<Vec<MembershipChangeMsg>>,
    pub acknowledgements: Option<Vec<PostAcknowledgement>>,
    /// Names of users here by their names there.
    pub mention_transforms: Option<StringMap>,
}

impl SyncMsg {
    /// A message about a channel, with an id and no changes yet.
    pub fn new(channel_id: &str) -> (m: SyncMsg)
        ensures
            crate::utils::is_random_text(m.id@, 26),
            crate::utils::valid_id(m.id@),
            m.channel_id@ == channel_id@,
            m == (SyncMsg {
                id: m.id,
                channel_id: m.channel_id,
                users: None,
                posts: None,
                reactions: None,
                statuses: None,
                membership_changes: None,
                acknowledgements: None,
                mention_transforms: None,
            }),
    {
        SyncMsg {
            id: new_id(),
            channel_id: channel_id.to_string(),
            users: None,
            posts: None,
            reactions: None,
            statuses: None,
            membership_changes: None,
            acknowledgements: None,
            mention_transforms: None,
        }
    }
}

/// What a remote answers to changes.
#[derive(Debug, Clone, Default, PartialEq, Eq)]
pub struct SyncResponse {
    pub users_last_update_at: i64,
    pub user_errors: Option<Vec<String>>,
    pub users_syncd: Option<Vec<String>>,
    pub posts_last_update_at: i64,
    pub post_errors: Option<Vec<String>>,
    pub reactions_last_update_at: i64,
    pub reaction_errors: Option<Vec<String>>,
    pub acknowledgements_last_update_at: i64,
    pub acknowledgement_errors: Option<Vec<String>>,
    /// Ids of users.
    pub status_errors: Option<Vec<String>>,
    pub membership_errors: Option<Vec<String>>,
}

/// How a plugin shares channels.
#[derive(Debug, Clone, Default, PartialEq, Eq)]
pub struct RegisterPluginOpts {
    pub displayname: String,
    pub plugin_id: String,
    pub creator_id: String,
    pub auto_share_dms: bool,
    pub auto_invited: bool,
    pub site_url: String,
}

impl RegisterPluginOpts {
    /// The options as bits.
    pub fn get_option_flags(&self) -> (flags: Bitmask)
        ensures
            flags.0 == (if self.auto_share_dms {
                1int
            } else {
                0
            }) + (if self.auto_invited {
                2int
            } else {
                0
            }),
    {
        let mut flags: Bitmask = Bitmask(0);
        if self.auto_share_dms {
            flags.set_bit(Bitmask::AUTO_SHARE_DMS);
        }
        if self.auto_invited {
            flags.set_bit(Bitmask::AUTO_INVITED);
        }
        assert(0u32 | 1u32 == 1u32) by (bit_vector);
        assert(0u32 | 2u32 == 2u32) by (bit_vector);
        assert(1u32 | 2u32 == 3u32) by (bit_vector);
        flags
    }
}

/// A user with valid ids that was made ready for storing is in order, unless the clock stands at the
/// epoch.
pub proof fn saved_users_are_valid(before: SharedChannelUser, after: SharedChannelUser, now: int)
    requires
        after.is_saved(before, now),
        now != 0,
        crate::utils::valid_id(before.user_id@),
        crate::utils::valid_id(before.channel_id@),
        crate::utils::valid_id(before.remote_id@),
    ensures
        after.fault() is None,
{
}

/// An attachment with valid ids that was made ready for storing is in order, unless the clock
/// stands at the epoch.
pub proof fn saved_attachments_are_valid(
    before: SharedChannelAttachment,
    after: SharedChannelAttachment,
    now: int,
)
    requires
        after.is_saved(before, now),
        now != 0,
        before.id@.len() == 0 || crate::utils::valid_id(before.id@),
        crate::utils::valid_id(before.file_id@),
        crate::utils::valid_id(before.remote_id@),
    ensures
        after.fault() is None,
{
}

/// Making a remote ready for storing again keeps its id and the time it was made, whatever the clock
/// shows. Only the time of the change moves.
pub proof fn saved_remotes_keep_their_origin(
    before: SharedChannelRemote,
    once: SharedChannelRemote,
    twice: SharedChannelRemote,
    now: int,
    later: int,
)
    requires
        once.is_saved(before, now),
        now != 0,
        twice.is_saved(once, later),
    ensures
        twice.id@ == once.id@,
        twice.create_at == once.create_at,
        twice.update_at == later,
        before.id@.len() > 0 ==> twice.id@ == before.id@,
        before.create_at != 0 ==> twice.create_at == before.create_at,
{
}

/// A remote with valid ids that was made ready for storing is in order, unless the clock stands at
/// the epoch.
pub proof fn saved_remotes_are_valid(
    before: SharedChannelRemote,
    after: SharedChannelRemote,
    now: int,
)
    requires
        after.is_saved(before, now),
        now != 0,
        before.id@.len() == 0 || crate::utils::valid_id(before.id@),
        crate::utils::valid_id(before.channel_id@),
        crate::utils::valid_id(before.creator_id@),
    ensures
        after.fault() is None,
{
}

/// A shared channel is in order if and only if all of these hold.
pub proof fn valid_shared_channels(c: SharedChannel)
    ensures
        (c.fault() is None) == ({
            &&& crate::utils::valid_id(c.channel_id@)
            &&& c.type_@ == "D"@ || c.type_@ == "G"@ || crate::utils::valid_id(c.team_id@)
            &&& c.create_at != 0 && c.update_at != 0
            &&& c.share_display_name@.len() <= 64
            &&& crate::utils::valid_channel_identifier(c.share_name@)
            &&& c.share_header@.len() <= 1024
            &&& c.share_purpose@.len() <= 250
            &&& crate::utils::valid_id(c.creator_id@)
            &&& c.home || crate::utils::valid_id(c.remote_id@)
        }),
{
}

/// A remote is in order if and only if all of these hold.
pub proof fn valid_remotes(r: SharedChannelRemote)
    ensures
        (r.fault() is None) == (crate::utils::valid_id(r.id@) && crate::utils::valid_id(r.channel_id@)
            && crate::utils::valid_id(r.creator_id@) && r.create_at != 0 && r.update_at != 0),
{
}

/// A user is in order if and only if all of these hold.
pub proof fn valid_shared_users(u: SharedChannelUser)
    ensures
        (u.fault() is None) == (crate::utils::valid_id(u.id@) && crate::utils::valid_id(u.user_id@)
            && crate::utils::valid_id(u.channel_id@) && crate::utils::valid_id(u.remote_id@)
            && u.create_at != 0),
{
}

/// An attachment is in order if and only if all of these hold.
pub proof fn valid_attachments(a: SharedChannelAttachment)
    ensures
        (a.fault() is None) == (crate::utils::valid_id(a.id@) && crate::utils::valid_id(a.file_id@)
            && crate::utils::valid_id(a.remote_id@) && a.create_at != 0),
{
}

/// Making a channel ready cleans its two names and notes the times; all else stays.
pub proof fn cleaned_channels_keep_the_rest(
    before: SharedChannel,
    after: SharedChannel,
    create_at: int,
    update_at: int,
)
    requires
        after.is_cleaned(before, create_at, update_at),
    ensures
        after.create_at == create_at && after.update_at == update_at,
        after.share_name@ == crate::utils::wanted(before.share_name@),
        after.share_display_name@ == crate::utils::wanted(before.share_display_name@),
        after == (SharedChannel {
            share_name: after.share_name,
            share_display_name: after.share_display_name,
            create_at: after.create_at,
            update_at: after.update_at,
            ..before
        }),
{
}

/// An attachment keeps its id, its file, its remote and the time it was made; it is synchronised
/// anew each time.
pub proof fn saved_attachments_are_synchronised(
    before: SharedChannelAttachment,
    after: SharedChannelAttachment,
    now: int,
)
    requires
        after.is_saved(before, now),
    ensures
        after.last_sync_at == now,
        after.create_at == (if before.create_at != 0 {
            before.create_at as int
        } else {
            now
        }),
        before.id@.len() > 0 ==> after.id@ == before.id@,
        after.file_id == before.file_id && after.remote_id == before.remote_id,
{
}

/// Where one field alone has to change for a shared channel to be in order, the error is that
/// of the field.
pub proof fn faults_of_a_shared_channel_are_named(bad: SharedChannel, good: SharedChannel)
    requires
        bad.fault() is Some,
        good.fault() is None,
    ensures
        good == (SharedChannel { channel_id: good.channel_id, ..bad }) ==> crate::utils::reports(
            bad.fault()->0,
            "SharedChannel.IsValid"@,
            "model.channel.is_valid."@ + "id"@ + ".app_error"@,
            "ChannelId="@ + bad.channel_id@,
            400,
        ),
        good == (SharedChannel { team_id: good.team_id, ..bad }) ==> crate::utils::reports(
            bad.fault()->0,
            "SharedChannel.IsValid"@,
            "model.channel.is_valid."@ + "id"@ + ".app_error"@,
            "TeamId="@ + bad.team_id@,
            400,
        ),
        good == (SharedChannel { create_at: good.create_at, ..bad }) ==> crate::utils::reports(
            bad.fault()->0,
            "SharedChannel.IsValid"@,
            "model.channel.is_valid."@ + "create_at"@ + ".app_error"@,
            "id="@ + bad.channel_id@,
            400,
        ),
        good == (SharedChannel { update_at: good.update_at, ..bad }) ==> crate::utils::reports(
            bad.fault()->0,
            "SharedChannel.IsValid"@,
            "model.channel.is_valid."@ + "update_at"@ + ".app_error"@,
            "id="@ + bad.channel_id@,
            400,
        ),
        good == (SharedChannel { share_display_name: good.share_display_name, ..bad }) ==> crate::utils::reports(
            bad.fault()->0,
            "SharedChannel.IsValid"@,
            "model.channel.is_valid."@ + "display_name"@ + ".app_error"@,
            "id="@ + bad.channel_id@,
            400,
        ),
        good == (SharedChannel { share_name: good.share_name, ..bad }) ==> crate::utils::reports(
            bad.fault()->0,
            "SharedChannel.IsValid"@,
            "model.channel.is_valid."@ + "1_or_more"@ + ".app_error"@,
            "id="@ + bad.channel_id@,
            400,
        ),
        good == (SharedChannel { share_header: good.share_header, ..bad }) ==> crate::utils::reports(
            bad.fault()->0,
            "SharedChannel.IsValid"@,
            "model.channel.is_valid."@ + "header"@ + ".app_error"@,
            "id="@ + bad.channel_id@,
            400,
        ),
        good == (SharedChannel { share_purpose: good.share_purpose, ..bad }) ==> crate::utils::reports(
            bad.fault()->0,
            "SharedChannel.IsValid"@,
            "model.channel.is_valid."@ + "purpose"@ + ".app_error"@,
            "id="@ + bad.channel_id@,
            400,
        ),
        good == (SharedChannel { creator_id: good.creator_id, ..bad }) ==> crate::utils::reports(
            bad.fault()->0,
            "SharedChannel.IsValid"@,
            "model.channel.is_valid."@ + "creator_id"@ + ".app_error"@,
            "CreatorId="@ + bad.creator_id@,
            400,
        ),
        good == (SharedChannel { remote_id: good.remote_id, ..bad }) ==> crate::utils::reports(
            bad.fault()->0,
            "SharedChannel.IsValid"@,
            "model.channel.is_valid."@ + "id"@ + ".app_error"@,
            "RemoteId="@ + bad.remote_id@,
            400,
        ),
{
}

/// What is wrong with the first fields of a shared channel is reported whatever the fields behind
/// them are.
pub proof fn faults_of_a_shared_channel_come_in_order(all: SharedChannel, good: SharedChannel)
    requires
        good.fault() is None,
    ensures
        ({
            let first = SharedChannel { channel_id: all.channel_id, ..good };
            first.fault() is Some ==> all.fault() == first.fault()
        }),
        ({
            let first = SharedChannel {
                channel_id: all.channel_id,
                type_: all.type_,
                team_id: all.team_id,
                ..good
            };
            first.fault() is Some ==> all.fault() == first.fault()
        }),
        ({
            let first = SharedChannel {
                channel_id: all.channel_id,
                type_: all.type_,
                team_id: all.team_id,
                create_at: all.create_at,
                ..good
            };
            first.fault() is Some ==> all.fault() == first.fault()
        }),
        ({
            let first = SharedChannel {
                channel_id: all.channel_id,
                type_: all.type_,
                team_id: all.team_id,
                create_at: all.create_at,
                update_at: all.update_at,
                ..good
            };
            first.fault() is Some ==> all.fault() == first.fault()
        }),
        ({
            let first = SharedChannel {
                channel_id: all.channel_id,
                type_: all.type_,
                team_id: all.team_id,
                create_at: all.create_at,
                update_at: all.update_at,
                share_display_name: all.share_display_name,
                ..good
            };
            first.fault() is Some ==> all.fault() == first.fault()
        }),
        ({
            let first = SharedChannel {
                channel_id: all.channel_id,
                type_: all.type_,
                team_id: all.team_id,
                create_at: all.create_at,
                update_at: all.update_at,
                share_display_name: all.share_display_name,
                share_name: all.share_name,
                ..good
            };
            first.fault() is Some ==> all.fault() == first.fault()
        }),
        ({
            let first = SharedChannel {
                channel_id: all.channel_id,
                type_: all.type_,
                team_id: all.team_id,
                create_at: all.create_at,
                update_at: all.update_at,
                share_display_name: all.share_display_name,
                share_name: all.share_name,
                share_header: all.share_header,
                ..good
            };
            first.fault() is Some ==> all.fault() == first.fault()
        }),
        ({
            let first = SharedChannel {
                channel_id: all.channel_id,
                type_: all.type_,
                team_id: all.team_id,
                create_at: all.create_at,
                update_at: all.update_at,
                share_display_name: all.share_display_name,
                share_name: all.share_name,
                share_header: all.share_header,
                share_purpose: all.share_purpose,
                ..good
            };
            first.fault() is Some ==> all.fault() == first.fault()
        }),
        ({
            let first = SharedChannel {
                channel_id: all.channel_id,
                type_: all.type_,
                team_id: all.team_id,
                create_at: all.create_at,
                update_at: all.update_at,
                share_display_name: all.share_display_name,
                share_name: all.share_name,
                share_header: all.share_header,
                share_purpose: all.share_purpose,
                creator_id: all.creator_id,
                ..good
            };
            first.fault() is Some ==> all.fault() == first.fault()
        }),
{
}

/// Where one field alone has to change for the remote of a shared channel to be in order, the error is that
/// of the field.
pub proof fn faults_of_a_remote_are_named(bad: SharedChannelRemote, good: SharedChannelRemote)
    requires
        bad.fault() is Some,
        good.fault() is None,
    ensures
        good == (SharedChannelRemote { id: good.id, ..bad }) ==> crate::utils::reports(
            bad.fault()->0,
            "SharedChannelRemote.IsValid"@,
            "model.channel.is_valid."@ + "id"@ + ".app_error"@,
            "Id="@ + bad.id@,
            400,
        ),
        good == (SharedChannelRemote { channel_id: good.channel_id, ..bad }) ==> crate::utils::reports(
            bad.fault()->0,
            "SharedChannelRemote.IsValid"@,
            "model.channel.is_valid."@ + "id"@ + ".app_error"@,
            "ChannelId="@ + bad.channel_id@,
            400,
        ),
        good == (SharedChannelRemote { create_at: good.create_at, ..bad }) ==> crate::utils::reports(
            bad.fault()->0,
            "SharedChannelRemote.IsValid"@,
            "model.channel.is_valid."@ + "create_at"@ + ".app_error"@,
            "id="@ + bad.channel_id@,
            400,
        ),
        good == (SharedChannelRemote { update_at: good.update_at, ..bad }) ==> crate::utils::reports(
            bad.fault()->0,
            "SharedChannelRemote.IsValid"@,
            "model.channel.is_valid."@ + "update_at"@ + ".app_error"@,
            "id="@ + bad.channel_id@,
            400,
        ),
        good == (SharedChannelRemote { creator_id: good.creator_id, ..bad }) ==> crate::utils::reports(
            bad.fault()->0,
            "SharedChannelRemote.IsValid"@,
            "model.channel.is_valid."@ + "creator_id"@ + ".app_error"@,
            "id="@ + bad.creator_id@,
            400,
        ),
{
}

/// What is wrong with the first fields of the remote of a shared channel is reported whatever the fields behind
/// them are.
pub proof fn faults_of_a_remote_come_in_order(all: SharedChannelRemote, good: SharedChannelRemote)
    requires
        good.fault() is None,
    ensures
        ({
            let first = SharedChannelRemote { id: all.id, ..good };
            first.fault() is Some ==> all.fault() == first.fault()
        }),
        ({
            let first = SharedChannelRemote { id: all.id, channel_id: all.channel_id, ..good };
            first.fault() is Some ==> all.fault() == first.fault()
        }),
        ({
            let first = SharedChannelRemote {
                id: all.id,
                channel_id: all.channel_id,
                create_at: all.create_at,
                ..good
            };
            first.fault() is Some ==> all.fault() == first.fault()
        }),
        ({
            let first = SharedChannelRemote {
                id: all.id,
                channel_id: all.channel_id,
                create_at: all.create_at,
                update_at: all.update_at,
                ..good
            };
            first.fault() is Some ==> all.fault() == first.fault()
        }),
        ({
            let first = SharedChannelRemote {
                id: all.id,
                channel_id: all.channel_id,
                create_at: all.create_at,
                update_at: all.update_at,
                creator_id: all.creator_id,
                ..good
            };
            first.fault() is Some ==> all.fault() == first.fault()
        }),
{
}

/// Where one field alone has to change for the user of a shared channel to be in order, the error is that
/// of the field.
pub proof fn faults_of_a_shared_user_are_named(bad: SharedChannelUser, good: SharedChannelUser)
    requires
        bad.fault() is Some,
        good.fault() is None,
    ensures
        good == (SharedChannelUser { id: good.id, ..bad }) ==> crate::utils::reports(
            bad.fault()->0,
            "SharedChannelUser.IsValid"@,
            "model.channel.is_valid."@ + "id"@ + ".app_error"@,
            "Id="@ + bad.id@,
            400,
        ),
        good == (SharedChannelUser { user_id: good.user_id, ..bad }) ==> crate::utils::reports(
            bad.fault()->0,
            "SharedChannelUser.IsValid"@,
            "model.channel.is_valid."@ + "id"@ + ".app_error"@,
            "UserId="@ + bad.user_id@,
            400,
        ),
        good == (SharedChannelUser { channel_id: good.channel_id, ..bad }) ==> crate::utils::reports(
            bad.fault()->0,
            "SharedChannelUser.IsValid"@,
            "model.channel.is_valid."@ + "id"@ + ".app_error"@,
            "ChannelId="@ + bad.channel_id@,
            400,
        ),
        good == (SharedChannelUser { remote_id: good.remote_id, ..bad }) ==> crate::utils::reports(
            bad.fault()->0,
            "SharedChannelUser.IsValid"@,
            "model.channel.is_valid."@ + "id"@ + ".app_error"@,
            "RemoteId="@ + bad.remote_id@,
            400,
        ),
        good == (SharedChannelUser { create_at: good.create_at, ..bad }) ==> crate::utils::reports(
            bad.fault()->0,
            "SharedChannelUser.IsValid"@,
            "model.channel.is_valid."@ + "create_at"@ + ".app_error"@,
            ""@,
            400,
        ),
{
}

/// What is wrong with the first fields of the user of a shared channel is reported whatever the fields behind
/// them are.
pub proof fn faults_of_a_shared_user_come_in_order(all: SharedChannelUser, good: SharedChannelUser)
    requires
        good.fault() is None,
    ensures
        ({
            let first = SharedChannelUser { id: all.id, ..good };
            first.fault() is Some ==> all.fault() == first.fault()
        }),
        ({
            let first = SharedChannelUser { id: all.id, user_id: all.user_id, ..good };
            first.fault() is Some ==> all.fault() == first.fault()
        }),
        ({
            let first = SharedChannelUser {
                id: all.id,
                user_id: all.user_id,
                channel_id: all.channel_id,
                ..good
            };
            first.fault() is Some ==> all.fault() == first.fault()
        }),
        ({
            let first = SharedChannelUser {
                id: all.id,
                user_id: all.user_id,
                channel_id: all.channel_id,
                remote_id: all.remote_id,
                ..good
            };
            first.fault() is Some ==> all.fault() == first.fault()
        }),
        ({
            let first = SharedChannelUser {
                id: all.id,
                user_id: all.user_id,
                channel_id: all.channel_id,
                remote_id: all.remote_id,
                create_at: all.create_at,
                ..good
            };
            first.fault() is Some ==> all.fault() == first.fault()
        }),
{
}

/// Where one field alone has to change for the attachment of a shared channel to be in order, the error is that
/// of the field.
pub proof fn faults_of_an_attachment_are_named(
    bad: SharedChannelAttachment,
    good: SharedChannelAttachment,
)
    requires
        bad.fault() is Some,
        good.fault() is None,
    ensures
        good == (SharedChannelAttachment { id: good.id, ..bad }) ==> crate::utils::reports(
            bad.fault()->0,
            "SharedChannelAttachment.IsValid"@,
            "model.channel.is_valid."@ + "id"@ + ".app_error"@,
            "Id="@ + bad.id@,
            400,
        ),
        good == (SharedChannelAttachment { file_id: good.file_id, ..bad }) ==> crate::utils::reports(
            bad.fault()->0,
            "SharedChannelAttachment.IsValid"@,
            "model.channel.is_valid."@ + "id"@ + ".app_error"@,
            "FileId="@ + bad.file_id@,
            400,
        ),
        good == (SharedChannelAttachment { remote_id: good.remote_id, ..bad }) ==> crate::utils::reports(
            bad.fault()->0,
            "SharedChannelAttachment.IsValid"@,
            "model.channel.is_valid."@ + "id"@ + ".app_error"@,
            "RemoteId="@ + bad.remote_id@,
            400,
        ),
        good == (SharedChannelAttachment { create_at: good.create_at, ..bad }) ==> crate::utils::reports(
            bad.fault()->0,
            "SharedChannelAttachment.IsValid"@,
            "model.channel.is_valid."@ + "create_at"@ + ".app_error"@,
            ""@,
            400,
        ),
{
}

/// What is wrong with the first fields of the attachment of a shared channel is reported whatever the fields behind
/// them are.
pub proof fn faults_of_an_attachment_come_in_order(
    all: SharedChannelAttachment,
    good: SharedChannelAttachment,
)
    requires
        good.fault() is None,
    ensures
        ({
            let first = SharedChannelAttachment { id: all.id, ..good };
            first.fault() is Some ==> all.fault() == first.fault()
        }),
        ({
            let first = SharedChannelAttachment { id: all.id, file_id: all.file_id, ..good };
            first.fault() is Some ==> all.fault() == first.fault()
        }),
        ({
            let first = SharedChannelAttachment {
                id: all.id,
                file_id: all.file_id,
                remote_id: all.remote_id,
                ..good
            };
            first.fault() is Some ==> all.fault() == first.fault()
        }),
        ({
            let first = SharedChannelAttachment {
                id: all.id,
                file_id: all.file_id,
                remote_id: all.remote_id,
                create_at: all.create_at,
                ..good
            };
            first.fault() is Some ==> all.fault() == first.fault()
        }),
{
}

} // verus!
