//! Drafts: messages that are not sent yet.

use vstd::prelude::*;
use vstd::string::StrSliceExecFns;

use crate::post::{metadata_value, PostMetadata, POST_FILEIDS_MAX_RUNES, POST_PROPS_MAX_RUNES};
use crate::str_map::StrMap;
use crate::text::{cat, cat3, remove_duplicates};
use crate::utils::{get_millis, is_valid_id, AppError, AppResult, StringArray};
use crate::value::{interface_value, wire_text, StringInterface, Value};

verus! {

/// A message that is not sent yet.
#[derive(Debug, Clone, Default, PartialEq, Eq)]
pub struct Draft {
    pub create_at: i64,
    pub update_at: i64,
    pub delete_at: i64,
    pub user_id: String,
    pub channel_id: String,
    pub root_id: String,
    pub message: String,
    pub draft_type: String,
    pub props: Option<StringInterface>,
    pub file_ids: Option<StringArray>,
    pub metadata: Option<PostMetadata>,
    pub priority: Option<StringInterface>,
}

/// The error of a field of a draft.
pub open spec fn draft_fault(field: Seq<char>, details: Seq<char>) -> crate::utils::ErrorModel {
    crate::utils::plain_error(
        "Drafts.IsValid"@,
        "model.draft.is_valid."@ + field + ".app_error"@,
        details,
        400,
    )
}

fn draft_error(field: &str, details: &str) -> (e: Box<AppError>)
    ensures
        e@ == draft_fault(field@, details@),
{
    let id: String = cat3("model.draft.is_valid.", field, ".app_error");
    AppError::boxed("Drafts.IsValid", id.as_str(), None, details, 400)
}

/// An optional list of strings as JSON.
pub open spec fn strings_json(v: Option<Vec<String>>) -> crate::value::Json {
    match v {
        Some(x) => crate::value::Json::List(x@.map_values(|s: String| crate::value::Json::Str(s@))),
        None => crate::value::Json::Null,
    }
}

/// Optional properties as JSON.
pub open spec fn interface_json(m: Option<StringInterface>) -> crate::value::Json {
    match m {
        Some(x) => crate::value::Json::Object(crate::value::json_list(x.list())),
        None => crate::value::Json::Null,
    }
}

fn strings_value(v: &Option<Vec<String>>) -> (r: Value)
    ensures
        r@ == strings_json(*v),
{
    match v {
        None => Value::Null,
        Some(x) => {
            let mut items: Vec<Value> = Vec::new();
            let mut i: usize = 0;
            while i < x.len()
                invariant
                    i <= x@.len(),
                    items@.len() == i,
                    forall|j: int|
                        0 <= j < i ==> (#[trigger] items@[j])@ == crate::value::Json::Str(x@[j]@),
                decreases x@.len() - i,
            {
                items.push(Value::Str(x[i].clone()));
                i = i + 1;
            }
            proof {
                crate::value::list_items(items);
            }
            assert(items@.map_values(|v: Value| v@) == x@.map_values(
                |s: String| crate::value::Json::Str(s@),
            ));
            Value::List(items)
        },
    }
}

fn opt_interface_value(m: &Option<StringInterface>) -> (r: Value)
    ensures
        r@ == interface_json(*m),
{
    match m {
        Some(x) => interface_value(x),
        None => Value::Null,
    }
}

impl Draft {
    /// The first thing that is wrong with the draft, its message aside.
    pub open spec fn base_fault(&self) -> Option<crate::utils::ErrorModel> {
        let channel = "channelid="@ + self.channel_id@;
        if self.create_at == 0 {
            Some(draft_fault("create_at"@, channel))
        } else if self.update_at == 0 {
            Some(draft_fault("update_at"@, channel))
        } else if !crate::utils::valid_id(self.user_id@) {
            Some(draft_fault("user_id"@, ""@))
        } else if !crate::utils::valid_id(self.channel_id@) {
            Some(draft_fault("channel_id"@, ""@))
        } else if self.root_id@.len() > 0 && !crate::utils::valid_id(self.root_id@) {
            Some(draft_fault("root_id"@, ""@))
        } else if crate::value::wire(strings_json(self.file_ids)).len() > POST_FILEIDS_MAX_RUNES {
            Some(draft_fault("file_ids"@, channel))
        } else if crate::value::wire(interface_json(self.props)).len() > POST_PROPS_MAX_RUNES {
            Some(draft_fault("props"@, channel))
        } else if crate::value::wire(interface_json(self.priority)).len() > POST_PROPS_MAX_RUNES {
            Some(draft_fault("priority"@, channel))
        } else {
            None
        }
    }

    /// The first thing that is wrong with the draft.
    pub open spec fn fault(&self, max_draft_size: int) -> Option<crate::utils::ErrorModel> {
        if self.message@.len() > max_draft_size {
            Some(
                crate::utils::ErrorModel {
                    params: Some(
                        seq![
                            ("Length"@, crate::value::Json::Int(self.message@.len() as int)),
                            ("MaxLength"@, crate::value::Json::Int(max_draft_size)),
                        ],
                    ),
                    ..draft_fault("message_length"@, "channelid="@ + self.channel_id@)
                },
            )
        } else {
            self.base_fault()
        }
    }

    /// Checks the draft, its message aside.
    pub fn base_is_valid(&self) -> (r: AppResult)
        ensures
            crate::utils::fault_of(r) == self.base_fault(),
    {
        let channel: String = cat("channelid=", self.channel_id.as_str());
        if self.create_at == 0 {
            return Err(draft_error("create_at", channel.as_str()));
        }
        if self.update_at == 0 {
            return Err(draft_error("update_at", channel.as_str()));
        }
        if !is_valid_id(self.user_id.as_str()) {
            return Err(draft_error("user_id", ""));
        }
        if !is_valid_id(self.channel_id.as_str()) {
            return Err(draft_error("channel_id", ""));
        }
        if !self.root_id.as_str().is_empty() && !is_valid_id(self.root_id.as_str()) {
            return Err(draft_error("root_id", ""));
        }
        let files: String = wire_text(&strings_value(&self.file_ids));
        if files.as_str().unicode_len() > POST_FILEIDS_MAX_RUNES {
            return Err(draft_error("file_ids", channel.as_str()));
        }
        let props: String = wire_text(&opt_interface_value(&self.props));
        if props.as_str().unicode_len() > POST_PROPS_MAX_RUNES {
            return Err(draft_error("props", channel.as_str()));
        }
        let priority: String = wire_text(&opt_interface_value(&self.priority));
        if priority.as_str().unicode_len() > POST_PROPS_MAX_RUNES {
            return Err(draft_error("priority", channel.as_str()));
        }
        Ok(())
    }

    /// Checks the draft: the number of characters of its message, then all else.
    pub fn is_valid(&self, max_draft_size: i64) -> (r: AppResult)
        requires
            self.message@.len() <= i64::MAX,
        ensures
            crate::utils::fault_of(r) == self.fault(max_draft_size as int),
    {
        let length: usize = self.message.as_str().unicode_len();
        if length as i64 > max_draft_size {
            let mut params: Vec<(String, Value)> = Vec::new();
            params.push(("Length".to_owned(), Value::Int(length as i64)));
            params.push(("MaxLength".to_owned(), Value::Int(max_draft_size)));
            assert(crate::value::members(params@) == seq![
                ("Length"@, crate::value::Json::Int(self.message@.len() as int)),
                ("MaxLength"@, crate::value::Json::Int(max_draft_size as int)),
            ]);
            let details: String = cat("channelid=", self.channel_id.as_str());
            return Err(
                AppError::boxed(
                    "Drafts.IsValid",
                    cat3("model.draft.is_valid.", "message_length", ".app_error").as_str(),
                    Some(params),
                    details.as_str(),
                    400,
                ),
            );
        }
        self.base_is_valid()
    }

    /// Creates the properties and the list of files where they are missing, and removes
    /// repetitions from the latter.
    pub fn pre_commit(&mut self)
        ensures
            *final(self) == (Draft {
                props: final(self).props,
                file_ids: final(self).file_ids,
                ..*old(self)
            }),
            committed(*final(self), *old(self)),
    {
        if self.props.is_none() {
            self.props = Some(StrMap::new());
        }
        let files: Vec<String> = match &self.file_ids {
            Some(x) => remove_duplicates(x.as_slice()),
            None => Vec::new(),
        };
        proof {
            if self.file_ids is None {
                assert(crate::text::views(files@) == Seq::<Seq<char>>::empty());
            }
        }
        self.file_ids = Some(files);
    }

    /// Whether this is a draft that was made ready for storing at an instant.
    pub open spec fn is_saved(&self, before: Draft, now: int) -> bool {
        &&& *self == (Draft {
            create_at: self.create_at,
            update_at: self.update_at,
            delete_at: 0,
            props: self.props,
            file_ids: self.file_ids,
            ..before
        })
        &&& committed(*self, before)
        &&& self.create_at == (if before.create_at != 0 {
            before.create_at as int
        } else {
            now
        })
        &&& self.update_at == now
    }

    /// Prepares the draft for storing at an instant.
    pub fn pre_save_at(&mut self, now: i64)
        ensures
            final(self).is_saved(*old(self), now as int),
    {
        if self.create_at == 0 {
            self.create_at = now;
            self.update_at = self.create_at;
        } else {
            self.update_at = now;
        }
        self.delete_at = 0;
        self.pre_commit();
    }

    /// Prepares the draft for storing: the times, no deletion, and [`Draft::pre_commit`].
    pub fn pre_save(&mut self)
        ensures
            exists|now: int|
                crate::utils::is_clock(now) && #[trigger] final(self).is_saved(*old(self), now),
    {
        let now: i64 = get_millis();
        self.pre_save_at(now);
    }
}

/// The members of a draft on the wire: empty files, missing metadata and an empty priority are left
/// out, properties are not.
pub open spec fn draft_members(d: Draft) -> Seq<(Seq<char>, crate::value::Json)> {
    seq![
        ("create_at"@, crate::value::Json::Int(d.create_at as int)),
        ("update_at"@, crate::value::Json::Int(d.update_at as int)),
        ("delete_at"@, crate::value::Json::Int(d.delete_at as int)),
        ("user_id"@, crate::value::Json::Str(d.user_id@)),
        ("channel_id"@, crate::value::Json::Str(d.channel_id@)),
        ("root_id"@, crate::value::Json::Str(d.root_id@)),
        ("message"@, crate::value::Json::Str(d.message@)),
        ("type"@, crate::value::Json::Str(d.draft_type@)),
        ("props"@, interface_json(d.props)),
    ] + if d.file_ids is Some && d.file_ids->0@.len() > 0 {
        seq![("file_ids"@, strings_json(d.file_ids))]
    } else {
        Seq::empty()
    } + match d.metadata {
        Some(m) => seq![("metadata"@, crate::post::metadata_json(m))],
        None => Seq::empty(),
    } + if d.priority is Some && d.priority->0.list().len() > 0 {
        seq![("priority"@, interface_json(d.priority))]
    } else {
        Seq::empty()
    }
}

impl Draft {
    /// The members of the draft on the wire.
    pub fn to_members(&self) -> (out: Vec<(String, Value)>)
        ensures
            crate::value::members(out@) == draft_members(*self),
    {
        let mut out: Vec<(String, Value)> = Vec::new();
        out.push(("create_at".to_owned(), Value::Int(self.create_at)));
        out.push(("update_at".to_owned(), Value::Int(self.update_at)));
        out.push(("delete_at".to_owned(), Value::Int(self.delete_at)));
        out.push(("user_id".to_owned(), Value::Str(self.user_id.clone())));
        out.push(("channel_id".to_owned(), Value::Str(self.channel_id.clone())));
        out.push(("root_id".to_owned(), Value::Str(self.root_id.clone())));
        out.push(("message".to_owned(), Value::Str(self.message.clone())));
        out.push(("type".to_owned(), Value::Str(self.draft_type.clone())));
        out.push(("props".to_owned(), opt_interface_value(&self.props)));
        let has_files: bool = match &self.file_ids {
            Some(files) => files.len() > 0,
            None => false,
        };
        if has_files {
            out.push(("file_ids".to_owned(), strings_value(&self.file_ids)));
        }
        if let Some(metadata) = &self.metadata {
            out.push(("metadata".to_owned(), metadata_value(metadata)));
        }
        let has_priority: bool = match &self.priority {
            Some(priority) => !priority.is_empty(),
            None => false,
        };
        if has_priority {
            out.push(("priority".to_owned(), opt_interface_value(&self.priority)));
        }
        assert(crate::value::members(out@) =~= draft_members(*self));
        out
    }

    /// The draft as a value.
    pub fn to_value(&self) -> (v: Value)
        ensures
            v@ == crate::value::Json::Object(draft_members(*self)),
    {
        let members: Vec<(String, Value)> = self.to_members();
        proof {
            crate::value::object_members(members);
        }
        Value::Object(members)
    }
}

/// The properties and files of a draft that is ready to be stored.
pub open spec fn committed(new: Draft, old: Draft) -> bool {
    &&& match old.props {
        Some(_) => new.props == old.props,
        None => new.props is Some && new.props->0@ == Map::<Seq<char>, Value>::empty(),
    }
    &&& new.file_ids is Some
    &&& crate::text::views(new.file_ids->0@) == match old.file_ids {
        Some(x) => crate::text::firsts(crate::text::views(x@)),
        None => Seq::empty(),
    }
}

/// To create what is missing and remove repetitions a second time changes nothing.
pub proof fn committing_is_idempotent(before: Draft, once: Draft, twice: Draft)
    requires
        committed(once, before),
        committed(twice, once),
    ensures
        committed(twice, before),
        twice.props == once.props,
        crate::text::views(twice.file_ids->0@) == crate::text::views(once.file_ids->0@),
{
    match before.file_ids {
        Some(x) => {
            crate::text::firsts_are_the_distinct_strings(crate::text::views(x@));
        },
        None => {},
    }
    crate::text::distinct_strings_stay(crate::text::views(once.file_ids->0@));
}

/// A draft is in order if and only if all of these hold.
pub proof fn valid_drafts(d: Draft, max_draft_size: int)
    ensures
        (d.fault(max_draft_size) is None) == ({
            &&& d.message@.len() <= max_draft_size
            &&& d.create_at != 0 && d.update_at != 0
            &&& crate::utils::valid_id(d.user_id@) && crate::utils::valid_id(d.channel_id@)
            &&& d.root_id@.len() == 0 || crate::utils::valid_id(d.root_id@)
            &&& crate::value::wire(strings_json(d.file_ids)).len() <= 300
            &&& crate::value::wire(interface_json(d.props)).len() <= 800000
            &&& crate::value::wire(interface_json(d.priority)).len() <= 800000
        }),
{
}

/// What is ready has properties and a list of files, its own where it had them, the files without
/// repetitions.
pub proof fn committed_drafts_are_complete(before: Draft, after: Draft, file: Seq<char>)
    requires
        committed(after, before),
    ensures
        after.props is Some && after.file_ids is Some,
        before.props is Some ==> after.props == before.props,
        before.props is None ==> after.props->0@ == Map::<Seq<char>, Value>::empty(),
        before.file_ids is None ==> after.file_ids->0@.len() == 0,
        before.file_ids is Some ==> (crate::text::views(after.file_ids->0@).contains(file)
            <==> crate::text::views(before.file_ids->0@).contains(file)),
        crate::text::views(after.file_ids->0@).no_duplicates(),
{
    assert(crate::text::views(after.file_ids->0@).len() == after.file_ids->0@.len());
    if before.file_ids is Some {
        crate::text::firsts_are_the_distinct_strings(crate::text::views(before.file_ids->0@));
    }
}

/// A draft that was made ready keeps the time it was made, is not deleted, and is changed only in its
/// times, properties and files.
pub proof fn saved_drafts_keep_the_rest(before: Draft, after: Draft, now: int)
    requires
        after.is_saved(before, now),
    ensures
        after.update_at == now && after.delete_at == 0,
        before.create_at != 0 ==> after.create_at == before.create_at,
        before.create_at == 0 ==> after.create_at == now,
        committed(after, before),
        after == (Draft {
            create_at: after.create_at,
            update_at: after.update_at,
            delete_at: after.delete_at,
            props: after.props,
            file_ids: after.file_ids,
            ..before
        }),
{
}

/// Where one field alone has to change for a draft to be in order, the error is that
/// of the field.
pub proof fn faults_of_a_draft_are_named(bad: Draft, good: Draft, max_draft_size: int)
    requires
        bad.fault(max_draft_size) is Some,
        good.fault(max_draft_size) is None,
    ensures
        good == (Draft { create_at: good.create_at, ..bad }) ==> crate::utils::reports(
            bad.fault(max_draft_size)->0,
            "Drafts.IsValid"@,
            "model.draft.is_valid."@ + "create_at"@ + ".app_error"@,
            "channelid="@ + bad.channel_id@,
            400,
        ),
        good == (Draft { update_at: good.update_at, ..bad }) ==> crate::utils::reports(
            bad.fault(max_draft_size)->0,
            "Drafts.IsValid"@,
            "model.draft.is_valid."@ + "update_at"@ + ".app_error"@,
            "channelid="@ + bad.channel_id@,
            400,
        ),
        good == (Draft { user_id: good.user_id, ..bad }) ==> crate::utils::reports(
            bad.fault(max_draft_size)->0,
            "Drafts.IsValid"@,
            "model.draft.is_valid."@ + "user_id"@ + ".app_error"@,
            ""@,
            400,
        ),
        good == (Draft { channel_id: good.channel_id, ..bad }) ==> crate::utils::reports(
            bad.fault(max_draft_size)->0,
            "Drafts.IsValid"@,
            "model.draft.is_valid."@ + "channel_id"@ + ".app_error"@,
            ""@,
            400,
        ),
        good == (Draft { root_id: good.root_id, ..bad }) ==> crate::utils::reports(
            bad.fault(max_draft_size)->0,
            "Drafts.IsValid"@,
            "model.draft.is_valid."@ + "root_id"@ + ".app_error"@,
            ""@,
            400,
        ),
        good == (Draft { file_ids: good.file_ids, ..bad }) ==> crate::utils::reports(
            bad.fault(max_draft_size)->0,
            "Drafts.IsValid"@,
            "model.draft.is_valid."@ + "file_ids"@ + ".app_error"@,
            "channelid="@ + bad.channel_id@,
            400,
        ),
        good == (Draft { props: good.props, ..bad }) ==> crate::utils::reports(
            bad.fault(max_draft_size)->0,
            "Drafts.IsValid"@,
            "model.draft.is_valid."@ + "props"@ + ".app_error"@,
            "channelid="@ + bad.channel_id@,
            400,
        ),
        good == (Draft { priority: good.priority, ..bad }) ==> crate::utils::reports(
            bad.fault(max_draft_size)->0,
            "Drafts.IsValid"@,
            "model.draft.is_valid."@ + "priority"@ + ".app_error"@,
            "channelid="@ + bad.channel_id@,
            400,
        ),
{
}

/// What is wrong with the first fields of a draft is reported whatever the fields behind
/// them are.
pub proof fn faults_of_a_draft_come_in_order(all: Draft, good: Draft, max_draft_size: int)
    requires
        good.fault(max_draft_size) is None,
    ensures
        ({
            let first = Draft { message: all.message, ..good };
            first.fault(max_draft_size) is Some && all.channel_id == good.channel_id ==> all.fault(max_draft_size)
                == first.fault(max_draft_size)
        }),
        ({
            let first = Draft { message: all.message, create_at: all.create_at, ..good };
            first.fault(max_draft_size) is Some && all.channel_id == good.channel_id ==> all.fault(max_draft_size)
                == first.fault(max_draft_size)
        }),
        ({
            let first = Draft {
                message: all.message,
                create_at: all.create_at,
                update_at: all.update_at,
                ..good
            };
            first.fault(max_draft_size) is Some && all.channel_id == good.channel_id ==> all.fault(max_draft_size)
                == first.fault(max_draft_size)
        }),
        ({
            let first = Draft {
                message: all.message,
                create_at: all.create_at,
                update_at: all.update_at,
                user_id: all.user_id,
                ..good
            };
            first.fault(max_draft_size) is Some && all.channel_id == good.channel_id ==> all.fault(max_draft_size)
                == first.fault(max_draft_size)
        }),
        ({
            let first = Draft {
                message: all.message,
                create_at: all.create_at,
                update_at: all.update_at,
                user_id: all.user_id,
                channel_id: all.channel_id,
                ..good
            };
            first.fault(max_draft_size) is Some ==> all.fault(max_draft_size)
                == first.fault(max_draft_size)
        }),
        ({
            let first = Draft {
                message: all.message,
                create_at: all.create_at,
                update_at: all.update_at,
                user_id: all.user_id,
                channel_id: all.channel_id,
                root_id: all.root_id,
                ..good
            };
            first.fault(max_draft_size) is Some ==> all.fault(max_draft_size)
                == first.fault(max_draft_size)
        }),
        ({
            let first = Draft {
                message: all.message,
                create_at: all.create_at,
                update_at: all.update_at,
                user_id: all.user_id,
                channel_id: all.channel_id,
                root_id: all.root_id,
                file_ids: all.file_ids,
                ..good
            };
            first.fault(max_draft_size) is Some ==> all.fault(max_draft_size)
                == first.fault(max_draft_size)
        }),
        ({
            let first = Draft {
                message: all.message,
                create_at: all.create_at,
                update_at: all.update_at,
                user_id: all.user_id,
                channel_id: all.channel_id,
                root_id: all.root_id,
                file_ids: all.file_ids,
                props: all.props,
                ..good
            };
            first.fault(max_draft_size) is Some ==> all.fault(max_draft_size)
                == first.fault(max_draft_size)
        }),
        ({
            let first = Draft {
                message: all.message,
                create_at: all.create_at,
                update_at: all.update_at,
                user_id: all.user_id,
                channel_id: all.channel_id,
                root_id: all.root_id,
                file_ids: all.file_ids,
                props: all.props,
                priority: all.priority,
                ..good
            };
            first.fault(max_draft_size) is Some ==> all.fault(max_draft_size)
                == first.fault(max_draft_size)
        }),
{
}

/// On the wire a draft has nine members, and one more for each of its files, its metadata and its
/// priority that is there and not empty.
pub proof fn drafts_on_the_wire(d: Draft)
    ensures
        ({
            let all = draft_members(d);
            let files = d.file_ids is Some && d.file_ids->0@.len() > 0;
            let priority = d.priority is Some && d.priority->0.list().len() > 0;
            let one = |b: bool|
                if b {
                    1int
                } else {
                    0
                };
            &&& all.len() == 9 + one(files) + one(d.metadata is Some) + one(priority)
            &&& all[0] == ("create_at"@, crate::value::Json::Int(d.create_at as int))
            &&& all[1] == ("update_at"@, crate::value::Json::Int(d.update_at as int))
            &&& all[2] == ("delete_at"@, crate::value::Json::Int(d.delete_at as int))
            &&& all[3] == ("user_id"@, crate::value::Json::Str(d.user_id@))
            &&& all[4] == ("channel_id"@, crate::value::Json::Str(d.channel_id@))
            &&& all[5] == ("root_id"@, crate::value::Json::Str(d.root_id@))
            &&& all[6] == ("message"@, crate::value::Json::Str(d.message@))
            &&& all[7] == ("type"@, crate::value::Json::Str(d.draft_type@))
            &&& all[8] == ("props"@, interface_json(d.props))
            &&& files ==> all[9] == ("file_ids"@, strings_json(d.file_ids))
            &&& d.metadata is Some ==> all[9 + one(files)] == (
                "metadata"@,
                crate::post::metadata_json(d.metadata->0),
            )
            &&& priority ==> all.last() == ("priority"@, interface_json(d.priority))
        }),
{
}

/// A list that is missing is `null` on the wire, and one that is there has its strings in order.
pub proof fn missing_lists_are_null(v: Option<Vec<String>>, i: int)
    ensures
        v is None ==> strings_json(v) == crate::value::Json::Null,
        v is Some ==> strings_json(v) is List && strings_json(v)->List_0.len() == v->0@.len(),
        v is Some && 0 <= i < v->0@.len() ==> strings_json(v)->List_0[i] == crate::value::Json::Str(
            v->0@[i]@,
        ),
{
}

} // verus!
