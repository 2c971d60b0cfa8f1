//! Posts and what is attached to them.

use vstd::prelude::*;

use crate::str_map::StrMap;
use crate::utils::StringArray;
use crate::value::{copy_value, StringInterface, Value};

verus! {

/// Greatest number of characters of a message.
pub const POST_MESSAGE_MAX_RUNES_V2: usize = 16383;

/// Greatest number of characters of the list of files on the wire.
pub const POST_FILEIDS_MAX_RUNES: usize = 300;

/// Greatest number of characters of the properties on the wire.
pub const POST_PROPS_MAX_RUNES: usize = 800000;

/// How urgent a post is and what it asks of its readers.
#[derive(Debug, Clone, Default, PartialEq, Eq)]
pub struct PostPriority {
    pub priority: Option<String>,
    pub requested_ack: Option<bool>,
    pub persistent_notifications: Option<bool>,
    pub post_id: String,
    pub channel_id: String,
}

/// What the server works out about a post.
#[derive(Debug, Clone, Default, PartialEq, Eq)]
pub struct PostMetadata {
    pub embeds: Vec<Value>,
    pub emojis: Vec<Value>,
    pub files: Vec<Value>,
    pub reactions: Vec<Value>,
    pub priority: Option<PostPriority>,
    pub acknowledgements: Vec<Value>,
}

/// A message in a channel.
#[derive(Debug, Clone, Default, PartialEq, Eq)]
pub struct Post {
    pub id: String,
    pub create_at: i64,
    pub update_at: i64,
    pub edit_at: i64,
    pub delete_at: i64,
    pub is_pinned: bool,
    pub user_id: String,
    pub channel_id: String,
    pub root_id: String,
    pub original_id: String,
    pub message: String,
    pub post_type: String,
    pub props: Option<StringInterface>,
    pub hashtags: String,
    pub file_ids: Option<StringArray>,
    pub pending_post_id: String,
    pub has_reactions: bool,
    pub remote_id: Option<String>,
    pub metadata: Option<PostMetadata>,
}

/// An optional flag as JSON.
pub open spec fn flag_json(b: Option<bool>) -> crate::value::Json {
    match b {
        Some(b) => crate::value::Json::Bool(b),
        None => crate::value::Json::Null,
    }
}

/// A member of an object; none where a text is empty.
pub open spec fn text_unless_empty(key: Seq<char>, s: String) -> Seq<(Seq<char>, crate::value::Json)> {
    if s@.len() > 0 {
        seq![(key, crate::value::Json::Str(s@))]
    } else {
        Seq::empty()
    }
}

/// A member of an object; none where a list is empty.
pub open spec fn list_unless_empty(key: Seq<char>, items: Vec<Value>) -> Seq<
    (Seq<char>, crate::value::Json),
> {
    if items@.len() > 0 {
        seq![(key, crate::value::Json::List(json_values(items@)))]
    } else {
        Seq::empty()
    }
}

/// A priority as JSON.
pub open spec fn priority_json(p: PostPriority) -> crate::value::Json {
    crate::value::Json::Object(
        seq![
            (
                "priority"@,
                match p.priority {
                    Some(s) => crate::value::Json::Str(s@),
                    None => crate::value::Json::Null,
                },
            ),
            ("requested_ack"@, flag_json(p.requested_ack)),
            ("persistent_notifications"@, flag_json(p.persistent_notifications)),
        ] + text_unless_empty("PostId"@, p.post_id) + text_unless_empty("ChannelId"@, p.channel_id),
    )
}

/// Metadata as JSON. What is empty is left out.
pub open spec fn metadata_json(m: PostMetadata) -> crate::value::Json {
    crate::value::Json::Object(
        list_unless_empty("embeds"@, m.embeds) + list_unless_empty("emojis"@, m.emojis)
            + list_unless_empty("files"@, m.files) + list_unless_empty("reactions"@, m.reactions)
            + match m.priority {
            Some(p) => seq![("priority"@, priority_json(p))],
            None => Seq::empty(),
        } + list_unless_empty("acknowledgements"@, m.acknowledgements),
    )
}

fn flag_value(b: Option<bool>) -> (v: Value)
    ensures
        v@ == flag_json(b),
{
    match b {
        Some(b) => Value::Bool(b),
        None => Value::Null,
    }
}

fn push_text(out: &mut Vec<(String, Value)>, key: &str, s: &String)
    ensures
        crate::value::members(final(out)@) == crate::value::members(old(out)@) + text_unless_empty(
            key@,
            *s,
        ),
{
    let ghost before = out@;
    if !s.as_str().is_empty() {
        out.push((key.to_owned(), Value::Str(s.clone())));
    }
    assert(crate::value::members(out@) =~= crate::value::members(before) + text_unless_empty(
        key@,
        *s,
    ));
}

fn push_list(out: &mut Vec<(String, Value)>, key: &str, items: &Vec<Value>)
    ensures
        crate::value::members(final(out)@) == crate::value::members(old(out)@) + list_unless_empty(
            key@,
            *items,
        ),
{
    let ghost before = out@;
    if items.len() > 0 {
        let copied: Vec<Value> = copy_values(items);
        proof {
            crate::value::list_items(copied);
            assert(copied@.map_values(|v: Value| v@) =~= json_values(items@));
        }
        out.push((key.to_owned(), Value::List(copied)));
    }
    assert(crate::value::members(out@) =~= crate::value::members(before) + list_unless_empty(
        key@,
        *items,
    ));
}

/// A priority as a value.
pub fn priority_value(p: &PostPriority) -> (v: Value)
    ensures
        v@ == priority_json(*p),
{
    let mut out: Vec<(String, Value)> = Vec::new();
    let label: Value = match &p.priority {
        Some(s) => Value::Str(s.clone()),
        None => Value::Null,
    };
    out.push(("priority".to_owned(), label));
    out.push(("requested_ack".to_owned(), flag_value(p.requested_ack)));
    out.push(("persistent_notifications".to_owned(), flag_value(p.persistent_notifications)));
    push_text(&mut out, "PostId", &p.post_id);
    push_text(&mut out, "ChannelId", &p.channel_id);
    proof {
        crate::value::object_members(out);
        assert(crate::value::members(out@) =~= priority_json(*p)->Object_0);
    }
    Value::Object(out)
}

/// Metadata as a value. What is empty is left out.
pub fn metadata_value(m: &PostMetadata) -> (v: Value)
    ensures
        v@ == metadata_json(*m),
{
    let mut out: Vec<(String, Value)> = Vec::new();
    push_list(&mut out, "embeds", &m.embeds);
    push_list(&mut out, "emojis", &m.emojis);
    push_list(&mut out, "files", &m.files);
    push_list(&mut out, "reactions", &m.reactions);
    if let Some(p) = &m.priority {
        let ghost before = out@;
        out.push(("priority".to_owned(), priority_value(p)));
        assert(crate::value::members(out@) =~= crate::value::members(before) + seq![
            ("priority"@, priority_json(*p)),
        ]);
    }
    push_list(&mut out, "acknowledgements", &m.acknowledgements);
    proof {
        crate::value::object_members(out);
        assert(crate::value::members(out@) =~= metadata_json(*m)->Object_0);
    }
    Value::Object(out)
}

/// What a list of values stands for.
pub open spec fn json_values(items: Seq<Value>) -> Seq<crate::value::Json> {
    items.map_values(|v: Value| v@)
}

/// What the properties stand for: each name with its value.
pub open spec fn json_map(m: Map<Seq<char>, Value>) -> Map<Seq<char>, crate::value::Json> {
    m.map_values(|v: Value| v@)
}

/// What optional properties stand for.
pub open spec fn opt_json_map(m: Option<StringInterface>) -> Option<
    Map<Seq<char>, crate::value::Json>,
> {
    match m {
        Some(x) => Some(json_map(x@)),
        None => None,
    }
}

/// Whether two priorities say the same.
pub open spec fn same_priority(a: PostPriority, b: PostPriority) -> bool {
    &&& crate::text::opt_view(a.priority) == crate::text::opt_view(b.priority)
    &&& a.requested_ack == b.requested_ack
    &&& a.persistent_notifications == b.persistent_notifications
    &&& a.post_id@ == b.post_id@
    &&& a.channel_id@ == b.channel_id@
}

/// Whether two optional priorities say the same.
pub open spec fn same_opt_priority(a: Option<PostPriority>, b: Option<PostPriority>) -> bool {
    match (a, b) {
        (Some(x), Some(y)) => same_priority(x, y),
        (None, None) => true,
        _ => false,
    }
}

/// Whether two metadata hold the same but for the priority.
pub open spec fn same_attachments(a: PostMetadata, b: PostMetadata) -> bool {
    &&& json_values(a.embeds@) == json_values(b.embeds@)
    &&& json_values(a.emojis@) == json_values(b.emojis@)
    &&& json_values(a.files@) == json_values(b.files@)
    &&& json_values(a.reactions@) == json_values(b.reactions@)
    &&& json_values(a.acknowledgements@) == json_values(b.acknowledgements@)
}

/// Whether two metadata hold the same.
pub open spec fn same_metadata(a: PostMetadata, b: PostMetadata) -> bool {
    same_attachments(a, b) && same_opt_priority(a.priority, b.priority)
}

/// Whether metadata hold nothing but for the priority.
pub open spec fn no_attachments(m: PostMetadata) -> bool {
    &&& m.embeds@.len() == 0
    &&& m.emojis@.len() == 0
    &&& m.files@.len() == 0
    &&& m.reactions@.len() == 0
    &&& m.acknowledgements@.len() == 0
}

/// A copy of a list of values.
pub fn copy_values(items: &Vec<Value>) -> (r: Vec<Value>)
    ensures
        json_values(r@) == json_values(items@),
{
    let mut r: Vec<Value> = Vec::new();
    let mut i: usize = 0;
    while i < items.len()
        invariant
            i <= items@.len(),
            r@.len() == i,
            forall|j: int| 0 <= j < i ==> (#[trigger] r@[j])@ == items@[j]@,
        decreases items@.len() - i,
    {
        r.push(copy_value(&items[i]));
        i = i + 1;
    }
    assert(json_values(r@) == json_values(items@));
    r
}

fn copy_priority(p: &PostPriority) -> (r: PostPriority)
    ensures
        same_priority(r, *p),
{
    PostPriority {
        priority: match &p.priority {
            Some(s) => Some(s.clone()),
            None => None,
        },
        requested_ack: p.requested_ack,
        persistent_notifications: p.persistent_notifications,
        post_id: p.post_id.clone(),
        channel_id: p.channel_id.clone(),
    }
}

/// A copy of metadata.
pub fn copy_metadata(m: &PostMetadata) -> (r: PostMetadata)
    ensures
        same_metadata(r, *m),
{
    PostMetadata {
        embeds: copy_values(&m.embeds),
        emojis: copy_values(&m.emojis),
        files: copy_values(&m.files),
        reactions: copy_values(&m.reactions),
        priority: match &m.priority {
            Some(p) => Some(copy_priority(p)),
            None => None,
        },
        acknowledgements: copy_values(&m.acknowledgements),
    }
}

impl PostMetadata {
    /// Metadata that hold nothing.
    pub fn empty() -> (m: PostMetadata)
        ensures
            no_attachments(m),
            m.priority is None,
    {
        PostMetadata {
            embeds: Vec::new(),
            emojis: Vec::new(),
            files: Vec::new(),
            reactions: Vec::new(),
            priority: None,
            acknowledgements: Vec::new(),
        }
    }
}

/// A post of which nothing is set.
pub open spec fn blank_post(p: Post) -> bool {
    &&& p.id@.len() == 0
    &&& p.user_id@.len() == 0
    &&& p.channel_id@.len() == 0
    &&& p.root_id@.len() == 0
    &&& p.original_id@.len() == 0
    &&& p.message@.len() == 0
    &&& p.post_type@.len() == 0
    &&& p.hashtags@.len() == 0
    &&& p.pending_post_id@.len() == 0
    &&& p == (Post {
        create_at: 0,
        update_at: 0,
        edit_at: 0,
        delete_at: 0,
        is_pinned: false,
        props: None,
        file_ids: None,
        has_reactions: false,
        remote_id: None,
        metadata: None,
        ..p
    })
}

impl Post {
    /// A post of which nothing is set.
    pub fn blank() -> (p: Post)
        ensures
            blank_post(p),
    {
        Post {
            id: String::new(),
            create_at: 0,
            update_at: 0,
            edit_at: 0,
            delete_at: 0,
            is_pinned: false,
            user_id: String::new(),
            channel_id: String::new(),
            root_id: String::new(),
            original_id: String::new(),
            message: String::new(),
            post_type: String::new(),
            props: None,
            hashtags: String::new(),
            file_ids: None,
            pending_post_id: String::new(),
            has_reactions: false,
            remote_id: None,
            metadata: None,
        }
    }

    /// Sets a property. The map is created where there is none.
    pub fn add_prop(&mut self, key: &str, value: Value)
        ensures
            *final(self) == (Post { props: final(self).props, ..*old(self) }),
            final(self).props is Some,
            final(self).props->0@ == (match old(self).props {
                Some(m) => m@,
                None => Map::<Seq<char>, Value>::empty(),
            }).insert(key@, value),
    {
        let taken: Option<StringInterface> = self.props.take();
        let mut m: StringInterface = match taken {
            Some(m) => m,
            None => StrMap::new(),
        };
        m.insert(key.to_owned(), value);
        self.props = Some(m);
    }
}

/// Metadata that hold the same hold the same number of everything, item for item.
pub proof fn same_attachments_are_the_same(a: PostMetadata, b: PostMetadata)
    requires
        same_attachments(a, b),
    ensures
        a.embeds@.len() == b.embeds@.len() && a.emojis@.len() == b.emojis@.len() && a.files@.len()
            == b.files@.len() && a.reactions@.len() == b.reactions@.len()
            && a.acknowledgements@.len() == b.acknowledgements@.len(),
        forall|i: int| 0 <= i < a.embeds@.len() ==> (#[trigger] a.embeds@[i])@ == b.embeds@[i]@,
        forall|i: int| 0 <= i < a.emojis@.len() ==> (#[trigger] a.emojis@[i])@ == b.emojis@[i]@,
        forall|i: int| 0 <= i < a.files@.len() ==> (#[trigger] a.files@[i])@ == b.files@[i]@,
        forall|i: int| 0 <= i < a.reactions@.len() ==> (#[trigger] a.reactions@[i])@ == b.reactions@[i]@,
        forall|i: int|
            0 <= i < a.acknowledgements@.len() ==> (#[trigger] a.acknowledgements@[i])@
                == b.acknowledgements@[i]@,
{
    same_values_are_the_same(a.embeds@, b.embeds@);
    same_values_are_the_same(a.emojis@, b.emojis@);
    same_values_are_the_same(a.files@, b.files@);
    same_values_are_the_same(a.reactions@, b.reactions@);
    same_values_are_the_same(a.acknowledgements@, b.acknowledgements@);
}

proof fn same_values_are_the_same(a: Seq<Value>, b: Seq<Value>)
    requires
        json_values(a) == json_values(b),
    ensures
        a.len() == b.len(),
        forall|i: int| 0 <= i < a.len() ==> (#[trigger] a[i])@ == b[i]@,
{
    assert(json_values(a).len() == a.len() && json_values(b).len() == b.len());
    assert forall|i: int| 0 <= i < a.len() implies (#[trigger] a[i])@ == b[i]@ by {
        assert(json_values(a)[i] == a[i]@);
        assert(json_values(b)[i] == b[i]@);
    }
}

/// A priority is written with its level and its two flags, each `null` where it is missing, and with
/// the ids that it has.
pub proof fn priorities_on_the_wire(p: PostPriority)
    ensures
        ({
            let all = priority_json(p)->Object_0;
            let flag = |b: Option<bool>|
                if b is Some {
                    crate::value::Json::Bool(b->0)
                } else {
                    crate::value::Json::Null
                };
            let one = |s: String|
                if s@.len() > 0 {
                    1int
                } else {
                    0
                };
            &&& priority_json(p) is Object
            &&& all.len() == 3 + one(p.post_id) + one(p.channel_id)
            &&& all[0].0 == "priority"@ && all[0].1 == (if p.priority is Some {
                crate::value::Json::Str(p.priority->0@)
            } else {
                crate::value::Json::Null
            })
            &&& all[1] == ("requested_ack"@, flag(p.requested_ack))
            &&& all[2] == ("persistent_notifications"@, flag(p.persistent_notifications))
            &&& p.post_id@.len() > 0 ==> all[3] == ("PostId"@, crate::value::Json::Str(p.post_id@))
            &&& p.channel_id@.len() > 0 ==> all.last() == (
                "ChannelId"@,
                crate::value::Json::Str(p.channel_id@),
            )
        }),
{
}

/// Metadata are written with what they have: each list that is not empty, and the priority.
pub proof fn metadata_on_the_wire(m: PostMetadata)
    ensures
        ({
            let all = metadata_json(m)->Object_0;
            let one = |items: Vec<Value>|
                if items@.len() > 0 {
                    1int
                } else {
                    0
                };
            let priority: int = if m.priority is Some {
                1
            } else {
                0
            };
            let emojis = one(m.embeds);
            let files = emojis + one(m.emojis);
            let reactions = files + one(m.files);
            let level = reactions + one(m.reactions);
            let rest = level + priority;
            &&& metadata_json(m) is Object
            &&& all.len() == rest + one(m.acknowledgements)
            &&& m.embeds@.len() > 0 ==> all[0] == (
                "embeds"@,
                crate::value::Json::List(json_values(m.embeds@)),
            )
            &&& m.emojis@.len() > 0 ==> all[emojis] == (
                "emojis"@,
                crate::value::Json::List(json_values(m.emojis@)),
            )
            &&& m.files@.len() > 0 ==> all[files] == (
                "files"@,
                crate::value::Json::List(json_values(m.files@)),
            )
            &&& m.reactions@.len() > 0 ==> all[reactions] == (
                "reactions"@,
                crate::value::Json::List(json_values(m.reactions@)),
            )
            &&& m.priority is Some ==> all[level] == ("priority"@, priority_json(m.priority->0))
            &&& m.acknowledgements@.len() > 0 ==> all[rest] == (
                "acknowledgements"@,
                crate::value::Json::List(json_values(m.acknowledgements@)),
            )
        }),
{
}

/// Metadata that hold the same have the same priority, or none.
pub proof fn same_metadata_have_the_same_priority(a: PostMetadata, b: PostMetadata)
    requires
        same_metadata(a, b),
    ensures
        (a.priority is Some) == (b.priority is Some),
        a.priority is Some ==> ({
            let x = a.priority->0;
            let y = b.priority->0;
            &&& (x.priority is Some) == (y.priority is Some)
            &&& x.priority is Some ==> x.priority->0@ == y.priority->0@
            &&& x.requested_ack == y.requested_ack
            &&& x.persistent_notifications == y.persistent_notifications
            &&& x.post_id@ == y.post_id@ && x.channel_id@ == y.channel_id@
        }),
        same_attachments(a, b),
{
}

/// Metadata without attachments have none of any kind.
pub proof fn no_attachments_are_none_of_any_kind(m: PostMetadata)
    ensures
        no_attachments(m) == (m.embeds@.len() == 0 && m.emojis@.len() == 0 && m.files@.len() == 0
            && m.reactions@.len() == 0 && m.acknowledgements@.len() == 0),
{
}

} // verus!
