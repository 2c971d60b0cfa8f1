//! JSON values and their text.

use vstd::prelude::*;
use vstd::string::StringExecFns;

use crate::str_map::{StrMap, StringMap};
use crate::text::{decimal_text, to_chars};

verus! {

/// A JSON value. An object keeps its members in the order in which they are written.
#[derive(Debug, PartialEq, Eq)]
pub enum Value {
    Null,
    Bool(bool),
    Int(i64),
    /// A number that is no 64-bit integer, by its text.
    Number(String),
    Str(String),
    List(Vec<Value>),
    Object(Vec<(String, Value)>),
}

/// A map from names to JSON values.
pub type StringInterface = StrMap<Value>;

/// The mathematical model of a JSON value.
pub enum Json {
    Null,
    Bool(bool),
    Int(int),
    Number(Seq<char>),
    Str(Seq<char>),
    List(Seq<Json>),
    Object(Seq<(Seq<char>, Json)>),
}

impl View for Value {
    type V = Json;

    open spec fn view(&self) -> Json {
        json(*self)
    }
}

/// What a value stands for.
pub open spec fn json(v: Value) -> Json
    decreases v,
{
    match v {
        Value::Null => Json::Null,
        Value::Bool(b) => Json::Bool(b),
        Value::Int(n) => Json::Int(n as int),
        Value::Number(s) => Json::Number(s@),
        Value::Str(s) => Json::Str(s@),
        Value::List(items) => Json::List(
            Seq::new(
                items@.len(),
                |i: int|
                    if 0 <= i < items@.len() {
                        json(items@[i])
                    } else {
                        Json::Null
                    },
            ),
        ),
        Value::Object(members) => Json::Object(
            Seq::new(
                members@.len(),
                |i: int|
                    if 0 <= i < members@.len() {
                        (members@[i].0@, json(members@[i].1))
                    } else {
                        (Seq::empty(), Json::Null)
                    },
            ),
        ),
    }
}

/// What a map of values stands for: each name with its value, in order of the names.
pub open spec fn json_list(m: Seq<(Seq<char>, Value)>) -> Seq<(Seq<char>, Json)> {
    m.map_values(|e: (Seq<char>, Value)| (e.0, e.1@))
}

/// What a map of texts stands for.
pub open spec fn text_list(m: Seq<(Seq<char>, String)>) -> Seq<(Seq<char>, Json)> {
    m.map_values(|e: (Seq<char>, String)| (e.0, Json::Str(e.1@)))
}

/// What a list of named values stands for.
pub open spec fn members(m: Seq<(String, Value)>) -> Seq<(Seq<char>, Json)> {
    m.map_values(|e: (String, Value)| (e.0@, e.1@))
}

/// The object of a list of named values.
pub proof fn object_members(m: Vec<(String, Value)>)
    ensures
        Value::Object(m)@ == Json::Object(members(m@)),
{
    let a = json(Value::Object(m))->Object_0;
    assert(a == members(m@));
}

/// The array of a list of values.
pub proof fn list_items(items: Vec<Value>)
    ensures
        Value::List(items)@ == Json::List(items@.map_values(|v: Value| v@)),
{
    let a = json(Value::List(items))->List_0;
    assert(a == items@.map_values(|v: Value| v@));
}

/// A copy of a value.
pub fn copy_value(v: &Value) -> (r: Value)
    ensures
        r@ == v@,
    decreases *v,
{
    match v {
        Value::Null => Value::Null,
        Value::Bool(b) => Value::Bool(*b),
        Value::Int(n) => Value::Int(*n),
        Value::Number(s) => Value::Number(s.clone()),
        Value::Str(s) => Value::Str(s.clone()),
        Value::List(items) => {
            let mut out: Vec<Value> = Vec::new();
            let mut i: usize = 0;
            while i < items.len()
                invariant
                    *v == Value::List(*items),
                    i <= items@.len(),
                    out@.len() == i,
                    forall|j: int| 0 <= j < i ==> (#[trigger] out@[j])@ == items@[j]@,
                decreases items@.len() - i,
            {
                assert(decreases_to!(*v => v->List_0));
                assert(decreases_to!(v->List_0 => v->List_0@));
                assert(decreases_to!(v->List_0@ => v->List_0@[i as int]));
                out.push(copy_value(&items[i]));
                i = i + 1;
            }
            let r: Value = Value::List(out);
            assert(json(r)->List_0 == json(*v)->List_0);
            r
        },
        Value::Object(entries) => {
            let mut out: Vec<(String, Value)> = Vec::new();
            let mut i: usize = 0;
            while i < entries.len()
                invariant
                    *v == Value::Object(*entries),
                    i <= entries@.len(),
                    out@.len() == i,
                    forall|j: int|
                        0 <= j < i ==> (#[trigger] out@[j]).0@ == entries@[j].0@ && out@[j].1@
                            == entries@[j].1@,
                decreases entries@.len() - i,
            {
                assert(decreases_to!(*v => v->Object_0));
                assert(decreases_to!(v->Object_0 => v->Object_0@));
                assert(decreases_to!(v->Object_0@ => v->Object_0@[i as int]));
                assert(decreases_to!(v->Object_0@[i as int] => v->Object_0@[i as int].1));
                out.push((entries[i].0.clone(), copy_value(&entries[i].1)));
                i = i + 1;
            }
            let r: Value = Value::Object(out);
            assert(json(r)->Object_0 == json(*v)->Object_0);
            r
        },
    }
}

impl Clone for Value {
    fn clone(&self) -> (r: Self)
        ensures
            r@ == self@,
    {
        copy_value(self)
    }
}

// ---------------------------------------------------------------------------------------------
// Text
// ---------------------------------------------------------------------------------------------

/// The lower-case hexadecimal digit of a number below sixteen.
pub open spec fn hex_digit(d: int) -> char {
    if d < 10 {
        (('0' as int) + d) as char
    } else {
        (('a' as int) + d - 10) as char
    }
}

/// How JSON text writes one character of a string.
pub open spec fn json_escaped(c: char) -> Seq<char> {
    if c == '"' {
        seq!['\\', '"']
    } else if c == '\\' {
        seq!['\\', '\\']
    } else if c == '\u{8}' {
        seq!['\\', 'b']
    } else if c == '\u{c}' {
        seq!['\\', 'f']
    } else if c == '\n' {
        seq!['\\', 'n']
    } else if c == '\r' {
        seq!['\\', 'r']
    } else if c == '\t' {
        seq!['\\', 't']
    } else if ' ' > c {
        seq!['\\', 'u', '0', '0', hex_digit((c as int) / 16), hex_digit((c as int) % 16)]
    } else {
        seq![c]
    }
}

/// The characters of a string as JSON text writes them.
pub open spec fn json_escape_all(s: Seq<char>) -> Seq<char>
    decreases s.len(),
{
    if s.len() == 0 {
        Seq::empty()
    } else {
        json_escape_all(s.drop_last()) + json_escaped(s.last())
    }
}

/// A string as JSON text, in quotes.
pub open spec fn json_quoted(s: Seq<char>) -> Seq<char> {
    seq!['"'] + json_escape_all(s) + seq!['"']
}

/// `serde_json::to_string` on a string: the text in quotes, with the quote, the backslash and the
/// control characters below the space escaped, the latter in the short form where JSON has one.
#[verifier::external_body]
fn serde_json_string(s: &str) -> (r: String)
    ensures
        r@ == json_quoted(s@),
{
    serde_json::to_string(s).unwrap_or_default()
}

/// How a character of JSON text is written where the text may stand in a web page.
pub open spec fn html_safe(c: char) -> Seq<char> {
    if c == '<' {
        seq!['\\', 'u', '0', '0', '3', 'c']
    } else if c == '>' {
        seq!['\\', 'u', '0', '0', '3', 'e']
    } else if c == '&' {
        seq!['\\', 'u', '0', '0', '2', '6']
    } else if c == '\u{2028}' {
        seq!['\\', 'u', '2', '0', '2', '8']
    } else if c == '\u{2029}' {
        seq!['\\', 'u', '2', '0', '2', '9']
    } else {
        seq![c]
    }
}

/// JSON text with the characters escaped that must not stand in a web page.
pub open spec fn html_safe_all(s: Seq<char>) -> Seq<char>
    decreases s.len(),
{
    if s.len() == 0 {
        Seq::empty()
    } else {
        html_safe_all(s.drop_last()) + html_safe(s.last())
    }
}

/// The text of a string on the wire.
pub open spec fn wire_string(s: Seq<char>) -> Seq<char> {
    html_safe_all(json_quoted(s))
}

/// Escapes the characters of JSON text that must not stand in a web page.
pub fn html_safe_text(text: &str) -> (r: String)
    ensures
        r@ == html_safe_all(text@),
{
    let chars: Vec<char> = to_chars(text);
    let mut r: String = String::new();
    let mut i: usize = 0;
    assert(chars@.take(0) == Seq::<char>::empty());
    while i < chars.len()
        invariant
            chars@ == text@,
            i <= chars@.len(),
            r@ == html_safe_all(chars@.take(i as int)),
        decreases chars@.len() - i,
    {
        let c: char = chars[i];
        assert(chars@.take(i + 1).drop_last() == chars@.take(i as int));
        let ghost before = r@;
        proof {
            reveal_strlit("\\u003c");
            reveal_strlit("\\u003e");
            reveal_strlit("\\u0026");
            reveal_strlit("\\u2028");
            reveal_strlit("\\u2029");
        }
        if c == '<' {
            r.append("\\u003c");
        } else if c == '>' {
            r.append("\\u003e");
        } else if c == '&' {
            r.append("\\u0026");
        } else if c == '\u{2028}' {
            r.append("\\u2028");
        } else if c == '\u{2029}' {
            r.append("\\u2029");
        } else {
            r.push(c);
        }
        assert(r@ == before + html_safe(c));
        i = i + 1;
    }
    assert(chars@.take(i as int) == chars@);
    r
}

/// The text of a string on the wire.
pub fn wire_string_text(s: &str) -> (r: String)
    ensures
        r@ == wire_string(s@),
{
    let quoted: String = serde_json_string(s);
    html_safe_text(quoted.as_str())
}

/// A letter or a digit of ASCII.
pub open spec fn is_plain(c: char) -> bool {
    crate::pattern::is_lower_digit(c) || crate::pattern::is_upper(c)
}

proof fn plain_text_is_not_escaped(s: Seq<char>)
    requires
        forall|i: int| 0 <= i < s.len() ==> is_plain(#[trigger] s[i]),
    ensures
        json_escape_all(s) == s,
        html_safe_all(s) == s,
    decreases s.len(),
{
    if s.len() > 0 {
        plain_text_is_not_escaped(s.drop_last());
        assert(is_plain(s[s.len() - 1]));
        assert(s.drop_last() + seq![s.last()] == s);
    }
}

proof fn html_safe_parts(a: Seq<char>, b: Seq<char>)
    ensures
        html_safe_all(a + b) == html_safe_all(a) + html_safe_all(b),
    decreases b.len(),
{
    if b.len() == 0 {
        assert(a + b == a);
        assert(html_safe_all(a) + html_safe_all(b) == html_safe_all(a));
    } else {
        html_safe_parts(a, b.drop_last());
        assert((a + b).drop_last() == a + b.drop_last());
        assert((a + b).last() == b.last());
        assert(html_safe_all(a) + (html_safe_all(b.drop_last()) + html_safe(b.last())) == (
        html_safe_all(a) + html_safe_all(b.drop_last())) + html_safe(b.last()));
    }
}

/// A text of letters and digits stands on the wire as it is, in quotes.
pub proof fn plain_text_on_the_wire(s: Seq<char>)
    requires
        forall|i: int| 0 <= i < s.len() ==> is_plain(#[trigger] s[i]),
    ensures
        wire_string(s) == seq!['"'] + s + seq!['"'],
{
    plain_text_is_not_escaped(s);
    let q = seq!['"'];
    html_safe_parts(q + s, q);
    html_safe_parts(q, s);
    assert(q.drop_last() == Seq::<char>::empty());
    assert(html_safe_all(q.drop_last()) == Seq::<char>::empty());
    assert(html_safe_all(q) == Seq::<char>::empty() + html_safe('"'));
    assert(html_safe_all(q) == q);
}

/// The text of a value on the wire.
pub open spec fn wire(j: Json) -> Seq<char>
    decreases j, 0nat,
{
    match j {
        Json::Null => "null"@,
        Json::Bool(b) => if b {
            "true"@
        } else {
            "false"@
        },
        Json::Int(n) => crate::text::decimal(n),
        Json::Number(s) => s,
        Json::Str(s) => wire_string(s),
        Json::List(items) => "["@ + wire_items(items, items.len()) + "]"@,
        Json::Object(entries) => "{"@ + wire_members(entries, entries.len()) + "}"@,
    }
}

/// The first `n` items of an array on the wire, with commas between them.
pub open spec fn wire_items(items: Seq<Json>, n: nat) -> Seq<char>
    decreases items, n,
{
    if n == 0 || n > items.len() {
        Seq::empty()
    } else if n == 1 {
        wire(items[0])
    } else {
        wire_items(items, (n - 1) as nat) + ","@ + wire(items[n - 1])
    }
}

/// The first `n` members of an object on the wire, with commas between them.
pub open spec fn wire_members(entries: Seq<(Seq<char>, Json)>, n: nat) -> Seq<char>
    decreases entries, n,
{
    if n == 0 || n > entries.len() {
        Seq::empty()
    } else if n == 1 {
        wire_string(entries[0].0) + ":"@ + wire(entries[0].1)
    } else {
        wire_members(entries, (n - 1) as nat) + ","@ + wire_string(entries[n - 1].0) + ":"@ + wire(
            entries[n - 1].1,
        )
    }
}

/// The first members of an object are written as if they were alone.
proof fn lemma_wire_prefix(a: Seq<(Seq<char>, Json)>, b: Seq<(Seq<char>, Json)>, n: nat)
    requires
        n <= a.len(),
    ensures
        wire_members(a + b, n) == wire_members(a, n),
    decreases n,
{
    if n > 0 {
        lemma_wire_prefix(a, b, (n - 1) as nat);
        assert((a + b)[n - 1] == a[n - 1]);
        assert((a + b)[0] == a[0]);
    }
}

proof fn lemma_wire_continues(a: Seq<(Seq<char>, Json)>, n: nat, k: nat)
    requires
        n <= k <= a.len(),
    ensures
        crate::text::starts_with(wire_members(a, k), wire_members(a, n)),
    decreases k,
{
    if n < k {
        lemma_wire_continues(a, n, (k - 1) as nat);
        let before = wire_members(a, (k - 1) as nat);
        let start = wire_members(a, n);
        if k > 1 {
            assert(wire_members(a, k).take(start.len() as int) == before.take(start.len() as int));
        } else {
            assert(start == Seq::<char>::empty());
        }
    }
    assert(wire_members(a, k).take(wire_members(a, n).len() as int) == wire_members(a, n));
}

/// An object with more members behind those of another begins, on the wire, as the other does but
/// for its closing brace.
pub proof fn longer_objects_begin_alike(a: Seq<(Seq<char>, Json)>, b: Seq<(Seq<char>, Json)>)
    ensures
        crate::text::starts_with(wire(Json::Object(a + b)), wire(Json::Object(a)).drop_last()),
{
    reveal_strlit("{");
    reveal_strlit("}");
    let n = a.len();
    let k = (a + b).len();
    lemma_wire_prefix(a, b, n);
    lemma_wire_continues(a + b, n, k);
    let short = wire_members(a, n);
    let long = wire_members(a + b, k);
    assert(wire(Json::Object(a)).drop_last() == "{"@ + short);
    let whole = wire(Json::Object(a + b));
    assert(whole == "{"@ + long + "}"@);
    assert(long.take(short.len() as int) == short);
    assert forall|i: int| 0 <= i < short.len() implies long[i] == short[i] by {
        assert(long.take(short.len() as int)[i] == short[i]);
    }
    assert(whole.take(1 + short.len() as int) == "{"@ + short);
}

/// Writes a value as JSON text, safe to stand in a web page.
pub fn wire_text(v: &Value) -> (r: String)
    ensures
        r@ == wire(v@),
    decreases *v,
{
    match v {
        Value::Null => "null".to_owned(),
        Value::Bool(b) => if *b {
            "true".to_owned()
        } else {
            "false".to_owned()
        },
        Value::Int(n) => decimal_text(*n),
        Value::Number(s) => s.clone(),
        Value::Str(s) => wire_string_text(s.as_str()),
        Value::List(items) => {
            let ghost list = json(*v)->List_0;
            let mut r: String = "[".to_owned();
            let mut i: usize = 0;
            assert(r@ == "["@ + wire_items(list, 0));
            while i < items.len()
                invariant
                    *v == Value::List(*items),
                    list == json(*v)->List_0,
                    i <= items@.len(),
                    r@ == "["@ + wire_items(list, i as nat),
                decreases items@.len() - i,
            {
                assert(decreases_to!(*v => items@[i as int]));
                assert(list[i as int] == items@[i as int]@);
                let ghost before = wire_items(list, i as nat);
                if i > 0 {
                    r.append(",");
                }
                r.append(wire_text(&items[i]).as_str());
                i = i + 1;
                proof {
                    if i == 1 {
                        assert(before == Seq::<char>::empty());
                    }
                    assert(r@ == "["@ + wire_items(list, i as nat));
                }
            }
            r.append("]");
            r
        },
        Value::Object(entries) => {
            let ghost list = json(*v)->Object_0;
            let mut r: String = "{".to_owned();
            let mut i: usize = 0;
            assert(r@ == "{"@ + wire_members(list, 0));
            while i < entries.len()
                invariant
                    *v == Value::Object(*entries),
                    list == json(*v)->Object_0,
                    i <= entries@.len(),
                    r@ == "{"@ + wire_members(list, i as nat),
                decreases entries@.len() - i,
            {
                assert(decreases_to!(*v => entries@[i as int].1));
                assert(list[i as int] == (entries@[i as int].0@, entries@[i as int].1@));
                let ghost before = wire_members(list, i as nat);
                if i > 0 {
                    r.append(",");
                }
                r.append(wire_string_text(entries[i].0.as_str()).as_str());
                r.append(":");
                r.append(wire_text(&entries[i].1).as_str());
                i = i + 1;
                proof {
                    if i == 1 {
                        assert(before == Seq::<char>::empty());
                    }
                    assert(r@ == "{"@ + wire_members(list, i as nat));
                }
            }
            r.append("}");
            r
        },
    }
}

/// A copy of a map of values.
pub fn copy_interface(m: &StringInterface) -> (r: StringInterface)
    ensures
        json_list(r.list()) == json_list(m.list()),
        r@.map_values(|v: Value| v@) == m@.map_values(|v: Value| v@),
{
    let r: StringInterface = m.clone();
    proof {
        let f = |v: Value| v@;
        assert forall|i: int| 0 <= i < r.list().len() implies json_list(r.list())[i] == json_list(
            m.list(),
        )[i] by {
            assert(cloned::<Value>(m.list()[i].1, r.list()[i].1));
        }
        assert(json_list(r.list()) == json_list(m.list()));
        crate::str_map::same_listing_same_map(r.list(), m.list(), f);
    }
    r
}

/// The object that a map of texts stands for.
pub fn string_map_value(m: &StringMap) -> (v: Value)
    ensures
        v@ == Json::Object(text_list(m.list())),
{
    let mut out: Vec<(String, Value)> = Vec::new();
    let n: usize = m.len();
    let mut i: usize = 0;
    while i < n
        invariant
            n == m.list().len(),
            i <= n,
            out@.len() == i,
            forall|j: int|
                0 <= j < i ==> (#[trigger] out@[j]).0@ == m.list()[j].0 && out@[j].1@ == Json::Str(
                    m.list()[j].1@,
                ),
        decreases n - i,
    {
        out.push((m.key_at(i).to_owned(), Value::Str(m.value_at(i).clone())));
        i = i + 1;
    }
    proof {
        object_members(out);
    }
    assert(members(out@) == text_list(m.list()));
    Value::Object(out)
}

/// The text of an optional map of texts on the wire: `null` where there is none.
pub fn string_map_wire_text(m: Option<&StringMap>) -> (r: String)
    ensures
        r@ == match m {
            Some(x) => wire(Json::Object(text_list(x.list()))),
            None => "null"@,
        },
{
    match m {
        Some(x) => wire_text(&string_map_value(x)),
        None => "null".to_owned(),
    }
}

/// Whether a text is a JSON document, and if so whether it is the document `null`.
pub uninterp spec fn json_document(text: Seq<char>) -> Option<bool>;

/// `serde_json::from_str` into a `serde_json::Value`, and `Value::is_null` on the result: nothing
/// where the text is no JSON document, else whether the document is `null`.
#[verifier::external_body]
pub(crate) fn parse_document(text: &str) -> (r: Option<bool>)
    ensures
        r == json_document(text@),
{
    serde_json::from_str::<serde_json::Value>(text).ok().map(|v| v.is_null())
}

/// What the error says of a JSON document that is read as a truth value; empty where it is one.
pub uninterp spec fn bool_mismatch(text: Seq<char>) -> Seq<char>;

/// `serde_json::from_value` into a `bool`, and the text of its error: a function of the document,
/// empty where the document is a truth value. A text that is no document counts as `null`.
#[verifier::external_body]
pub(crate) fn bool_mismatch_text(text: &str) -> (r: String)
    ensures
        r@ == bool_mismatch(text@),
{
    let value: serde_json::Value = serde_json::from_str(text).unwrap_or_default();
    serde_json::from_value::<bool>(value).err().map(|e| e.to_string()).unwrap_or_default()
}

/// What the error says of a JSON document that is read as an integer of 64 bits; empty where it is
/// one.
pub uninterp spec fn int_mismatch(text: Seq<char>) -> Seq<char>;

/// `serde_json::from_value` into an `i64`, and the text of its error: a function of the document,
/// empty where the document is such an integer. A text that is no document counts as `null`.
#[verifier::external_body]
pub(crate) fn int_mismatch_text(text: &str) -> (r: String)
    ensures
        r@ == int_mismatch(text@),
{
    let value: serde_json::Value = serde_json::from_str(text).unwrap_or_default();
    serde_json::from_value::<i64>(value).err().map(|e| e.to_string()).unwrap_or_default()
}

/// What the error says of a JSON document that is read as a text; empty where it is one.
pub uninterp spec fn str_mismatch(text: Seq<char>) -> Seq<char>;

/// `serde_json::from_value` into a `String`, and the text of its error: a function of the document,
/// empty where the document is a text. A text that is no document counts as `null`.
#[verifier::external_body]
pub(crate) fn str_mismatch_text(text: &str) -> (r: String)
    ensures
        r@ == str_mismatch(text@),
{
    let value: serde_json::Value = serde_json::from_str(text).unwrap_or_default();
    serde_json::from_value::<String>(value).err().map(|e| e.to_string()).unwrap_or_default()
}

/// What the error says of a JSON document that is read as a list of texts or `null`; empty where it
/// is one of them.
pub uninterp spec fn list_mismatch(text: Seq<char>) -> Seq<char>;

/// `serde_json::from_value` into an `Option<Vec<String>>`, and the text of its error: a function of
/// the document, empty where the document is a list of texts or `null`. A text that is no document
/// counts as `null`.
#[verifier::external_body]
pub(crate) fn list_mismatch_text(text: &str) -> (r: String)
    ensures
        r@ == list_mismatch(text@),
{
    let value: serde_json::Value = serde_json::from_str(text).unwrap_or_default();
    let read = serde_json::from_value::<Option<Vec<String>>>(value);
    read.err().map(|e| e.to_string()).unwrap_or_default()
}

// ---------------------------------------------------------------------------------------------
// Plain rendering, for messages
// ---------------------------------------------------------------------------------------------

/// A value as messages show it: a string bare, a list in brackets, an object as `map[k:v k:v]`.
pub open spec fn shown(j: Json) -> Seq<char>
    decreases j, 0nat,
{
    match j {
        Json::Null => "<nil>"@,
        Json::Bool(b) => if b {
            "true"@
        } else {
            "false"@
        },
        Json::Int(n) => crate::text::decimal(n),
        Json::Number(s) => s,
        Json::Str(s) => s,
        Json::List(items) => "["@ + shown_items(items, items.len()) + "]"@,
        Json::Object(entries) => "map["@ + shown_members(entries, entries.len()) + "]"@,
    }
}

/// The first `n` items of a list as messages show them, with blanks between them.
pub open spec fn shown_items(items: Seq<Json>, n: nat) -> Seq<char>
    decreases items, n,
{
    if n == 0 || n > items.len() {
        Seq::empty()
    } else if n == 1 {
        shown(items[0])
    } else {
        shown_items(items, (n - 1) as nat) + " "@ + shown(items[n - 1])
    }
}

/// The first `n` members of an object as messages show them, with blanks between them.
pub open spec fn shown_members(entries: Seq<(Seq<char>, Json)>, n: nat) -> Seq<char>
    decreases entries, n,
{
    if n == 0 || n > entries.len() {
        Seq::empty()
    } else if n == 1 {
        entries[0].0 + ":"@ + shown(entries[0].1)
    } else {
        shown_members(entries, (n - 1) as nat) + " "@ + entries[n - 1].0 + ":"@ + shown(
            entries[n - 1].1,
        )
    }
}

/// A value as messages show it.
pub fn shown_text(v: &Value) -> (r: String)
    ensures
        r@ == shown(v@),
    decreases *v,
{
    match v {
        Value::Null => "<nil>".to_owned(),
        Value::Bool(b) => if *b {
            "true".to_owned()
        } else {
            "false".to_owned()
        },
        Value::Int(n) => decimal_text(*n),
        Value::Number(s) => s.clone(),
        Value::Str(s) => s.clone(),
        Value::List(items) => {
            let ghost list = json(*v)->List_0;
            let mut r: String = "[".to_owned();
            let mut i: usize = 0;
            assert(r@ == "["@ + shown_items(list, 0));
            while i < items.len()
                invariant
                    *v == Value::List(*items),
                    list == json(*v)->List_0,
                    i <= items@.len(),
                    r@ == "["@ + shown_items(list, i as nat),
                decreases items@.len() - i,
            {
                assert(decreases_to!(*v => items@[i as int]));
                assert(list[i as int] == items@[i as int]@);
                let ghost before = shown_items(list, i as nat);
                if i > 0 {
                    r.append(" ");
                }
                r.append(shown_text(&items[i]).as_str());
                i = i + 1;
                proof {
                    if i == 1 {
                        assert(before == Seq::<char>::empty());
                    }
                    assert(r@ == "["@ + shown_items(list, i as nat));
                }
            }
            r.append("]");
            r
        },
        Value::Object(entries) => {
            let ghost list = json(*v)->Object_0;
            let mut r: String = "map[".to_owned();
            let mut i: usize = 0;
            assert(r@ == "map["@ + shown_members(list, 0));
            while i < entries.len()
                invariant
                    *v == Value::Object(*entries),
                    list == json(*v)->Object_0,
                    i <= entries@.len(),
                    r@ == "map["@ + shown_members(list, i as nat),
                decreases entries@.len() - i,
            {
                assert(decreases_to!(*v => entries@[i as int].1));
                assert(list[i as int] == (entries@[i as int].0@, entries@[i as int].1@));
                let ghost before = shown_members(list, i as nat);
                if i > 0 {
                    r.append(" ");
                }
                r.append(entries[i].0.as_str());
                r.append(":");
                r.append(shown_text(&entries[i].1).as_str());
                i = i + 1;
                proof {
                    if i == 1 {
                        assert(before == Seq::<char>::empty());
                    }
                    assert(r@ == "map["@ + shown_members(list, i as nat));
                }
            }
            r.append("]");
            r
        },
    }
}

/// The object that a map of values stands for.
pub fn interface_value(m: &StringInterface) -> (v: Value)
    ensures
        v@ == Json::Object(json_list(m.list())),
{
    let mut out: Vec<(String, Value)> = Vec::new();
    let n: usize = m.len();
    let mut i: usize = 0;
    while i < n
        invariant
            n == m.list().len(),
            i <= n,
            out@.len() == i,
            forall|j: int|
                0 <= j < i ==> (#[trigger] out@[j]).0@ == m.list()[j].0 && out@[j].1@
                    == m.list()[j].1@,
        decreases n - i,
    {
        out.push((m.key_at(i).to_owned(), copy_value(m.value_at(i))));
        i = i + 1;
    }
    proof {
        object_members(out);
    }
    assert(members(out@) == json_list(m.list()));
    Value::Object(out)
}

// ---------------------------------------------------------------------------------------------
// What holds of the texts
// ---------------------------------------------------------------------------------------------

/// The number that a lower-case hexadecimal digit stands for.
pub open spec fn hex_value(d: char) -> int {
    if '0' <= d <= '9' {
        d as int - 48
    } else {
        d as int - 87
    }
}

/// Text that is made safe for web pages has none of the characters that must not stand there.
pub proof fn web_pages_are_safe(s: Seq<char>)
    ensures
        forall|i: int|
            0 <= i < html_safe_all(s).len() ==> {
                let c = #[trigger] html_safe_all(s)[i];
                c != '<' && c != '>' && c != '&' && c != '\u{2028}' && c != '\u{2029}'
            },
    decreases s.len(),
{
    if s.len() > 0 {
        web_pages_are_safe(s.drop_last());
        let before = html_safe_all(s.drop_last());
        let after = html_safe_all(s);
        assert forall|i: int| 0 <= i < after.len() implies {
            let c = #[trigger] after[i];
            c != '<' && c != '>' && c != '&' && c != '\u{2028}' && c != '\u{2029}'
        } by {
            if i < before.len() {
                assert(after[i] == before[i]);
            } else {
                assert(after[i] == html_safe(s.last())[i - before.len()]);
            }
        }
    }
}

/// Characters are made safe one by one: the two parts of a text are written as if each were alone,
/// and a character that may stand in a web page is written as it is.
pub proof fn characters_are_made_safe_alone(a: Seq<char>, b: Seq<char>, c: char)
    ensures
        html_safe_all(a + b) == html_safe_all(a) + html_safe_all(b),
        html_safe_all(Seq::empty()) == Seq::<char>::empty(),
        html_safe_all(seq![c]) == html_safe(c),
        c != '<' && c != '>' && c != '&' && c != '\u{2028}' && c != '\u{2029}' ==> html_safe(c)
            == seq![c],
{
    html_safe_parts(a, b);
    assert(seq![c].drop_last() =~= Seq::<char>::empty());
    assert(html_safe_all(seq![c].drop_last()) == Seq::<char>::empty());
    assert(html_safe_all(seq![c]) =~= html_safe(c));
}

/// A character that must not stand in a web page is written by the number of its code point.
pub proof fn escapes_name_their_character(c: char)
    requires
        c == '<' || c == '>' || c == '&' || c == '\u{2028}' || c == '\u{2029}',
    ensures
        html_safe(c).len() == 6,
        html_safe(c)[0] == '\\',
        html_safe(c)[1] == 'u',
        4096 * hex_value(html_safe(c)[2]) + 256 * hex_value(html_safe(c)[3]) + 16 * hex_value(
            html_safe(c)[4],
        ) + hex_value(html_safe(c)[5]) == c as int,
{
}

proof fn lemma_items_prefix(items: Seq<Json>, x: Json, n: nat)
    requires
        n <= items.len(),
    ensures
        wire_items(items.push(x), n) == wire_items(items, n),
        shown_items(items.push(x), n) == shown_items(items, n),
    decreases n,
{
    if n > 0 {
        lemma_items_prefix(items, x, (n - 1) as nat);
        assert(items.push(x)[n - 1] == items[n - 1]);
        assert(items.push(x)[0] == items[0]);
    }
}

proof fn lemma_members_prefix(entries: Seq<(Seq<char>, Json)>, e: (Seq<char>, Json), n: nat)
    requires
        n <= entries.len(),
    ensures
        wire_members(entries.push(e), n) == wire_members(entries, n),
        shown_members(entries.push(e), n) == shown_members(entries, n),
    decreases n,
{
    if n > 0 {
        lemma_members_prefix(entries, e, (n - 1) as nat);
        assert(entries.push(e)[n - 1] == entries[n - 1]);
        assert(entries.push(e)[0] == entries[0]);
    }
}

/// The text of a value on the wire that has no parts.
pub proof fn single_values_on_the_wire(n: int, s: Seq<char>)
    ensures
        wire(Json::Null) == "null"@,
        wire(Json::Bool(true)) == "true"@,
        wire(Json::Bool(false)) == "false"@,
        wire(Json::Int(n)) == crate::text::decimal(n),
        wire(Json::Number(s)) == s,
        wire(Json::Str(s)) == html_safe_all(json_quoted(s)),
{
}

/// On the wire an array stands in brackets and has one comma between each item and the next.
pub proof fn arrays_on_the_wire(items: Seq<Json>, x: Json)
    ensures
        wire(Json::List(Seq::empty())) == "["@ + "]"@,
        wire(Json::List(seq![x])) == "["@ + wire(x) + "]"@,
        items.len() > 0 ==> wire(Json::List(items.push(x))) == wire(Json::List(items)).drop_last()
            + ","@ + wire(x) + "]"@,
{
    reveal_strlit("[");
    reveal_strlit("]");
    let more = items.push(x);
    let n = items.len();
    lemma_items_prefix(items, x, n);
    assert(wire(Json::List(Seq::empty())) =~= "["@ + "]"@);
    if n > 0 {
        assert(wire_items(more, n + 1) == wire_items(more, n) + ","@ + wire(more[n as int]));
        assert(wire(Json::List(items)).drop_last() =~= "["@ + wire_items(items, n));
        assert(wire(Json::List(more)) == "["@ + wire_items(more, n + 1) + "]"@);
        assert(wire(Json::List(more)) =~= "["@ + wire_items(items, n) + ","@ + wire(x) + "]"@);
    }
}

/// On the wire an object stands in braces, each name has a colon behind it, and there is one comma
/// between each member and the next.
pub proof fn objects_on_the_wire(entries: Seq<(Seq<char>, Json)>, name: Seq<char>, x: Json)
    ensures
        wire(Json::Object(Seq::empty())) == "{"@ + "}"@,
        wire(Json::Object(seq![(name, x)])) == "{"@ + wire(Json::Str(name)) + ":"@ + wire(x) + "}"@,
        entries.len() > 0 ==> wire(Json::Object(entries.push((name, x)))) == wire(
            Json::Object(entries),
        ).drop_last() + ","@ + wire(Json::Str(name)) + ":"@ + wire(x) + "}"@,
{
    reveal_strlit("{");
    reveal_strlit("}");
    let more = entries.push((name, x));
    let n = entries.len();
    lemma_members_prefix(entries, (name, x), n);
    assert(wire(Json::Object(Seq::empty())) =~= "{"@ + "}"@);
    let one = seq![(name, x)];
    assert(one[0] == (name, x));
    assert(wire(Json::Object(one)) =~= "{"@ + wire(Json::Str(name)) + ":"@ + wire(x) + "}"@);
    if n > 0 {
        assert(more[n as int] == (name, x));
        assert(wire_members(more, n + 1) == wire_members(more, n) + ","@ + wire_string(name) + ":"@
            + wire(x));
        assert(wire(Json::Object(entries)).drop_last() =~= "{"@ + wire_members(entries, n));
        assert(wire(Json::Object(more)) == "{"@ + wire_members(more, n + 1) + "}"@);
        assert(wire(Json::Object(more)) =~= "{"@ + wire_members(entries, n) + ","@ + wire_string(name)
            + ":"@ + wire(x) + "}"@);
    }
}

/// Messages show a string bare, nothing as `<nil>`, and other values without parts as the wire does.
pub proof fn single_values_in_messages(n: int, s: Seq<char>, b: bool)
    ensures
        shown(Json::Null) == "<nil>"@,
        shown(Json::Str(s)) == s,
        shown(Json::Bool(b)) == wire(Json::Bool(b)),
        shown(Json::Int(n)) == wire(Json::Int(n)),
        shown(Json::Number(s)) == wire(Json::Number(s)),
{
}

/// Messages show a list in brackets with one blank between each item and the next.
pub proof fn lists_in_messages(items: Seq<Json>, x: Json)
    ensures
        shown(Json::List(Seq::empty())) == "["@ + "]"@,
        shown(Json::List(seq![x])) == "["@ + shown(x) + "]"@,
        items.len() > 0 ==> shown(Json::List(items.push(x))) == shown(Json::List(items)).drop_last()
            + " "@ + shown(x) + "]"@,
{
    reveal_strlit("[");
    reveal_strlit("]");
    let more = items.push(x);
    let n = items.len();
    lemma_items_prefix(items, x, n);
    assert(shown(Json::List(Seq::empty())) =~= "["@ + "]"@);
    if n > 0 {
        assert(shown_items(more, n + 1) == shown_items(more, n) + " "@ + shown(more[n as int]));
        assert(shown(Json::List(items)).drop_last() =~= "["@ + shown_items(items, n));
        assert(shown(Json::List(more)) == "["@ + shown_items(more, n + 1) + "]"@);
        assert(shown(Json::List(more)) =~= "["@ + shown_items(items, n) + " "@ + shown(x) + "]"@);
    }
}

/// Messages show an object as a map in brackets, each name with a colon behind it, with one blank
/// between each member and the next.
pub proof fn objects_in_messages(entries: Seq<(Seq<char>, Json)>, name: Seq<char>, x: Json)
    ensures
        shown(Json::Object(Seq::empty())) == "map["@ + "]"@,
        shown(Json::Object(seq![(name, x)])) == "map["@ + name + ":"@ + shown(x) + "]"@,
        entries.len() > 0 ==> shown(Json::Object(entries.push((name, x)))) == shown(
            Json::Object(entries),
        ).drop_last() + " "@ + name + ":"@ + shown(x) + "]"@,
{
    reveal_strlit("map[");
    reveal_strlit("]");
    let more = entries.push((name, x));
    let n = entries.len();
    lemma_members_prefix(entries, (name, x), n);
    assert(shown(Json::Object(Seq::empty())) =~= "map["@ + "]"@);
    let one = seq![(name, x)];
    assert(one[0] == (name, x));
    assert(shown(Json::Object(one)) =~= "map["@ + name + ":"@ + shown(x) + "]"@);
    if n > 0 {
        assert(more[n as int] == (name, x));
        assert(shown_members(more, n + 1) == shown_members(more, n) + " "@ + name + ":"@ + shown(x));
        assert(shown(Json::Object(entries)).drop_last() =~= "map["@ + shown_members(entries, n));
        assert(shown(Json::Object(more)) == "map["@ + shown_members(more, n + 1) + "]"@);
        assert(shown(Json::Object(more)) =~= "map["@ + shown_members(entries, n) + " "@ + name + ":"@
            + shown(x) + "]"@);
    }
}

} // verus!
