//! What the model's types share: errors, ids, the clock and the rules on names.

use vstd::prelude::*;
use vstd::string::StringExecFns;

use crate::pattern::{
    letter_char, number_char, printable_char, regex_is_match, regex_replace, ALPHA_NUM,
    CHANNEL_IDENTIFIER, HASHTAG, LEADING_HASHES,
};
use crate::str_map::StringMap;
use crate::text::{byte_len, join_strings, same, to_chars};
use crate::value::Value;

verus! {

/// A list of strings.
pub type StringArray = Vec<String>;

/// Number of characters of an id.
pub const ID_LENGTH: usize = 26;

/// What stands in for a setting whose value is not shown.
pub const FAKE_SETTING: &'static str = "********************************";

/// The version that entity tags begin with.
pub const CURRENT_VERSION: &'static str = "11.0.0";

// ---------------------------------------------------------------------------------------------
// Errors
// ---------------------------------------------------------------------------------------------

/// An error that the application reports: an id to translate, the place it comes from, details for
/// the log, an HTTP status and the parameters of the translated message.
#[derive(Debug, PartialEq, Eq)]
pub struct AppError {
    pub id: String,
    pub message: String,
    pub detailed_error: String,
    pub status_code: i32,
    pub where_: String,
    pub params: Option<Vec<(String, Value)>>,
    /// The text of the error underneath.
    pub wrapped: Option<String>,
}

/// The outcome of a check.
pub type AppResult = Result<(), Box<AppError>>;

/// The model of an [`AppError`].
pub struct ErrorModel {
    pub where_: Seq<char>,
    pub id: Seq<char>,
    /// The id, until it is translated.
    pub message: Seq<char>,
    pub params: Option<Seq<(Seq<char>, crate::value::Json)>>,
    pub details: Seq<char>,
    pub status: int,
    pub wrapped: Option<Seq<char>>,
}

/// The parameters of an error's message.
pub open spec fn params_view(p: Option<Vec<(String, Value)>>) -> Option<
    Seq<(Seq<char>, crate::value::Json)>,
> {
    match p {
        Some(v) => Some(crate::value::members(v@)),
        None => None,
    }
}

impl View for AppError {
    type V = ErrorModel;

    open spec fn view(&self) -> ErrorModel {
        ErrorModel {
            where_: self.where_@,
            id: self.id@,
            message: self.message@,
            params: params_view(self.params),
            details: self.detailed_error@,
            status: self.status_code as int,
            wrapped: crate::text::opt_view(self.wrapped),
        }
    }
}

/// What a check found: nothing, or the error that it reports.
pub open spec fn fault_of(r: AppResult) -> Option<ErrorModel> {
    match r {
        Ok(_) => None,
        Err(e) => Some(e@),
    }
}

/// An error with no parameters and nothing underneath. Its message is not translated yet.
pub open spec fn plain_error(
    where_: Seq<char>,
    id: Seq<char>,
    details: Seq<char>,
    status: int,
) -> ErrorModel {
    ErrorModel { where_, id, message: id, params: None, details, status, wrapped: None }
}

impl AppError {
    /// Makes an error.
    pub fn new(
        where_: &str,
        id: &str,
        params: Option<Vec<(String, Value)>>,
        details: &str,
        status: i32,
    ) -> (e: AppError)
        ensures
            e@ == (ErrorModel { params: params_view(params), ..plain_error(
                where_@,
                id@,
                details@,
                status as int,
            ) }),
            e.params == params,
    {
        AppError {
            id: id.to_owned(),
            message: id.to_owned(),
            detailed_error: details.to_owned(),
            status_code: status,
            where_: where_.to_owned(),
            params,
            wrapped: None,
        }
    }

    /// Makes an error behind a pointer.
    pub fn boxed(
        where_: &str,
        id: &str,
        params: Option<Vec<(String, Value)>>,
        details: &str,
        status: i32,
    ) -> (e: Box<AppError>)
        ensures
            e@ == (ErrorModel { params: params_view(params), ..plain_error(
                where_@,
                id@,
                details@,
                status as int,
            ) }),
    {
        Box::new(AppError::new(where_, id, params, details, status))
    }

    /// The same error with another underneath.
    pub fn wrap(self, inner: String) -> (e: AppError)
        ensures
            e@ == (ErrorModel { wrapped: Some(inner@), ..self@ }),
    {
        AppError { wrapped: Some(inner), ..self }
    }
}

// ---------------------------------------------------------------------------------------------
// Clock and chance
// ---------------------------------------------------------------------------------------------

/// `chrono::Utc::now` and `DateTime::timestamp_millis`: the system clock in milliseconds since the
/// epoch. It is not before the epoch, and lies within the dates that chrono can hold; nothing else is
/// said of it. A clock that stands before the epoch makes the call panic.
#[verifier::external_body]
fn clock_millis() -> (now: i64)
    ensures
        0 <= now <= 8_210_266_876_799_999,
{
    chrono::Utc::now().timestamp_millis()
}

/// The current time in milliseconds since the epoch.
pub fn get_millis() -> (now: i64)
    ensures
        is_clock(now as int),
{
    clock_millis()
}

/// Whether the system clock can show a number of milliseconds since the epoch.
pub open spec fn is_clock(now: int) -> bool {
    0 <= now <= 8_210_266_876_799_999
}

/// Whether a text is the one that was there, or a new id where there was none.
pub open spec fn kept_or_new_id(new: Seq<char>, old: Seq<char>) -> bool {
    if old.len() > 0 {
        new == old
    } else {
        is_random_text(new, ID_LENGTH as nat) && valid_id(new)
    }
}

/// A new id where there is none.
pub fn ensure_id(id: &mut String)
    ensures
        kept_or_new_id(final(id)@, old(id)@),
{
    if id.as_str().is_empty() {
        *id = new_id();
    }
}

/// A word of `std::hash::RandomState`, whose keys the system draws at random. Nothing is said of
/// it.
#[verifier::external_body]
fn random_word() -> u64 {
    std::hash::BuildHasher::hash_one(&std::hash::RandomState::new(), 0u8)
}

/// The thirty-two characters of ids and tokens.
pub open spec fn id_char(c: char) -> bool {
    ('a' <= c <= 'z' && c != 'l' && c != 'v') || c == '1' || ('3' <= c <= '9')
}

fn id_digit(d: u64) -> (c: char)
    ensures
        id_char(c),
{
    match d % 32 {
        0 => 'y',
        1 => 'b',
        2 => 'n',
        3 => 'd',
        4 => 'r',
        5 => 'f',
        6 => 'g',
        7 => '8',
        8 => 'e',
        9 => 'j',
        10 => 'k',
        11 => 'm',
        12 => 'c',
        13 => 'p',
        14 => 'q',
        15 => 'x',
        16 => 'o',
        17 => 't',
        18 => '1',
        19 => 'u',
        20 => 'w',
        21 => 'i',
        22 => 's',
        23 => 'z',
        24 => 'a',
        25 => '3',
        26 => '4',
        27 => '5',
        28 => 'h',
        29 => '7',
        30 => '6',
        _ => '9',
    }
}

/// A text of `n` characters of ids.
pub open spec fn is_random_text(s: Seq<char>, n: nat) -> bool {
    s.len() == n && forall|i: int| 0 <= i < s.len() ==> id_char(#[trigger] s[i])
}

/// A random text of `n` characters.
pub fn new_random_string(n: usize) -> (s: String)
    ensures
        is_random_text(s@, n as nat),
{
    let mut s: String = String::new();
    let mut i: usize = 0;
    while i < n
        invariant
            i <= n,
            is_random_text(s@, i as nat),
        decreases n - i,
    {
        s.push(id_digit(random_word()));
        i = i + 1;
    }
    s
}

/// A new id: twenty-six random characters.
pub fn new_id() -> (s: String)
    ensures
        is_random_text(s@, ID_LENGTH as nat),
        valid_id(s@),
{
    let s: String = new_random_string(ID_LENGTH);
    proof {
        random_text_is_valid_id(s@);
    }
    s
}

/// A new user name: the letter `a` and a new id.
pub fn new_username() -> (s: String)
    ensures
        s@.len() == ID_LENGTH + 1,
        s@[0] == 'a',
        is_random_text(s@.skip(1), ID_LENGTH as nat),
{
    let mut s: String = String::new();
    s.push('a');
    let ghost a = s@;
    let id: String = new_id();
    s.append(id.as_str());
    assert(s@.skip(1) == id@);
    s
}

// ---------------------------------------------------------------------------------------------
// Ids
// ---------------------------------------------------------------------------------------------

/// An id: twenty-six bytes of letters and numbers.
pub open spec fn valid_id(s: Seq<char>) -> bool {
    crate::text::utf8_len(s) == ID_LENGTH && forall|i: int|
        0 <= i < s.len() ==> crate::pattern::is_letter(#[trigger] s[i]) || crate::pattern::is_number(
            s[i],
        )
}

/// A random text has as many bytes as characters.
pub proof fn random_texts_are_ascii(s: Seq<char>, n: nat)
    requires
        is_random_text(s, n),
    ensures
        crate::text::utf8_len(s) == n,
{
    assert(vstd::utf8::is_ascii_chars(s)) by {
        assert forall|i: int| 0 <= i < s.len() implies '\0' <= #[trigger] s[i] <= '\u{7f}' by {
            assert(id_char(s[i]));
        }
    }
    vstd::utf8::is_ascii_chars_encode_utf8(s);
}

/// Every new id is a valid id.
pub proof fn random_text_is_valid_id(s: Seq<char>)
    requires
        is_random_text(s, ID_LENGTH as nat),
    ensures
        valid_id(s),
{
    assert(vstd::utf8::is_ascii_chars(s));
    vstd::utf8::is_ascii_chars_encode_utf8(s);
}

/// Whether a text is an id.
pub fn is_valid_id(s: &str) -> (r: bool)
    ensures
        r == valid_id(s@),
{
    if byte_len(s) != ID_LENGTH {
        return false;
    }
    let chars: Vec<char> = to_chars(s);
    let mut i: usize = 0;
    while i < chars.len()
        invariant
            chars@ == s@,
            i <= chars@.len(),
            forall|j: int|
                0 <= j < i ==> crate::pattern::is_letter(#[trigger] s@[j])
                    || crate::pattern::is_number(s@[j]),
        decreases chars@.len() - i,
    {
        if !letter_char(chars[i]) && !number_char(chars[i]) {
            return false;
        }
        i = i + 1;
    }
    true
}

// ---------------------------------------------------------------------------------------------
// Text rules
// ---------------------------------------------------------------------------------------------

/// Characters that names and messages do not keep: deprecated letters and marks, line and
/// paragraph separators, directional overrides, interlinear annotations, the byte order mark,
/// musical formatting and tags.
pub open spec fn is_unwanted(c: char) -> bool {
    ||| c == '\u{340}'
    ||| c == '\u{341}'
    ||| c == '\u{17a3}'
    ||| c == '\u{17d3}'
    ||| '\u{2028}' <= c <= '\u{202e}'
    ||| '\u{206a}' <= c <= '\u{206f}'
    ||| '\u{fff9}' <= c <= '\u{fffc}'
    ||| c == '\u{feff}'
    ||| '\u{1d173}' <= c <= '\u{1d17a}'
    ||| '\u{e0000}' <= c <= '\u{e007f}'
}

/// `s` without its unwanted characters.
pub open spec fn wanted(s: Seq<char>) -> Seq<char>
    decreases s.len(),
{
    if s.len() == 0 {
        s
    } else if is_unwanted(s.last()) {
        wanted(s.drop_last())
    } else {
        wanted(s.drop_last()).push(s.last())
    }
}

/// A text without unwanted characters is kept as it is.
proof fn lemma_wanted_kept(s: Seq<char>)
    requires
        forall|i: int| 0 <= i < s.len() ==> !is_unwanted(#[trigger] s[i]),
    ensures
        wanted(s) == s,
    decreases s.len(),
{
    if s.len() > 0 {
        lemma_wanted_kept(s.drop_last());
        assert(s == s.drop_last().push(s.last()));
    }
}

proof fn lemma_wanted_clean(s: Seq<char>)
    ensures
        forall|i: int| 0 <= i < wanted(s).len() ==> !is_unwanted(#[trigger] wanted(s)[i]),
    decreases s.len(),
{
    if s.len() > 0 {
        let before = wanted(s.drop_last());
        lemma_wanted_clean(s.drop_last());
        assert forall|i: int| 0 <= i < wanted(s).len() implies !is_unwanted(#[trigger] wanted(s)[i]) by {
            if i < before.len() {
                assert(wanted(s)[i] == before[i]);
            }
        }
    }
}

/// Removing the unwanted characters twice is removing them once.
pub proof fn wanted_is_idempotent(s: Seq<char>)
    ensures
        wanted(wanted(s)) == wanted(s),
{
    lemma_wanted_clean(s);
    lemma_wanted_kept(wanted(s));
}

/// Removes the unwanted characters.
pub fn sanitize_unicode(s: &str) -> (r: String)
    ensures
        r@ == wanted(s@),
{
    let chars: Vec<char> = to_chars(s);
    let mut r: String = String::new();
    let mut i: usize = 0;
    assert(s@.take(0) == Seq::<char>::empty());
    while i < chars.len()
        invariant
            chars@ == s@,
            i <= chars@.len(),
            r@ == wanted(s@.take(i as int)),
        decreases chars@.len() - i,
    {
        let c: char = chars[i];
        assert(s@.take(i + 1).drop_last() == s@.take(i as int));
        let unwanted: bool = c == '\u{340}' || c == '\u{341}' || c == '\u{17a3}' || c == '\u{17d3}'
            || ('\u{2028}' <= c && c <= '\u{202e}') || ('\u{206a}' <= c && c <= '\u{206f}') || (
        '\u{fff9}' <= c && c <= '\u{fffc}') || c == '\u{feff}' || ('\u{1d173}' <= c && c
            <= '\u{1d17a}') || ('\u{e0000}' <= c && c <= '\u{e007f}');
        if !unwanted {
            r.push(c);
        }
        i = i + 1;
    }
    assert(s@.take(i as int) == s@);
    r
}

/// The first character of the lower-case form of a character.
pub uninterp spec fn lowercase_head(c: char) -> char;

/// `char::to_lowercase`, its first character.
#[verifier::external_body]
fn to_lowercase_head(c: char) -> (r: char)
    ensures
        r == lowercase_head(c),
{
    c.to_lowercase().next().unwrap_or(c)
}

/// The lower-case form of a character, always one character: the dotted capital I loses its dot.
pub open spec fn lower_char(c: char) -> char {
    if 'A' <= c <= 'Z' {
        ((c as u8) + 32) as char
    } else if c <= '\u{7f}' {
        c
    } else if c == '\u{130}' {
        'i'
    } else {
        lowercase_head(c)
    }
}

/// `s` in lower case, character by character.
pub open spec fn lower(s: Seq<char>) -> Seq<char> {
    s.map_values(|c: char| lower_char(c))
}

/// The lower-case form of a character.
pub fn to_lower_char(c: char) -> (r: char)
    ensures
        r == lower_char(c),
{
    if 'A' <= c && c <= 'Z' {
        let b: u8 = c as u8;
        (b + 32) as char
    } else if c <= '\u{7f}' {
        c
    } else if c == '\u{130}' {
        'i'
    } else {
        to_lowercase_head(c)
    }
}

/// A text in lower case, character by character.
pub fn to_lower(s: &str) -> (r: String)
    ensures
        r@ == lower(s@),
{
    let chars: Vec<char> = to_chars(s);
    let mut r: String = String::new();
    let mut i: usize = 0;
    while i < chars.len()
        invariant
            chars@ == s@,
            i <= chars@.len(),
            r@ == lower(s@.take(i as int)),
        decreases chars@.len() - i,
    {
        r.push(to_lower_char(chars[i]));
        assert(lower(s@.take(i + 1)) == lower(s@.take(i as int)).push(lower_char(s@[i as int])));
        i = i + 1;
    }
    assert(s@.take(i as int) == s@);
    r
}

/// A character of an atom of a mail address: visible or outside ASCII, and no special character.
pub open spec fn is_atom_char(c: char) -> bool {
    ('!' <= c <= '~' || c > '\u{7f}') && !(c == '(' || c == ')' || c == '<' || c == '>' || c == '['
        || c == ']' || c == ':' || c == ';' || c == '@' || c == '\\' || c == ',' || c == '"' || c
        == '.')
}

/// Atoms with single dots between them.
pub open spec fn is_dot_atom(s: Seq<char>) -> bool {
    &&& s.len() > 0
    &&& s[0] != '.'
    &&& s.last() != '.'
    &&& forall|i: int| 0 <= i < s.len() ==> is_atom_char(#[trigger] s[i]) || s[i] == '.'
    &&& forall|i: int| 0 <= i < s.len() - 1 ==> !(#[trigger] s[i] == '.' && s[i + 1] == '.')
}

/// A bare mail address in lower case: a dotted name, `@`, a dotted domain.
pub open spec fn valid_email(s: Seq<char>) -> bool {
    &&& lower(s) == s
    &&& exists|at: int|
        0 <= at < s.len() && #[trigger] s[at] == '@' && is_dot_atom(s.take(at)) && is_dot_atom(
            s.skip(at + 1),
        )
}

fn dot_atom(chars: &[char], from: usize, to: usize) -> (r: bool)
    requires
        from <= to <= chars@.len(),
    ensures
        r == is_dot_atom(chars@.subrange(from as int, to as int)),
{
    let ghost s = chars@.subrange(from as int, to as int);
    if from == to || chars[from] == '.' || chars[to - 1] == '.' {
        return false;
    }
    let mut i: usize = from;
    while i < to
        invariant
            from <= i <= to <= chars@.len(),
            s == chars@.subrange(from as int, to as int),
            forall|j: int| 0 <= j < i - from ==> is_atom_char(#[trigger] s[j]) || s[j] == '.',
            forall|j: int| 0 <= j < i - from && j < s.len() - 1 ==> !(#[trigger] s[j] == '.' && s[j + 1] == '.'),
        decreases to - i,
    {
        let c: char = chars[i];
        assert(s[i - from] == c);
        let atom: bool = (('!' <= c && c <= '~') || c > '\u{7f}') && !(c == '(' || c == ')' || c == '<'
            || c == '>' || c == '[' || c == ']' || c == ':' || c == ';' || c == '@' || c == '\\' || c
            == ',' || c == '"' || c == '.');
        if !atom && c != '.' {
            return false;
        }
        if c == '.' && i + 1 < to && chars[i + 1] == '.' {
            assert(s[i - from + 1] == '.');
            return false;
        }
        i = i + 1;
    }
    true
}

/// Whether a text is a bare mail address in lower case.
pub fn is_valid_email(s: &str) -> (r: bool)
    ensures
        r == valid_email(s@),
{
    if !same(to_lower(s).as_str(), s) {
        return false;
    }
    let chars: Vec<char> = to_chars(s);
    let found: Option<usize> = crate::text::find_char(chars.as_slice(), '@');
    match found {
        None => false,
        Some(at) => {
            let n: usize = chars.len();
            let left: bool = dot_atom(chars.as_slice(), 0, at);
            let right: bool = dot_atom(chars.as_slice(), at + 1, n);
            proof {
                assert(s@.subrange(0, at as int) == s@.take(at as int));
                assert(s@.subrange(at + 1, s@.len() as int) == s@.skip(at + 1));
                if left && right {
                    assert(s@[at as int] == '@');
                }
                if valid_email(s@) {
                    let k = choose|k: int|
                        0 <= k < s@.len() && #[trigger] s@[k] == '@' && is_dot_atom(s@.take(k))
                            && is_dot_atom(s@.skip(k + 1));
                    if k > at {
                        assert(s@.take(k)[at as int] == '@');
                    }
                    assert(k == at);
                }
            }
            left && right
        },
    }
}

/// Whether a text may stand as a name in an address.
pub fn is_valid_alpha_num(s: &str) -> (r: bool)
    ensures
        r == crate::pattern::alpha_num_shape(s@),
{
    regex_is_match(ALPHA_NUM, s)
}

/// An identifier of a channel: letters, digits, hyphens and underscores of ASCII.
pub open spec fn valid_channel_identifier(s: Seq<char>) -> bool {
    s.len() > 0 && forall|i: int|
        0 <= i < s.len() ==> crate::pattern::is_lower_digit(#[trigger] s[i])
            || crate::pattern::is_upper(s[i]) || s[i] == '-' || s[i] == '_'
}

/// Whether a text is an identifier of a channel.
pub fn is_valid_channel_identifier(s: &str) -> (r: bool)
    ensures
        r == valid_channel_identifier(s@),
{
    regex_is_match(CHANNEL_IDENTIFIER, s)
}

/// Whether a text is a hashtag.
pub fn is_valid_hashtag(s: &str) -> (r: bool)
    ensures
        r == crate::pattern::hashtag_shape(s@),
{
    regex_is_match(HASHTAG, s)
}

/// Writes a run of hashes at the start as one.
pub fn collapse_leading_hashes(s: &str) -> (r: String)
    ensures
        r@ == crate::pattern::hashes_collapsed(s@),
{
    regex_replace(LEADING_HASHES, s, "#")
}

/// The names that no team may have, and with which none may begin.
pub fn reserved_names() -> (names: Vec<&'static str>)
    ensures
        crate::text::views(names@) == reserved(),
{
    let mut names: Vec<&'static str> = Vec::new();
    names.push("admin");
    names.push("api");
    names.push("channel");
    names.push("claim");
    names.push("error");
    names.push("files");
    names.push("help");
    names.push("landing");
    names.push("login");
    names.push("mfa");
    names.push("oauth");
    names.push("plug");
    names.push("plugins");
    names.push("post");
    names.push("signup");
    names.push("boards");
    names.push("playbooks");
    assert(crate::text::views(names@) == reserved());
    names
}

/// The reserved names.
pub open spec fn reserved() -> Seq<Seq<char>> {
    seq![
        "admin"@,
        "api"@,
        "channel"@,
        "claim"@,
        "error"@,
        "files"@,
        "help"@,
        "landing"@,
        "login"@,
        "mfa"@,
        "oauth"@,
        "plug"@,
        "plugins"@,
        "post"@,
        "signup"@,
        "boards"@,
        "playbooks"@,
    ]
}

/// The boolean that a text spells: six spellings of each.
pub open spec fn parsed_bool(s: Seq<char>) -> Option<bool> {
    if s == "1"@ || s == "t"@ || s == "T"@ || s == "TRUE"@ || s == "true"@ || s == "True"@ {
        Some(true)
    } else if s == "0"@ || s == "f"@ || s == "F"@ || s == "FALSE"@ || s == "false"@ || s == "False"@ {
        Some(false)
    } else {
        None
    }
}

/// The boolean that a text spells.
pub fn parse_bool(s: &str) -> (r: Option<bool>)
    ensures
        r == parsed_bool(s@),
{
    if same(s, "1") || same(s, "t") || same(s, "T") || same(s, "TRUE") || same(s, "true") || same(
        s,
        "True",
    ) {
        Some(true)
    } else if same(s, "0") || same(s, "f") || same(s, "F") || same(s, "FALSE") || same(s, "false")
        || same(s, "False") {
        Some(false)
    } else {
        None
    }
}

/// An entity tag: the version and the parts, with dots between them.
pub open spec fn entity_tag(parts: Seq<Seq<char>>) -> Seq<char> {
    crate::text::join(seq![CURRENT_VERSION@] + parts, "."@)
}

/// Makes an entity tag.
pub fn etag(parts: &[String]) -> (r: String)
    ensures
        r@ == entity_tag(crate::text::views(parts@)),
{
    let mut all: Vec<String> = Vec::new();
    all.push(CURRENT_VERSION.to_owned());
    let mut i: usize = 0;
    assert(crate::text::views(all@) == seq![CURRENT_VERSION@]);
    while i < parts.len()
        invariant
            i <= parts@.len(),
            crate::text::views(all@) == seq![CURRENT_VERSION@] + crate::text::views(
                parts@.take(i as int),
            ),
        decreases parts@.len() - i,
    {
        let ghost before = all@;
        all.push(parts[i].clone());
        assert(crate::text::views(all@) == crate::text::views(before).push(parts@[i as int]@));
        assert(crate::text::views(parts@.take(i + 1)) == crate::text::views(
            parts@.take(i as int),
        ).push(parts@[i as int]@));
        i = i + 1;
    }
    assert(parts@.take(i as int) == parts@);
    join_strings(all.as_slice(), ".")
}

/// The text of a truth value.
pub open spec fn bool_view(b: bool) -> Seq<char> {
    if b {
        "true"@
    } else {
        "false"@
    }
}

/// The text of a truth value.
pub fn bool_text(b: bool) -> (r: String)
    ensures
        r@ == bool_view(b),
{
    if b {
        "true".to_owned()
    } else {
        "false".to_owned()
    }
}

/// The text under a key, empty where there is none.
pub open spec fn text_under(m: Map<Seq<char>, String>, key: Seq<char>) -> Seq<char> {
    if m.dom().contains(key) {
        m[key]@
    } else {
        Seq::empty()
    }
}

/// The text under a key, empty where there is none.
pub fn get_or_empty<'a>(m: &'a StringMap, key: &str) -> (r: &'a str)
    ensures
        r@ == text_under(m@, key@),
{
    match m.get(key) {
        Some(v) => v.as_str(),
        None => {
            proof {
                reveal_strlit("");
            }
            let r: &'a str = "";
            assert(r@ == Seq::<char>::empty());
            r
        },
    }
}

/// The zone that a user's timezone settings prefer.
pub open spec fn preferred_timezone(m: Map<Seq<char>, String>) -> Seq<char> {
    if text_under(m, "useAutomaticTimezone"@) == "true"@ {
        text_under(m, "automaticTimezone"@)
    } else {
        text_under(m, "manualTimezone"@)
    }
}

/// The zone that a user's timezone settings prefer: the automatic one where that is switched on by
/// the text `true`, else the manual one.
pub fn get_preferred_timezone<'a>(m: &'a StringMap) -> (r: &'a str)
    ensures
        r@ == preferred_timezone(m@),
{
    if same(get_or_empty(m, "useAutomaticTimezone"), "true") {
        get_or_empty(m, "automaticTimezone")
    } else {
        get_or_empty(m, "manualTimezone")
    }
}

/// The last `n` hexadecimal digits of a number.
pub open spec fn hex_digits(v: nat, n: nat) -> Seq<char>
    decreases n,
{
    if n == 0 {
        Seq::empty()
    } else {
        hex_digits(v / 16, (n - 1) as nat).push(crate::value::hex_digit((v % 16) as int))
    }
}

fn hex_char(d: u32) -> (c: char)
    requires
        d < 16,
    ensures
        c == crate::value::hex_digit(d as int),
{
    match d {
        0 => '0',
        1 => '1',
        2 => '2',
        3 => '3',
        4 => '4',
        5 => '5',
        6 => '6',
        7 => '7',
        8 => '8',
        9 => '9',
        10 => 'a',
        11 => 'b',
        12 => 'c',
        13 => 'd',
        14 => 'e',
        _ => 'f',
    }
}

fn push_hex(s: &mut String, v: u32, n: u32)
    ensures
        final(s)@ == old(s)@ + hex_digits(v as nat, n as nat),
    decreases n,
{
    if n > 0 {
        push_hex(s, v / 16, n - 1);
        s.push(hex_char(v % 16));
    }
    assert(s@ == old(s)@ + hex_digits(v as nat, n as nat));
}

/// How a quoted text shows one character.
pub open spec fn quoted_char(c: char) -> Seq<char> {
    if c == '"' {
        "\\\""@
    } else if c == '\\' {
        "\\\\"@
    } else if crate::pattern::is_printable(c) {
        seq![c]
    } else if c == '\u{7}' {
        "\\a"@
    } else if c == '\u{8}' {
        "\\b"@
    } else if c == '\u{c}' {
        "\\f"@
    } else if c == '\n' {
        "\\n"@
    } else if c == '\r' {
        "\\r"@
    } else if c == '\t' {
        "\\t"@
    } else if c == '\u{b}' {
        "\\v"@
    } else if c <= '\u{7f}' {
        "\\x"@ + hex_digits(c as nat, 2)
    } else if c <= '\u{ffff}' {
        "\\u"@ + hex_digits(c as nat, 4)
    } else {
        "\\U"@ + hex_digits(c as nat, 8)
    }
}

/// The characters of a quoted text.
pub open spec fn quoted_chars(s: Seq<char>) -> Seq<char>
    decreases s.len(),
{
    if s.len() == 0 {
        Seq::empty()
    } else {
        quoted_chars(s.drop_last()) + quoted_char(s.last())
    }
}

/// A text in quotes, with what cannot be shown escaped.
pub open spec fn quoted(s: Seq<char>) -> Seq<char> {
    "\""@ + quoted_chars(s) + "\""@
}

fn push_quoted(r: &mut String, c: char)
    ensures
        final(r)@ == old(r)@ + quoted_char(c),
{
    if c == '"' {
        r.append("\\\"");
    } else if c == '\\' {
        r.append("\\\\");
    } else if printable_char(c) {
        r.push(c);
        assert(r@ == old(r)@ + seq![c]);
    } else if c == '\u{7}' {
        r.append("\\a");
    } else if c == '\u{8}' {
        r.append("\\b");
    } else if c == '\u{c}' {
        r.append("\\f");
    } else if c == '\n' {
        r.append("\\n");
    } else if c == '\r' {
        r.append("\\r");
    } else if c == '\t' {
        r.append("\\t");
    } else if c == '\u{b}' {
        r.append("\\v");
    } else if c <= '\u{7f}' {
        r.append("\\x");
        push_hex(r, c as u32, 2);
    } else if c <= '\u{ffff}' {
        r.append("\\u");
        push_hex(r, c as u32, 4);
    } else {
        r.append("\\U");
        push_hex(r, c as u32, 8);
    }
    assert(r@ == old(r)@ + quoted_char(c));
}

/// Puts a text in quotes.
pub fn quote(s: &str) -> (r: String)
    ensures
        r@ == quoted(s@),
{
    let chars: Vec<char> = to_chars(s);
    let mut r: String = "\"".to_owned();
    let mut i: usize = 0;
    assert(s@.take(0) == Seq::<char>::empty());
    assert(r@ == "\""@ + quoted_chars(s@.take(0)));
    while i < chars.len()
        invariant
            chars@ == s@,
            i <= chars@.len(),
            r@ == "\""@ + quoted_chars(s@.take(i as int)),
        decreases chars@.len() - i,
    {
        assert(s@.take(i + 1).drop_last() == s@.take(i as int));
        push_quoted(&mut r, chars[i]);
        assert(r@ == "\""@ + quoted_chars(s@.take(i + 1)));
        i = i + 1;
    }
    assert(s@.take(i as int) == s@);
    r.append("\"");
    r
}

// ---------------------------------------------------------------------------------------------
// Dates in texts
// ---------------------------------------------------------------------------------------------

/// One digit or another character of ASCII with a zero in front; other texts as they are.
pub open spec fn padded_part(part: Seq<char>) -> Seq<char> {
    if part.len() == 1 && part[0] <= '\u{7f}' {
        seq!['0'] + part
    } else {
        part
    }
}

/// A date with a zero in front of each part of one character.
pub open spec fn padded_date(s: Seq<char>) -> Seq<char> {
    crate::text::join(
        crate::text::split_on(s, '-').map_values(|part: Seq<char>| padded_part(part)),
        "-"@,
    )
}

/// Writes a zero in front of each part of a date that has one character.
pub fn pad_date_string_zeros(date: &str) -> (r: String)
    ensures
        r@ == padded_date(date@),
{
    let parts: Vec<&str> = crate::text::split_at_char(date, '-');
    let mut padded: Vec<String> = Vec::new();
    let mut i: usize = 0;
    while i < parts.len()
        invariant
            i <= parts@.len(),
            padded@.len() == i,
            forall|k: int| 0 <= k < i ==> (#[trigger] padded@[k])@ == padded_part(parts@[k]@),
        decreases parts@.len() - i,
    {
        let part: &str = parts[i];
        if part.unicode_len() == 1 && part.get_char(0) <= '\u{7f}' {
            let mut longer: String = String::new();
            longer.push('0');
            longer.append(part);
            assert(longer@ == seq!['0'] + part@);
            padded.push(longer);
        } else {
            padded.push(part.to_string());
        }
        i = i + 1;
    }
    assert(crate::text::views(padded@) =~= crate::text::split_on(date@, '-').map_values(
        |part: Seq<char>| padded_part(part),
    )) by {
        assert forall|k: int| 0 <= k < padded@.len() implies crate::text::views(padded@)[k]
            == padded_part(crate::text::split_on(date@, '-')[k]) by {
            assert(crate::text::views(parts@)[k] == parts@[k]@);
        }
    }
    crate::text::join_strings(padded.as_slice(), "-")
}

// ---------------------------------------------------------------------------------------------
// What holds of the texts
// ---------------------------------------------------------------------------------------------

/// Cleaning a text removes its unwanted characters and nothing else, and keeps the order of the
/// others.
pub proof fn only_unwanted_characters_go(s: Seq<char>)
    ensures
        wanted(s) == s.filter(|c: char| !is_unwanted(c)),
    decreases s.len(),
{
    reveal(Seq::filter);
    if s.len() > 0 {
        only_unwanted_characters_go(s.drop_last());
    } else {
        assert(s.filter(|c: char| !is_unwanted(c)) =~= s);
    }
}

/// The unwanted characters, by their code points.
pub proof fn these_characters_are_unwanted(c: char)
    ensures
        is_unwanted(c) == ({
            let n = c as int;
            n == 0x340 || n == 0x341 || n == 0x17a3 || n == 0x17d3 || 0x2028 <= n <= 0x202e || 0x206a
                <= n <= 0x206f || 0xfff9 <= n <= 0xfffc || n == 0xfeff || 0x1d173 <= n <= 0x1d17a
                || 0xe0000 <= n <= 0xe007f
        }),
{
}

/// In lower case a text has as many characters as before; the capital letters of ASCII become small,
/// and its other characters stay.
pub proof fn capitals_become_small(s: Seq<char>, i: int)
    requires
        0 <= i < s.len(),
    ensures
        lower(s).len() == s.len(),
        'A' <= s[i] <= 'Z' ==> lower(s)[i] as int == s[i] as int + 32,
        s[i] <= '\u{7f}' && !('A' <= s[i] <= 'Z') ==> lower(s)[i] == s[i],
        s[i] == '\u{130}' ==> lower(s)[i] == 'i',
{
}

/// The characters of ASCII that an address may have between its dots are the letters, the digits and
/// nineteen signs; outside ASCII it may have any.
pub proof fn atoms_have_these_characters(c: char)
    ensures
        is_atom_char(c) == ('a' <= c <= 'z' || 'A' <= c <= 'Z' || '0' <= c <= '9' || c == '!' || c
            == '#' || c == '$' || c == '%' || c == '&' || c == '\'' || c == '*' || c == '+' || c == '-'
            || c == '/' || c == '=' || c == '?' || c == '^' || c == '_' || c == '`' || c == '{' || c
            == '|' || c == '}' || c == '~' || c > '\u{7f}'),
{
}

/// A text without dots is a dotted name if it is not empty and has the right characters, and two
/// dotted names with a dot between them are one.
pub proof fn dotted_names_are_joined_by_dots(a: Seq<char>, b: Seq<char>)
    ensures
        (forall|i: int| 0 <= i < a.len() ==> is_atom_char(#[trigger] a[i])) ==> is_dot_atom(a) == (
        a.len() > 0),
        is_dot_atom(a) && is_dot_atom(b) ==> is_dot_atom(a + seq!['.'] + b),
        is_dot_atom(a) ==> !is_dot_atom(a.push('.')) && !is_dot_atom(seq!['.'] + a),
        !is_dot_atom(a + seq!['.', '.'] + b),
{
    if (forall|i: int| 0 <= i < a.len() ==> is_atom_char(#[trigger] a[i])) && a.len() > 0 {
        assert(is_atom_char(a[0]));
        assert(is_atom_char(a[a.len() - 1]));
    }
    let s = a + seq!['.'] + b;
    if is_dot_atom(a) && is_dot_atom(b) {
        assert(s.last() == b.last() && s[0] == a[0]);
        assert(a[a.len() - 1] != '.');
        assert forall|i: int| 0 <= i < s.len() implies is_atom_char(#[trigger] s[i]) || s[i] == '.' by {
            if i < a.len() {
                assert(s[i] == a[i]);
            } else if i > a.len() {
                assert(s[i] == b[i - a.len() - 1]);
            }
        }
        assert forall|i: int| 0 <= i < s.len() - 1 implies !(#[trigger] s[i] == '.' && s[i + 1] == '.') by {
            if i < a.len() - 1 {
                assert(s[i] == a[i] && s[i + 1] == a[i + 1]);
            } else if i == a.len() - 1 {
                assert(s[i] == a[i]);
            } else if i == a.len() {
                assert(s[i + 1] == b[0]);
            } else {
                assert(s[i] == b[i - a.len() - 1] && s[i + 1] == b[i - a.len()]);
            }
        }
    }
    if is_dot_atom(a) {
        assert(a.push('.').last() == '.');
        assert((seq!['.'] + a)[0] == '.');
    }
    let two = a + seq!['.', '.'] + b;
    let k = a.len() as int;
    assert(two[k] == '.' && two[k + 1] == '.');
}

/// A mail address is a dotted name, one `@` and a dotted domain, all in lower case.
pub proof fn addresses_have_a_name_and_a_domain(name: Seq<char>, domain: Seq<char>)
    ensures
        !name.contains('@') ==> valid_email(name + seq!['@'] + domain) == (is_dot_atom(name)
            && is_dot_atom(domain) && lower(name) == name && lower(domain) == domain),
        !name.contains('@') ==> !valid_email(name),
{
    let s = name + seq!['@'] + domain;
    let k = name.len() as int;
    assert(s[k] == '@');
    assert(s.take(k) =~= name);
    assert(s.skip(k + 1) =~= domain);
    if !name.contains('@') {
        assert(lower_char('@') == '@');
        if lower(s) == s {
            assert forall|i: int| 0 <= i < name.len() implies #[trigger] lower(name)[i] == name[i] by {
                assert(lower(s)[i] == s[i]);
            }
            assert(lower(name) =~= name);
            assert forall|i: int| 0 <= i < domain.len() implies #[trigger] lower(domain)[i] == domain[i] by {
                assert(lower(s)[i + k + 1] == s[i + k + 1]);
            }
            assert(lower(domain) =~= domain);
        }
        if lower(name) == name && lower(domain) == domain {
            assert forall|i: int| 0 <= i < s.len() implies #[trigger] lower(s)[i] == s[i] by {
                if i < k {
                    assert(lower(name)[i] == name[i]);
                } else if i > k {
                    assert(lower(domain)[i - k - 1] == domain[i - k - 1]);
                }
            }
            assert(lower(s) =~= s);
        }
        if valid_email(s) {
            let at = choose|at: int|
                0 <= at < s.len() && #[trigger] s[at] == '@' && is_dot_atom(s.take(at)) && is_dot_atom(
                    s.skip(at + 1),
                );
            if at < k {
                assert(name[at] == '@');
            }
            if at > k {
                assert(s.take(at)[k] == '@');
            }
            assert(at == k);
        }
        if valid_email(name) {
            let at = choose|at: int|
                0 <= at < name.len() && #[trigger] name[at] == '@' && is_dot_atom(name.take(at))
                    && is_dot_atom(name.skip(at + 1));
            assert(name.contains(name[at]));
        }
    }
}

/// An entity tag begins with the version, and each part has a dot in front of it.
pub proof fn tags_are_parts_with_dots(parts: Seq<Seq<char>>, last: Seq<char>)
    ensures
        entity_tag(Seq::empty()) == CURRENT_VERSION@,
        entity_tag(parts.push(last)) == entity_tag(parts) + "."@ + last,
{
    let all = seq![CURRENT_VERSION@] + parts;
    crate::text::joining_keeps_everything(all, "."@, last);
    assert(seq![CURRENT_VERSION@] + parts.push(last) =~= all.push(last));
    assert(seq![CURRENT_VERSION@] + Seq::<Seq<char>>::empty() =~= seq![CURRENT_VERSION@]);
}

/// The automatic zone is preferred only where the settings say so; a zone that is missing is empty.
pub proof fn the_chosen_zone_is_preferred(m: Map<Seq<char>, String>)
    ensures
        ({
            let automatic = m.dom().contains("useAutomaticTimezone"@) && m["useAutomaticTimezone"@]@
                == "true"@;
            let key = if automatic {
                "automaticTimezone"@
            } else {
                "manualTimezone"@
            };
            &&& m.dom().contains(key) ==> preferred_timezone(m) == m[key]@
            &&& !m.dom().contains(key) ==> preferred_timezone(m).len() == 0
        }),
{
    reveal_strlit("true");
    assert("true"@.len() == 4);
}

/// The number that hexadecimal digits stand for.
pub open spec fn hex_number(s: Seq<char>) -> int
    decreases s.len(),
{
    if s.len() == 0 {
        0
    } else {
        16 * hex_number(s.drop_last()) + crate::value::hex_value(s.last())
    }
}

/// Hexadecimal digits stand for the number they were written for, if there are enough of them.
pub proof fn hexadecimal_digits_are_read_back(v: nat, n: nat)
    ensures
        hex_digits(v, n).len() == n,
        forall|i: int|
            0 <= i < n ==> '0' <= #[trigger] hex_digits(v, n)[i] <= '9' || 'a' <= hex_digits(v, n)[i]
                <= 'f',
        v < vstd::arithmetic::power::pow(16, n) ==> hex_number(hex_digits(v, n)) == v,
    decreases n,
{
    reveal(vstd::arithmetic::power::pow);
    if n > 0 {
        let m = (n - 1) as nat;
        hexadecimal_digits_are_read_back(v / 16, m);
        let d = hex_digits(v, n);
        let before = hex_digits(v / 16, m);
        assert(d.drop_last() =~= before);
        let digit = crate::value::hex_digit((v % 16) as int);
        assert(d.last() == digit);
        assert(crate::value::hex_value(digit) == v % 16);
        assert forall|i: int| 0 <= i < n implies '0' <= #[trigger] d[i] <= '9' || 'a' <= d[i] <= 'f' by {
            if i < m {
                assert(d[i] == before[i]);
            }
        }
        let p = vstd::arithmetic::power::pow(16, m);
        assert(vstd::arithmetic::power::pow(16, n) == 16 * p);
        if v < 16 * p {
            assert(v / 16 < p);
        }
    }
}

/// Quotes stand around a text whose characters are shown one by one.
pub proof fn quoted_texts_add_up(a: Seq<char>, b: Seq<char>, c: char)
    ensures
        quoted(a) == "\""@ + quoted_chars(a) + "\""@,
        quoted_chars(a + b) == quoted_chars(a) + quoted_chars(b),
        quoted_chars(Seq::empty()) == Seq::<char>::empty(),
        quoted_chars(seq![c]) == quoted_char(c),
    decreases b.len(),
{
    assert(seq![c].drop_last() =~= Seq::<char>::empty());
    assert(quoted_chars(seq![c].drop_last()) == Seq::<char>::empty());
    assert(quoted_chars(seq![c]) =~= quoted_char(c));
    if b.len() == 0 {
        assert(a + b =~= a);
        assert(quoted_chars(a) + quoted_chars(b) =~= quoted_chars(a));
    } else {
        quoted_texts_add_up(a, b.drop_last(), c);
        assert((a + b).drop_last() =~= a + b.drop_last());
        assert(quoted_chars(a) + (quoted_chars(b.drop_last()) + quoted_char(b.last())) =~= (
        quoted_chars(a) + quoted_chars(b.drop_last())) + quoted_char(b.last()));
    }
}

/// In a quoted text a character that can be shown stands as it is, but for the quote and the
/// backslash, which have a backslash in front of them.
pub proof fn shown_characters_are_quoted_as_they_are(c: char)
    requires
        crate::pattern::is_printable(c),
    ensures
        c != '"' && c != '\\' ==> quoted_char(c) == seq![c],
        c == '"' || c == '\\' ==> quoted_char(c) == seq!['\\', c],
{
    reveal_strlit("\\\"");
    reveal_strlit("\\\\");
    assert("\\\""@ =~= seq!['\\', '"']);
    assert("\\\\"@ =~= seq!['\\', '\\']);
}

/// In a quoted text a character that cannot be shown is named by one letter, as the seven of ASCII
/// that have one are, or by the number of its code point in two, four or eight digits.
pub proof fn hidden_characters_are_named_or_numbered(c: char)
    requires
        !crate::pattern::is_printable(c),
    ensures
        quoted_char(c)[0] == '\\',
        c == '\u{7}' ==> quoted_char(c) == seq!['\\', 'a'],
        c == '\u{8}' ==> quoted_char(c) == seq!['\\', 'b'],
        c == '\t' ==> quoted_char(c) == seq!['\\', 't'],
        c == '\n' ==> quoted_char(c) == seq!['\\', 'n'],
        c == '\u{b}' ==> quoted_char(c) == seq!['\\', 'v'],
        c == '\u{c}' ==> quoted_char(c) == seq!['\\', 'f'],
        c == '\r' ==> quoted_char(c) == seq!['\\', 'r'],
        !('\u{7}' <= c <= '\r') ==> ({
            let q = quoted_char(c);
            &&& hex_number(q.skip(2)) == c as int
            &&& c <= '\u{7f}' ==> q.len() == 4 && q[1] == 'x'
            &&& '\u{7f}' < c <= '\u{ffff}' ==> q.len() == 6 && q[1] == 'u'
            &&& c > '\u{ffff}' ==> q.len() == 10 && q[1] == 'U'
        }),
{
    reveal_strlit("\\a");
    reveal_strlit("\\b");
    reveal_strlit("\\f");
    reveal_strlit("\\n");
    reveal_strlit("\\r");
    reveal_strlit("\\t");
    reveal_strlit("\\v");
    reveal_strlit("\\x");
    reveal_strlit("\\u");
    reveal_strlit("\\U");
    assert("\\a"@ =~= seq!['\\', 'a'] && "\\b"@ =~= seq!['\\', 'b'] && "\\f"@ =~= seq!['\\', 'f']);
    assert("\\n"@ =~= seq!['\\', 'n'] && "\\r"@ =~= seq!['\\', 'r'] && "\\t"@ =~= seq!['\\', 't']);
    assert("\\v"@ =~= seq!['\\', 'v']);
    let v = c as nat;
    reveal_with_fuel(vstd::arithmetic::power::pow, 9);
    hexadecimal_digits_are_read_back(v, 2);
    hexadecimal_digits_are_read_back(v, 4);
    hexadecimal_digits_are_read_back(v, 8);
    assert(vstd::arithmetic::power::pow(16, 2) == 256);
    assert(vstd::arithmetic::power::pow(16, 4) == 65536);
    assert(vstd::arithmetic::power::pow(16, 8) == 4294967296);
    assert(("\\x"@ + hex_digits(v, 2)).skip(2) =~= hex_digits(v, 2));
    assert(("\\u"@ + hex_digits(v, 4)).skip(2) =~= hex_digits(v, 4));
    assert(("\\U"@ + hex_digits(v, 8)).skip(2) =~= hex_digits(v, 8));
}

proof fn first_character(c: char)
    ensures
        '\0' <= c,
{
}

/// Of ASCII an id has letters and digits alone, and twenty-six of them; one character more or less
/// is too many or too few.
pub proof fn plain_ids_have_their_length(s: Seq<char>)
    requires
        forall|i: int| 0 <= i < s.len() ==> #[trigger] s[i] <= '\u{7f}',
    ensures
        valid_id(s) == (s.len() == 26 && forall|i: int|
            0 <= i < s.len() ==> 'a' <= #[trigger] s[i] <= 'z' || 'A' <= s[i] <= 'Z' || '0' <= s[i]
                <= '9'),
{
    assert forall|i: int| 0 <= i < s.len() implies '\0' <= #[trigger] s[i] <= '\u{7f}' by {
        first_character(s[i]);
    }
    assert(vstd::utf8::is_ascii_chars(s));
    vstd::utf8::is_ascii_chars_encode_utf8(s);
    if valid_id(s) {
        assert forall|i: int| 0 <= i < s.len() implies 'a' <= #[trigger] s[i] <= 'z' || 'A' <= s[i]
            <= 'Z' || '0' <= s[i] <= '9' by {
            assert(crate::pattern::is_letter(s[i]) || crate::pattern::is_number(s[i]));
        }
    }
}

/// Whether an error says where it comes from, which one it is, what it is about and what its status
/// is, and nothing more.
pub open spec fn reports(
    e: ErrorModel,
    where_: Seq<char>,
    id: Seq<char>,
    details: Seq<char>,
    status: int,
) -> bool {
    &&& e.where_ == where_
    &&& e.id == id
    &&& e.message == id
    &&& e.details == details
    &&& e.status == status
    &&& e.params is None
    &&& e.wrapped is None
}

/// Ids and tokens are written with thirty-two characters: the digits but for zero and two, and the
/// small letters but for `l` and `v`.
pub proof fn ids_are_written_with_these_characters(c: char)
    ensures
        id_char(c) == seq![
            'y', 'b', 'n', 'd', 'r', 'f', 'g', '8', 'e', 'j', 'k', 'm', 'c', 'p', 'q', 'x', 'o', 't',
            '1', 'u', 'w', 'i', 's', 'z', 'a', '3', '4', '5', 'h', '7', '6', '9',
        ].contains(c),
{
    let all = seq![
        'y', 'b', 'n', 'd', 'r', 'f', 'g', '8', 'e', 'j', 'k', 'm', 'c', 'p', 'q', 'x', 'o', 't', '1',
        'u', 'w', 'i', 's', 'z', 'a', '3', '4', '5', 'h', '7', '6', '9',
    ];
    assert(all[0] == 'y' && all[1] == 'b' && all[2] == 'n' && all[3] == 'd' && all[4] == 'r');
    assert(all[5] == 'f' && all[6] == 'g' && all[7] == '8' && all[8] == 'e' && all[9] == 'j');
    assert(all[10] == 'k' && all[11] == 'm' && all[12] == 'c' && all[13] == 'p' && all[14] == 'q');
    assert(all[15] == 'x' && all[16] == 'o' && all[17] == 't' && all[18] == '1' && all[19] == 'u');
    assert(all[20] == 'w' && all[21] == 'i' && all[22] == 's' && all[23] == 'z' && all[24] == 'a');
    assert(all[25] == '3' && all[26] == '4' && all[27] == '5' && all[28] == 'h' && all[29] == '7');
    assert(all[30] == '6' && all[31] == '9');
}

/// A text that was there is kept, and one that was not becomes a new id.
pub proof fn ids_are_kept_or_made(new: Seq<char>, old: Seq<char>)
    requires
        kept_or_new_id(new, old),
    ensures
        old.len() > 0 ==> new == old,
        old.len() == 0 ==> new.len() == 26 && valid_id(new) && forall|i: int|
            0 <= i < 26 ==> id_char(#[trigger] new[i]),
{
}

/// The identifier of a channel is one or more letters of ASCII, digits, hyphens and underscores.
pub proof fn channels_are_identified_plainly(s: Seq<char>, c: char)
    ensures
        !valid_channel_identifier(Seq::empty()),
        valid_channel_identifier(s.push(c)) == ((s.len() == 0 || valid_channel_identifier(s)) && (
        'a' <= c <= 'z' || 'A' <= c <= 'Z' || '0' <= c <= '9' || c == '-' || c == '_')),
{
    let t = s.push(c);
    assert(t[s.len() as int] == c);
    if valid_channel_identifier(t) {
        assert forall|i: int| 0 <= i < s.len() implies crate::pattern::is_lower_digit(#[trigger] s[i])
            || crate::pattern::is_upper(s[i]) || s[i] == '-' || s[i] == '_' by {
            assert(t[i] == s[i]);
        }
    }
    if (s.len() == 0 || valid_channel_identifier(s)) && ('a' <= c <= 'z' || 'A' <= c <= 'Z' || '0' <= c
        <= '9' || c == '-' || c == '_') {
        assert forall|i: int| 0 <= i < t.len() implies crate::pattern::is_lower_digit(#[trigger] t[i])
            || crate::pattern::is_upper(t[i]) || t[i] == '-' || t[i] == '_' by {
            if i < s.len() {
                assert(t[i] == s[i]);
            }
        }
    }
}

} // verus!
