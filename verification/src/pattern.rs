//! Regular expressions and the classes of characters that they speak of.
//!
//! The expressions are matched by the `regex` crate. For each expression that the library uses,
//! the language it denotes is written out below as a predicate on sequences of characters.

use vstd::prelude::*;

use crate::text::occurs_at;

verus! {

/// The characters of a local user's name.
pub const USERNAME: &'static str = "^[a-z0-9\\.\\-_]+$";

/// The characters of a remote user's name.
pub const REMOTE_USERNAME: &'static str = "^[a-z0-9\\.\\-_:]*$";

/// Names that stand in addresses: lower-case letters, digits and inner hyphens.
pub const ALPHA_NUM: &'static str = "^[a-z0-9]+([a-z\\-0-9]+|(__)?)[a-z0-9]+$";

/// Identifiers of channels.
pub const CHANNEL_IDENTIFIER: &'static str = "^[a-zA-Z0-9\\-_]+$";

/// Hashtags of at least two characters behind the hash.
pub const HASHTAG: &'static str = "^(#\\p{L}[\\p{L}0-9\\-_.]*[\\p{L}0-9])$";

/// More than one hash at the start.
pub const LEADING_HASHES: &'static str = "^#{2,}";

/// Punctuation at the start of a search term.
pub const TERM_PUNC_START: &'static str = "^[^\\p{L}0-9\t\n\u{c}\r #\"]+";

/// Punctuation at the end of a search term.
pub const TERM_PUNC_END: &'static str = "[^\\p{L}\\p{M}0-9\t\n\u{c}\r *\"]+$";

/// The id of a default sidebar category, anywhere in the text.
pub const CATEGORY_ID: &'static str = "(favorites|channels|direct_messages)_[a-z0-9]{26}_[a-z0-9]{26}";

/// One letter.
pub const ONE_LETTER: &'static str = "^\\p{L}$";

/// One combining mark.
pub const ONE_MARK: &'static str = "^\\p{M}$";

/// One number.
pub const ONE_NUMBER: &'static str = "^\\p{N}$";

/// One printable character: a letter, mark, number, punctuation or symbol.
pub const ONE_PRINTABLE: &'static str = "^[\\p{L}\\p{M}\\p{N}\\p{P}\\p{S}]$";

/// Whether the regular expression `pattern` matches somewhere in `text`.
pub uninterp spec fn regex_matches(pattern: Seq<char>, text: Seq<char>) -> bool;

/// `text` with the first match of `pattern` replaced by `with`.
pub uninterp spec fn regex_replaced(
    pattern: Seq<char>,
    text: Seq<char>,
    with: Seq<char>,
) -> Seq<char>;

/// `a` to `z`.
pub open spec fn is_lower(c: char) -> bool {
    'a' <= c <= 'z'
}

/// `A` to `Z`.
pub open spec fn is_upper(c: char) -> bool {
    'A' <= c <= 'Z'
}

/// `0` to `9`.
pub open spec fn is_digit(c: char) -> bool {
    '0' <= c <= '9'
}

/// A lower-case letter or a digit of ASCII.
pub open spec fn is_lower_digit(c: char) -> bool {
    is_lower(c) || is_digit(c)
}

/// A character of ASCII.
pub open spec fn is_ascii_char(c: char) -> bool {
    c <= '\u{7f}'
}

/// A Unicode letter.
pub open spec fn is_letter(c: char) -> bool {
    if is_ascii_char(c) {
        is_lower(c) || is_upper(c)
    } else {
        regex_matches(ONE_LETTER@, seq![c])
    }
}

/// A Unicode combining mark.
pub open spec fn is_mark(c: char) -> bool {
    !is_ascii_char(c) && regex_matches(ONE_MARK@, seq![c])
}

/// A Unicode number.
pub open spec fn is_number(c: char) -> bool {
    if is_ascii_char(c) {
        is_digit(c)
    } else {
        regex_matches(ONE_NUMBER@, seq![c])
    }
}

/// A character that can be shown.
pub open spec fn is_printable(c: char) -> bool {
    if is_ascii_char(c) {
        ' ' <= c <= '~'
    } else {
        regex_matches(ONE_PRINTABLE@, seq![c])
    }
}

/// A character of a local user's name.
pub open spec fn username_char(c: char) -> bool {
    is_lower_digit(c) || c == '.' || c == '-' || c == '_'
}

/// The language of [`ALPHA_NUM`].
pub open spec fn alpha_num_shape(s: Seq<char>) -> bool {
    &&& s.len() >= 2
    &&& is_lower_digit(s[0])
    &&& is_lower_digit(s.last())
    &&& {
        ||| forall|i: int| 0 <= i < s.len() ==> is_lower_digit(#[trigger] s[i]) || s[i] == '-'
        ||| exists|k: int| #[trigger] double_underscore_at(s, k)
    }
}

/// The only characters of `s` besides lower-case letters and digits are two underscores at `k`.
pub open spec fn double_underscore_at(s: Seq<char>, k: int) -> bool {
    &&& 1 <= k
    &&& k + 2 < s.len()
    &&& forall|i: int|
        0 <= i < s.len() ==> if i == k || i == k + 1 {
            #[trigger] s[i] == '_'
        } else {
            is_lower_digit(s[i])
        }
}

/// The language of [`HASHTAG`].
pub open spec fn hashtag_shape(s: Seq<char>) -> bool {
    &&& s.len() >= 3
    &&& s[0] == '#'
    &&& is_letter(s[1])
    &&& is_letter(s.last()) || is_digit(s.last())
    &&& forall|i: int|
        2 <= i < s.len() - 1 ==> is_letter(#[trigger] s[i]) || is_digit(s[i]) || s[i] == '-' || s[i]
            == '_' || s[i] == '.'
}

/// The white space of the search patterns.
pub open spec fn is_term_space(c: char) -> bool {
    c == '\t' || c == '\n' || c == '\u{c}' || c == '\r' || c == ' '
}

/// What is stripped from the start of a search term.
pub open spec fn strips_at_start(c: char) -> bool {
    !(is_letter(c) || is_digit(c) || is_term_space(c) || c == '#' || c == '"')
}

/// What is stripped from the end of a search term.
pub open spec fn strips_at_end(c: char) -> bool {
    !(is_letter(c) || is_mark(c) || is_digit(c) || is_term_space(c) || c == '*' || c == '"')
}

/// `s` without its longest run of characters at the start for which `drop` holds.
pub open spec fn drop_start(s: Seq<char>, drop: spec_fn(char) -> bool) -> Seq<char>
    decreases s.len(),
{
    if s.len() > 0 && drop(s[0]) {
        drop_start(s.skip(1), drop)
    } else {
        s
    }
}

/// `s` without its longest run of characters at the end for which `drop` holds.
pub open spec fn drop_end(s: Seq<char>, drop: spec_fn(char) -> bool) -> Seq<char>
    decreases s.len(),
{
    if s.len() > 0 && drop(s.last()) {
        drop_end(s.drop_last(), drop)
    } else {
        s
    }
}

/// A run of two or more hashes at the start of `s` is written as one hash.
pub open spec fn hashes_collapsed(s: Seq<char>) -> Seq<char> {
    if s.len() >= 2 && s[0] == '#' && s[1] == '#' {
        seq!['#'] + drop_start(s, |c: char| c == '#')
    } else {
        s
    }
}

/// `n` lower-case letters or digits stand in `s` from position `at` on.
pub open spec fn lower_digits_at(s: Seq<char>, at: int, n: int) -> bool {
    0 <= at && at + n <= s.len() && forall|i: int| at <= i < at + n ==> is_lower_digit(#[trigger] s[i])
}

/// A category name, then two ids with underscores in front of them, stand in `s` at `at`.
pub open spec fn category_id_at(s: Seq<char>, name: Seq<char>, at: int) -> bool {
    let first = at + name.len();
    &&& occurs_at(s, name, at)
    &&& occurs_at(s, "_"@, first)
    &&& lower_digits_at(s, first + 1, 26)
    &&& occurs_at(s, "_"@, first + 27)
    &&& lower_digits_at(s, first + 28, 26)
}

/// The id of one of the default categories stands in `s` at `at`.
pub open spec fn default_category_at(s: Seq<char>, at: int) -> bool {
    ||| category_id_at(s, "favorites"@, at)
    ||| category_id_at(s, "channels"@, at)
    ||| category_id_at(s, "direct_messages"@, at)
}

/// The texts in which [`CATEGORY_ID`] occurs.
pub open spec fn category_id_shape(s: Seq<char>) -> bool {
    exists|at: int| #[trigger] default_category_at(s, at)
}

/// `regex::Regex::new` and `Regex::is_match`: whether the expression matches anywhere in the text;
/// an expression that does not compile matches nothing. For the expressions of this module the
/// contract says which texts those are, by the documented meaning of classes, anchors, groups and
/// repetitions; `\p{L}`, `\p{M}` and `\p{N}` are the same classes in each of them.
#[verifier::external_body]
pub(crate) fn regex_is_match(pattern: &str, text: &str) -> (r: bool)
    ensures
        r == regex_matches(pattern@, text@),
        pattern@ == USERNAME@ ==> r == (text@.len() > 0 && forall|i: int|
            0 <= i < text@.len() ==> username_char(#[trigger] text@[i])),
        pattern@ == REMOTE_USERNAME@ ==> r == (forall|i: int|
            0 <= i < text@.len() ==> username_char(#[trigger] text@[i]) || text@[i] == ':'),
        pattern@ == ALPHA_NUM@ ==> r == alpha_num_shape(text@),
        pattern@ == CHANNEL_IDENTIFIER@ ==> r == (text@.len() > 0 && forall|i: int|
            0 <= i < text@.len() ==> is_lower_digit(#[trigger] text@[i]) || is_upper(text@[i])
                || text@[i] == '-' || text@[i] == '_'),
        pattern@ == HASHTAG@ ==> r == hashtag_shape(text@),
        pattern@ == CATEGORY_ID@ ==> r == category_id_shape(text@),
{
    match regex::Regex::new(pattern) {
        Ok(re) => re.is_match(text),
        Err(_) => false,
    }
}

/// `regex::Regex::new` and `Regex::replace`: the text with the first match of the expression
/// replaced; where the expression does not compile or does not match, the text as it is. For the
/// expressions of this module that are anchored at one end the contract says what is left, by the
/// documented leftmost and greedy match.
#[verifier::external_body]
pub(crate) fn regex_replace(pattern: &str, text: &str, with: &str) -> (r: String)
    ensures
        r@ == regex_replaced(pattern@, text@, with@),
        pattern@ == TERM_PUNC_START@ && with@ == ""@ ==> r@ == drop_start(
            text@,
            |c: char| strips_at_start(c),
        ),
        pattern@ == TERM_PUNC_END@ && with@ == ""@ ==> r@ == drop_end(
            text@,
            |c: char| strips_at_end(c),
        ),
        pattern@ == LEADING_HASHES@ && with@ == "#"@ ==> r@ == hashes_collapsed(text@),
{
    match regex::Regex::new(pattern) {
        Ok(re) => re.replace(text, with).into_owned(),
        Err(_) => text.to_owned(),
    }
}

fn one_char(c: char) -> (s: String)
    ensures
        s@ == seq![c],
{
    let mut s: String = String::new();
    s.push(c);
    assert(s@ == seq![c]);
    s
}

/// Whether a character is a Unicode letter.
pub fn letter_char(c: char) -> (r: bool)
    ensures
        r == is_letter(c),
{
    if c <= '\u{7f}' {
        ('a' <= c && c <= 'z') || ('A' <= c && c <= 'Z')
    } else {
        regex_is_match(ONE_LETTER, one_char(c).as_str())
    }
}

/// Whether a character is a Unicode number.
pub fn number_char(c: char) -> (r: bool)
    ensures
        r == is_number(c),
{
    if c <= '\u{7f}' {
        '0' <= c && c <= '9'
    } else {
        regex_is_match(ONE_NUMBER, one_char(c).as_str())
    }
}

/// Whether a character can be shown.
pub fn printable_char(c: char) -> (r: bool)
    ensures
        r == is_printable(c),
{
    if c <= '\u{7f}' {
        ' ' <= c && c <= '~'
    } else {
        regex_is_match(ONE_PRINTABLE, one_char(c).as_str())
    }
}

/// Whether a character is a lower-case letter or a digit of ASCII.
pub fn lower_digit_char(c: char) -> (r: bool)
    ensures
        r == is_lower_digit(c),
{
    ('a' <= c && c <= 'z') || ('0' <= c && c <= '9')
}

/// A hashtag is a hash, a letter, and at least one letter or digit more at its end.
pub proof fn hashtags_begin_with_a_letter(s: Seq<char>, word: Seq<char>)
    ensures
        hashtag_shape(s) ==> s.len() >= 3 && s[0] == '#' && is_letter(s[1]) && (is_letter(s.last())
            || is_digit(s.last())),
        hashtag_shape(s) ==> forall|i: int|
            1 <= i < s.len() ==> #[trigger] s[i] != '#' && s[i] != ' ',
        word.len() >= 2 && is_letter(word[0]) && (forall|i: int|
            0 <= i < word.len() ==> is_letter(#[trigger] word[i]) || is_digit(word[i]))
            ==> hashtag_shape(seq!['#'] + word),
{
    if word.len() >= 2 && is_letter(word[0]) && (forall|i: int|
        0 <= i < word.len() ==> is_letter(#[trigger] word[i]) || is_digit(word[i])) {
        let t = seq!['#'] + word;
        assert(t[1] == word[0]);
        assert(t.last() == word[word.len() - 1]);
        assert forall|i: int| 2 <= i < t.len() - 1 implies is_letter(#[trigger] t[i]) || is_digit(t[i])
            || t[i] == '-' || t[i] == '_' || t[i] == '.' by {
            assert(t[i] == word[i - 1]);
        }
    }
    if hashtag_shape(s) {
        assert forall|i: int| 1 <= i < s.len() implies #[trigger] s[i] != '#' && s[i] != ' ' by {
            if i == s.len() - 1 {
                assert(s[i] == s.last());
            }
        }
    }
}

} // verus!
