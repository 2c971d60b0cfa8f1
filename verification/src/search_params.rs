//! What a user types into the search box, taken apart.
//!
//! A text is split into words; words that name a flag, such as `in:town-square`, become filters,
//! the others become terms. Plain terms and hashtags are searched for separately, under the same
//! filters.

pub mod laws;

use vstd::prelude::*;

use crate::calendar::{end_of_day, local_today, read_day, start_of_day, MAX_DAY, MIN_DAY};
use crate::pattern::{regex_replace, TERM_PUNC_END, TERM_PUNC_START};
use crate::text::{clone_strings, find_from, join_strings, same, split_fields, to_chars};
use crate::utils::{
    collapse_leading_hashes, is_valid_hashtag, pad_date_string_zeros, AppError, AppResult,
    StringArray,
};

verus! {

/// The flags, by their names.
pub const SEARCH_FLAGS: [&'static str; 7] = [
    "from",
    "channel",
    "in",
    "before",
    "after",
    "on",
    "ext",
];

/// One search: its terms and the filters on what is found.
#[derive(Debug, Clone, Default, PartialEq, Eq)]
pub struct SearchParams {
    pub terms: String,
    pub excluded_terms: String,
    pub is_hashtag: bool,
    pub in_channels: StringArray,
    pub excluded_channels: StringArray,
    pub from_users: StringArray,
    pub excluded_users: StringArray,
    pub after_date: String,
    pub excluded_after_date: String,
    pub before_date: String,
    pub excluded_before_date: String,
    pub extensions: StringArray,
    pub excluded_extensions: StringArray,
    pub on_date: String,
    pub excluded_date: String,
    pub or_terms: bool,
    pub include_deleted_channels: bool,
    /// Seconds east of UTC, as the client gave them.
    pub time_zone_offset: i64,
    /// Whether the search is no user's own.
    pub search_without_user_id: bool,
    pub modifier: String,
}

// ---------------------------------------------------------------------------------------------
// Words
// ---------------------------------------------------------------------------------------------

/// Where a quoted word begins: at its quote, or at a hyphen right in front of it.
pub open spec fn quoted_start(s: Seq<char>, quote: int, at: int) -> int {
    if quote > at && s[quote - 1] == '-' {
        quote - 1
    } else {
        quote
    }
}

/// The words of a text from a position on. A quote opens a word that runs to the next quote, both
/// included; a hyphen in front of it belongs to it. What stands outside of quotes is split at white
/// space, and so is what follows a quote that is never closed.
pub open spec fn words_from(s: Seq<char>, at: int) -> Seq<Seq<char>>
    decreases s.len() - at,
{
    let open = crate::text::next_at(s, '"', at);
    if at < 0 || open < at || open >= s.len() {
        crate::text::fields(s.skip(at))
    } else {
        let start = quoted_start(s, open, at);
        let close = crate::text::next_at(s, '"', open + 1);
        let before = crate::text::fields(s.subrange(at, start));
        if close <= open || close >= s.len() {
            before + crate::text::fields(s.skip(start))
        } else {
            before.push(s.subrange(start, close + 1)) + words_from(s, close + 1)
        }
    }
}

/// The words of a text.
pub open spec fn words_of(s: Seq<char>) -> Seq<Seq<char>> {
    words_from(s, 0)
}

/// Whether a word is one quotation, with or without a hyphen in front: a quote, what holds no quote,
/// and a quote.
pub open spec fn is_quoted(word: Seq<char>) -> bool {
    let open: int = if word.len() > 0 && word[0] == '-' {
        1
    } else {
        0
    };
    &&& word.len() >= open + 2
    &&& word[open] == '"'
    &&& word.last() == '"'
    &&& forall|i: int| open < i < word.len() - 1 ==> #[trigger] word[i] != '"'
}

/// Whether a word is quoted if there is white space in it.
pub open spec fn quoted_if_spaced(word: Seq<char>) -> bool {
    (exists|i: int| 0 <= i < word.len() && crate::text::is_space(#[trigger] word[i])) ==> is_quoted(
        word,
    )
}

/// Whether words make up a text but for white space, those with white space in them being quoted.
#[verifier::opaque]
spec fn well_split(s: Seq<char>, words: Seq<Seq<char>>) -> bool {
    &&& crate::text::parts_of(s, words)
    &&& forall|i: int| 0 <= i < words.len() ==> quoted_if_spaced(#[trigger] words[i])
}

proof fn fields_are_well_split(s: Seq<char>)
    ensures
        well_split(s, crate::text::fields(s)),
{
    reveal(well_split);
    crate::text::fields_make_up_a_text(s);
}

proof fn splits_add_up(
    a: Seq<char>,
    a_words: Seq<Seq<char>>,
    b: Seq<char>,
    b_words: Seq<Seq<char>>,
)
    requires
        well_split(a, a_words),
        well_split(b, b_words),
    ensures
        well_split(a + b, a_words + b_words),
{
    reveal(well_split);
    crate::text::parts_add_up(a, a_words, b, b_words);
}

proof fn a_quotation_is_well_split(word: Seq<char>)
    requires
        is_quoted(word),
    ensures
        well_split(word, seq![word]),
{
    reveal(well_split);
    crate::text::a_word_is_a_part(word);
}

proof fn a_quotation_is_quoted(s: Seq<char>, at: int, open: int, close: int)
    requires
        0 <= at <= open < close < s.len(),
        s[open] == '"',
        s[close] == '"',
        forall|j: int| open < j < close ==> s[j] != '"',
    ensures
        is_quoted(s.subrange(quoted_start(s, open, at), close + 1)),
{
    let start = quoted_start(s, open, at);
    let word = s.subrange(start, close + 1);
    assert(word.last() == s[close]);
    assert(word[open - start] == s[open]);
    assert(word[0] == s[start]);
}

proof fn tails_are_well_split(s: Seq<char>, at: int)
    requires
        0 <= at <= s.len(),
    ensures
        well_split(s.skip(at), words_from(s, at)),
    decreases s.len() - at,
{
    crate::text::next_at_finds(s, '"', at);
    let open = crate::text::next_at(s, '"', at);
    if open >= s.len() {
        fields_are_well_split(s.skip(at));
    } else {
        let start = quoted_start(s, open, at);
        crate::text::next_at_finds(s, '"', open + 1);
        let close = crate::text::next_at(s, '"', open + 1);
        let front = s.subrange(at, start);
        let before = crate::text::fields(front);
        fields_are_well_split(front);
        if close >= s.len() {
            let rest = s.skip(start);
            fields_are_well_split(rest);
            splits_add_up(front, before, rest, crate::text::fields(rest));
            assert(front + rest == s.skip(at));
        } else {
            let word = s.subrange(start, close + 1);
            let rest = s.skip(close + 1);
            a_quotation_is_quoted(s, at, open, close);
            a_quotation_is_well_split(word);
            splits_add_up(front, before, word, seq![word]);
            tails_are_well_split(s, close + 1);
            splits_add_up(front + word, before + seq![word], rest, words_from(s, close + 1));
            assert(front + word + rest == s.skip(at));
            assert(before + seq![word] == before.push(word));
        }
    }
}

/// The words of a text lose nothing of it but white space, nor do they repeat or reorder anything:
/// each stands in the text as it is, none is empty, and between them is white space alone. A word
/// with white space in it is quoted.
pub proof fn words_make_up_a_text(s: Seq<char>)
    ensures
        crate::text::parts_of(s, words_of(s)),
        forall|i: int| 0 <= i < words_of(s).len() ==> words_of(s)[i].len() > 0,
        forall|i: int| 0 <= i < words_of(s).len() ==> quoted_if_spaced(#[trigger] words_of(s)[i]),
{
    reveal(well_split);
    tails_are_well_split(s, 0);
    assert(s.skip(0) == s);
    crate::text::parts_are_not_empty(s, words_of(s));
}

/// A text without quotes is split at white space.
pub proof fn words_without_quotes(s: Seq<char>)
    requires
        !s.contains('"'),
    ensures
        words_of(s) == crate::text::fields(s),
{
    crate::text::next_at_is_first(s, '"', 0, s.len() as int);
    assert(s.skip(0) == s);
}

/// A text that is one quotation is one word, with or without a hyphen in front.
pub proof fn a_quotation_is_one_word(inner: Seq<char>, hyphen: bool)
    requires
        !inner.contains('"'),
    ensures
        ({
            let text = (if hyphen {
                seq!['-', '"']
            } else {
                seq!['"']
            }) + inner + seq!['"'];
            words_of(text) == seq![text]
        }),
{
    let text = (if hyphen {
        seq!['-', '"']
    } else {
        seq!['"']
    }) + inner + seq!['"'];
    let open: int = if hyphen {
        1
    } else {
        0
    };
    let close = text.len() - 1;
    assert forall|j: int| open < j < close implies text[j] != '"' by {
        assert(text[j] == inner[j - open - 1]);
    }
    crate::text::next_at_is_first(text, '"', 0, open);
    crate::text::next_at_is_first(text, '"', open + 1, close);
    assert(quoted_start(text, open, 0) == 0);
    assert(text.subrange(0, 0).len() == 0);
    assert(text.subrange(0, close + 1) == text);
    assert(crate::text::next_at(text, '"', close + 1) == text.len());
    assert(text.skip(close + 1).len() == 0);
    assert(words_from(text, close + 1).len() == 0);
    assert(words_of(text) =~= seq![text]);
}

fn extend_with_fields<'a>(words: &mut Vec<&'a str>, text: &'a str)
    ensures
        crate::text::views(final(words)@) == crate::text::views(old(words)@) + crate::text::fields(
            text@,
        ),
{
    let ghost before = words@;
    let mut more: Vec<&'a str> = split_fields(text);
    let ghost added = more@;
    words.append(&mut more);
    assert(crate::text::views(words@) == crate::text::views(before) + crate::text::views(added));
}

/// Splits a text into its words.
pub fn split_words<'a>(text: &'a str) -> (words: Vec<&'a str>)
    ensures
        crate::text::views(words@) == words_of(text@),
{
    let chars: Vec<char> = to_chars(text);
    let n: usize = chars.len();
    let mut words: Vec<&'a str> = Vec::new();
    let mut at: usize = 0;
    assert(crate::text::views(words@) + words_from(text@, 0) == words_of(text@));
    loop
        invariant
            chars@ == text@,
            n == chars@.len(),
            at <= n,
            crate::text::views(words@) + words_from(text@, at as int) == words_of(text@),
        decreases n - at,
    {
        let open: usize = find_from(chars.as_slice(), '"', at);
        let ghost done = crate::text::views(words@);
        if open >= n {
            extend_with_fields(&mut words, text.substring_char(at, n));
            assert(text@.subrange(at as int, n as int) == text@.skip(at as int));
            return words;
        }
        let start: usize = if open > at && chars[open - 1] == '-' {
            open - 1
        } else {
            open
        };
        extend_with_fields(&mut words, text.substring_char(at, start));
        let close: usize = find_from(chars.as_slice(), '"', open + 1);
        if close >= n {
            extend_with_fields(&mut words, text.substring_char(start, n));
            assert(text@.subrange(start as int, n as int) == text@.skip(start as int));
            assert(crate::text::views(words@) == words_of(text@));
            return words;
        }
        let ghost before = words@;
        let quoted: &'a str = text.substring_char(start, close + 1);
        words.push(quoted);
        assert(crate::text::views(words@) == crate::text::views(before).push(quoted@));
        at = close + 1;
        assert(crate::text::views(words@) + words_from(text@, at as int) == words_of(text@));
    }
}

// ---------------------------------------------------------------------------------------------
// Terms and flags
// ---------------------------------------------------------------------------------------------

/// A character of ASCII in lower case; others as they are.
pub open spec fn ascii_lower(c: char) -> char {
    if 'A' <= c <= 'Z' {
        (c as int + 32) as char
    } else {
        c
    }
}

/// A text with the capital letters of ASCII in lower case.
pub open spec fn folded(s: Seq<char>) -> Seq<char> {
    s.map_values(|c: char| ascii_lower(c))
}

/// A term as it is searched for: without punctuation at its ends, and with one hash at its start
/// for several.
pub open spec fn trimmed_term(word: Seq<char>) -> Seq<char> {
    let headless = crate::pattern::drop_start(word, |c: char| crate::pattern::strips_at_start(c));
    let bare = crate::pattern::drop_end(headless, |c: char| crate::pattern::strips_at_end(c));
    crate::pattern::hashes_collapsed(bare)
}

/// The model of a term: its text, and whether it is excluded.
pub struct Term {
    pub value: Seq<char>,
    pub exclude: bool,
}

/// The model of a flag: its name, its value, and whether it excludes.
pub struct Flag {
    pub name: Seq<char>,
    pub value: Seq<char>,
    pub exclude: bool,
}

/// Whether a word begins with a hyphen.
pub open spec fn excludes(word: Seq<char>) -> bool {
    word.len() > 0 && word[0] == '-'
}

/// What stands in a word in front of its colon, in lower case and without the hyphen.
pub open spec fn flag_name(word: Seq<char>) -> Seq<char> {
    let from: int = if excludes(word) {
        1
    } else {
        0
    };
    folded(word.subrange(from, crate::text::next_at(word, ':', 0)))
}

/// Whether a word is the name of a flag, a colon and a value, which may be empty.
pub open spec fn names_flag(word: Seq<char>) -> bool {
    crate::text::next_at(word, ':', 0) < word.len() && crate::text::views(SEARCH_FLAGS@).contains(
        flag_name(word),
    )
}

/// What stands behind the colon of a word.
pub open spec fn flag_value(word: Seq<char>) -> Seq<char> {
    word.skip(crate::text::next_at(word, ':', 0) + 1)
}

/// The flag that begins at a word. A flag without a value takes the word behind it; the last word
/// is no flag without a value.
pub open spec fn flag_at(words: Seq<Seq<char>>, i: int) -> Option<Flag> {
    let word = words[i];
    if !names_flag(word) {
        None
    } else if flag_value(word).len() > 0 {
        Some(Flag { name: flag_name(word), value: flag_value(word), exclude: excludes(word) })
    } else if i + 1 < words.len() {
        Some(Flag { name: flag_name(word), value: words[i + 1], exclude: excludes(word) })
    } else {
        None
    }
}

/// The number of words that a flag takes.
pub open spec fn flag_width(word: Seq<char>) -> int {
    if flag_value(word).len() > 0 {
        1
    } else {
        2
    }
}

/// The flags of words, from one of them on.
pub open spec fn flags_from(words: Seq<Seq<char>>, i: int) -> Seq<Flag>
    decreases words.len() - i,
{
    if i >= words.len() {
        Seq::empty()
    } else {
        match flag_at(words, i) {
            Some(f) => seq![f] + flags_from(words, i + flag_width(words[i])),
            None => flags_from(words, i + 1),
        }
    }
}

/// The term that a word is, if anything is left of it.
pub open spec fn term_of(word: Seq<char>) -> Seq<Term> {
    if trimmed_term(word).len() > 0 {
        seq![Term { value: trimmed_term(word), exclude: excludes(word) }]
    } else {
        Seq::empty()
    }
}

/// The terms of words, from one of them on.
pub open spec fn terms_from(words: Seq<Seq<char>>, i: int) -> Seq<Term>
    decreases words.len() - i,
{
    if i >= words.len() {
        Seq::empty()
    } else {
        match flag_at(words, i) {
            Some(f) => terms_from(words, i + flag_width(words[i])),
            None => term_of(words[i]) + terms_from(words, i + 1),
        }
    }
}

/// A term, and whether it is excluded.
#[derive(Debug, Clone, PartialEq, Eq)]
pub struct SearchWord {
    pub value: String,
    pub exclude: bool,
}

/// A flag by its name, its value, and whether it excludes.
#[derive(Debug, Clone, PartialEq, Eq)]
pub struct SearchFlag<'a> {
    pub name: &'static str,
    pub value: &'a str,
    pub exclude: bool,
}

impl View for SearchWord {
    type V = Term;

    open spec fn view(&self) -> Term {
        Term { value: self.value@, exclude: self.exclude }
    }
}

impl<'a> View for SearchFlag<'a> {
    type V = Flag;

    open spec fn view(&self) -> Flag {
        Flag { name: self.name@, value: self.value@, exclude: self.exclude }
    }
}

/// The models of terms.
pub open spec fn term_models(words: Seq<SearchWord>) -> Seq<Term> {
    words.map_values(|w: SearchWord| w@)
}

/// The models of flags.
pub open spec fn flag_models(flags: Seq<SearchFlag<'_>>) -> Seq<Flag> {
    flags.map_values(|f: SearchFlag<'_>| f@)
}

/// Strips punctuation from the ends of a term and writes one hash for several.
pub fn trim_search_term(word: &str) -> (r: String)
    ensures
        r@ == trimmed_term(word@),
{
    let headless: String = regex_replace(TERM_PUNC_START, word, "");
    let bare: String = regex_replace(TERM_PUNC_END, headless.as_str(), "");
    collapse_leading_hashes(bare.as_str())
}

fn lower_of(c: char) -> (r: char)
    ensures
        r == ascii_lower(c),
{
    if 'A' <= c && c <= 'Z' {
        ((c as u8) + 32) as char
    } else {
        c
    }
}

/// Whether a text is a flag's name but for the case of letters.
fn is_name(chars: &[char], from: usize, to: usize, name: &str) -> (r: bool)
    requires
        from <= to <= chars@.len(),
    ensures
        r == (folded(chars@.subrange(from as int, to as int)) == name@),
{
    let wanted: Vec<char> = to_chars(name);
    let ghost got = folded(chars@.subrange(from as int, to as int));
    if wanted.len() != to - from {
        assert(got.len() != name@.len());
        return false;
    }
    let mut i: usize = 0;
    while i < wanted.len()
        invariant
            wanted@ == name@,
            from <= to <= chars@.len(),
            wanted@.len() == to - from,
            i <= wanted@.len(),
            got == folded(chars@.subrange(from as int, to as int)),
            forall|j: int| 0 <= j < i ==> got[j] == wanted@[j],
        decreases wanted@.len() - i,
    {
        assert(got[i as int] == ascii_lower(chars@[from + i]));
        if lower_of(chars[from + i]) != wanted[i] {
            return false;
        }
        i = i + 1;
    }
    assert(got =~= name@);
    true
}

/// The name of the flag that a word begins with, the position of its colon, and whether it
/// excludes.
fn named_flag(word: &str) -> (r: Option<(&'static str, usize, bool)>)
    ensures
        match r {
            Some((name, colon, exclude)) => names_flag(word@) && name@ == flag_name(word@) && colon
                == crate::text::next_at(word@, ':', 0) && colon < word@.len() && exclude == excludes(word@),
            None => !names_flag(word@),
        },
{
    let chars: Vec<char> = to_chars(word);
    let colon: usize = find_from(chars.as_slice(), ':', 0);
    if colon >= chars.len() {
        return None;
    }
    let exclude: bool = chars[0] == '-';
    let from: usize = if exclude {
        1
    } else {
        0
    };
    let mut i: usize = 0;
    while i < SEARCH_FLAGS.len()
        invariant
            chars@ == word@,
            from <= colon < chars@.len(),
            colon == crate::text::next_at(word@, ':', 0),
            exclude == excludes(word@),
            from == (if exclude {
                1int
            } else {
                0int
            }),
            i <= SEARCH_FLAGS@.len(),
            forall|j: int| 0 <= j < i ==> #[trigger] SEARCH_FLAGS@[j]@ != flag_name(word@),
        decreases SEARCH_FLAGS@.len() - i,
    {
        let name: &'static str = SEARCH_FLAGS[i];
        if is_name(chars.as_slice(), from, colon, name) {
            assert(crate::text::views(SEARCH_FLAGS@)[i as int] == flag_name(word@));
            return Some((name, colon, exclude));
        }
        i = i + 1;
    }
    assert(!crate::text::views(SEARCH_FLAGS@).contains(flag_name(word@))) by {
        if crate::text::views(SEARCH_FLAGS@).contains(flag_name(word@)) {
            let j = choose|j: int|
                0 <= j < crate::text::views(SEARCH_FLAGS@).len() && crate::text::views(
                    SEARCH_FLAGS@,
                )[j] == flag_name(word@);
            assert(SEARCH_FLAGS@[j]@ == flag_name(word@));
        }
    }
    None
}

fn starts_with_hyphen(word: &str) -> (r: bool)
    ensures
        r == excludes(word@),
{
    !word.is_empty() && word.get_char(0) == '-'
}

/// Parts words into terms and flags.
pub fn parse_search_flags<'a>(input: &[&'a str]) -> (r: (Vec<SearchWord>, Vec<SearchFlag<'a>>))
    ensures
        term_models(r.0@) == terms_from(crate::text::views(input@), 0),
        flag_models(r.1@) == flags_from(crate::text::views(input@), 0),
{
    let ghost all = crate::text::views(input@);
    let mut words: Vec<SearchWord> = Vec::new();
    let mut flags: Vec<SearchFlag<'a>> = Vec::new();
    let mut i: usize = 0;
    assert(term_models(words@) + terms_from(all, 0) == terms_from(all, 0));
    assert(flag_models(flags@) + flags_from(all, 0) == flags_from(all, 0));
    while i < input.len()
        invariant
            all == crate::text::views(input@),
            i <= input@.len(),
            term_models(words@) + terms_from(all, i as int) == terms_from(all, 0),
            flag_models(flags@) + flags_from(all, i as int) == flags_from(all, 0),
        decreases input@.len() - i,
    {
        let word: &'a str = input[i];
        assert(all[i as int] == word@);
        let mut flag: Option<SearchFlag<'a>> = None;
        let mut width: usize = 1;
        match named_flag(word) {
            Some((name, colon, exclude)) => {
                let n: usize = word.unicode_len();
                let value: &'a str = word.substring_char(colon + 1, n);
                assert(value@ == flag_value(word@));
                if !value.is_empty() {
                    flag = Some(SearchFlag { name, value, exclude });
                } else if i + 1 < input.len() {
                    assert(all[i + 1] == input@[i + 1]@);
                    flag = Some(SearchFlag { name, value: input[i + 1], exclude });
                    width = 2;
                }
            },
            None => {},
        }
        assert(match flag {
            Some(f) => flag_at(all, i as int) == Some(f@) && width == flag_width(word@),
            None => flag_at(all, i as int) is None,
        });
        let ghost old_words = words@;
        let ghost old_flags = flags@;
        match flag {
            Some(f) => {
                flags.push(f);
                assert(flag_models(flags@) == flag_models(old_flags).push(f@));
                i = i + width;
            },
            None => {
                let trimmed: String = trim_search_term(word);
                if !trimmed.as_str().is_empty() {
                    let term: SearchWord = SearchWord {
                        value: trimmed,
                        exclude: starts_with_hyphen(word),
                    };
                    words.push(term);
                    assert(term_models(words@) == term_models(old_words).push(term@));
                    assert(term_of(word@) == seq![term@]);
                }
                assert(term_models(words@) == term_models(old_words) + term_of(word@));
                i = i + 1;
            },
        }
        assert(flag_models(flags@) + flags_from(all, i as int) == flags_from(all, 0));
        assert(term_models(words@) + terms_from(all, i as int) == terms_from(all, 0));
    }
    (words, flags)
}

// ---------------------------------------------------------------------------------------------
// Searches
// ---------------------------------------------------------------------------------------------

/// The texts of the terms that are hashtags or not, excluded or not.
pub open spec fn picked(terms: Seq<Term>, hashtag: bool, exclude: bool) -> Seq<Seq<char>>
    decreases terms.len(),
{
    if terms.len() == 0 {
        Seq::empty()
    } else {
        let before = picked(terms.drop_last(), hashtag, exclude);
        let term = terms.last();
        if crate::pattern::hashtag_shape(term.value) == hashtag && term.exclude == exclude {
            before.push(term.value)
        } else {
            before
        }
    }
}

/// The filter that a flag stands for. A channel is given by `in` or by `channel`.
pub open spec fn filter_name(name: Seq<char>) -> Seq<char> {
    if name == "channel"@ {
        "in"@
    } else {
        name
    }
}

/// The values that flags give to a filter, or exclude by it.
pub open spec fn given(flags: Seq<Flag>, filter: Seq<char>, exclude: bool) -> Seq<Seq<char>>
    decreases flags.len(),
{
    if flags.len() == 0 {
        Seq::empty()
    } else {
        let before = given(flags.drop_last(), filter, exclude);
        let flag = flags.last();
        if filter_name(flag.name) == filter && flag.exclude == exclude {
            before.push(flag.value)
        } else {
            before
        }
    }
}

/// The last of several values; nothing where there is none.
pub open spec fn latest(values: Seq<Seq<char>>) -> Seq<char> {
    if values.len() == 0 {
        Seq::empty()
    } else {
        values.last()
    }
}

/// The terms of a search.
pub struct Head {
    pub terms: Seq<char>,
    pub excluded_terms: Seq<char>,
    pub is_hashtag: bool,
}

/// Whether flags filter anything.
pub open spec fn filters_anything(flags: Seq<Flag>) -> bool {
    ||| given(flags, "in"@, false).len() > 0
    ||| given(flags, "in"@, true).len() > 0
    ||| given(flags, "from"@, false).len() > 0
    ||| given(flags, "from"@, true).len() > 0
    ||| given(flags, "ext"@, false).len() > 0
    ||| given(flags, "ext"@, true).len() > 0
    ||| latest(given(flags, "after"@, false)).len() > 0
    ||| latest(given(flags, "after"@, true)).len() > 0
    ||| latest(given(flags, "before"@, false)).len() > 0
    ||| latest(given(flags, "before"@, true)).len() > 0
    ||| latest(given(flags, "on"@, false)).len() > 0
    ||| latest(given(flags, "on"@, true)).len() > 0
}

/// The terms of a kind, those wanted and those excluded.
pub open spec fn head_of(terms: Seq<Term>, hashtag: bool) -> Head {
    Head {
        terms: crate::text::join(picked(terms, hashtag, false), " "@),
        excluded_terms: crate::text::join(picked(terms, hashtag, true), " "@),
        is_hashtag: hashtag,
    }
}

/// A search for terms of a kind, if there are any.
pub open spec fn heads_of(terms: Seq<Term>, hashtag: bool) -> Seq<Head> {
    let head = head_of(terms, hashtag);
    if head.terms.len() > 0 || head.excluded_terms.len() > 0 {
        seq![head]
    } else {
        Seq::empty()
    }
}

/// The searches for terms under flags: one for plain terms, one for hashtags. Where there are
/// neither, flags alone make one search without terms.
pub open spec fn heads(terms: Seq<Term>, flags: Seq<Flag>) -> Seq<Head> {
    let searched = heads_of(terms, false) + heads_of(terms, true);
    if searched.len() == 0 && filters_anything(flags) {
        seq![Head { terms: Seq::empty(), excluded_terms: Seq::empty(), is_hashtag: false }]
    } else {
        searched
    }
}

/// Whether a search is for terms, under flags, in a time zone.
pub open spec fn is_search(p: SearchParams, head: Head, flags: Seq<Flag>, offset: int) -> bool {
    &&& p.terms@ == head.terms
    &&& p.excluded_terms@ == head.excluded_terms
    &&& p.is_hashtag == head.is_hashtag
    &&& crate::text::views(p.in_channels@) == given(flags, "in"@, false)
    &&& crate::text::views(p.excluded_channels@) == given(flags, "in"@, true)
    &&& crate::text::views(p.from_users@) == given(flags, "from"@, false)
    &&& crate::text::views(p.excluded_users@) == given(flags, "from"@, true)
    &&& crate::text::views(p.extensions@) == given(flags, "ext"@, false)
    &&& crate::text::views(p.excluded_extensions@) == given(flags, "ext"@, true)
    &&& p.after_date@ == latest(given(flags, "after"@, false))
    &&& p.excluded_after_date@ == latest(given(flags, "after"@, true))
    &&& p.before_date@ == latest(given(flags, "before"@, false))
    &&& p.excluded_before_date@ == latest(given(flags, "before"@, true))
    &&& p.on_date@ == latest(given(flags, "on"@, false))
    &&& p.excluded_date@ == latest(given(flags, "on"@, true))
    &&& p.time_zone_offset == offset
    &&& !p.or_terms
    &&& !p.include_deleted_channels
    &&& !p.search_without_user_id
    &&& p.modifier@.len() == 0
}

/// Whether searches are those for terms under flags, in their order.
pub open spec fn are_searches(
    list: Seq<SearchParams>,
    terms: Seq<Term>,
    flags: Seq<Flag>,
    offset: int,
) -> bool {
    &&& list.len() == heads(terms, flags).len()
    &&& forall|i: int|
        0 <= i < list.len() ==> is_search(#[trigger] list[i], heads(terms, flags)[i], flags, offset)
}

/// A text gives at most two searches.
pub proof fn at_most_two_searches(terms: Seq<Term>, flags: Seq<Flag>)
    ensures
        heads(terms, flags).len() <= 2,
{
}

proof fn filter_names_differ()
    ensures
        forall|i: int, j: int|
            0 <= i < j < 6 ==> #[trigger] filter_names()[i] != #[trigger] filter_names()[j],
        forall|i: int| 0 <= i < 6 ==> filter_name(#[trigger] filter_names()[i]) == filter_names()[i],
{
    reveal_strlit("in");
    reveal_strlit("from");
    reveal_strlit("ext");
    reveal_strlit("after");
    reveal_strlit("before");
    reveal_strlit("on");
    reveal_strlit("channel");
    assert("in"@[0] != "on"@[0]);
    let lengths = filter_names().map_values(|n: Seq<char>| n.len());
    assert(lengths =~= seq![2nat, 4, 3, 5, 6, 2]);
    assert forall|i: int, j: int| 0 <= i < j < 6 implies #[trigger] filter_names()[i]
        != #[trigger] filter_names()[j] by {
        assert(lengths[i] == filter_names()[i].len() && lengths[j] == filter_names()[j].len());
    }
}

spec fn filter_names() -> Seq<Seq<char>> {
    seq!["in"@, "from"@, "ext"@, "after"@, "before"@, "on"@]
}

proof fn given_one_more(flags: Seq<Flag>, flag: Flag, filter: Seq<char>, exclude: bool)
    ensures
        given(flags.push(flag), filter, exclude) == if filter_name(flag.name) == filter
            && flag.exclude == exclude {
            given(flags, filter, exclude).push(flag.value)
        } else {
            given(flags, filter, exclude)
        },
{
    assert(flags.push(flag).drop_last() == flags);
}

struct Filters {
    in_channels: StringArray,
    excluded_channels: StringArray,
    from_users: StringArray,
    excluded_users: StringArray,
    after_date: String,
    excluded_after_date: String,
    before_date: String,
    excluded_before_date: String,
    on_date: String,
    excluded_date: String,
    extensions: StringArray,
    excluded_extensions: StringArray,
}

/// A list of strings and the texts that are added to it.
fn add_text(list: &mut Vec<String>, text: &str)
    ensures
        crate::text::views(final(list)@) == crate::text::views(old(list)@).push(text@),
{
    let ghost before = list@;
    list.push(text.to_string());
    assert(crate::text::views(list@) == crate::text::views(before).push(text@));
}

impl Filters {
    spec fn are(&self, flags: Seq<Flag>) -> bool {
        &&& crate::text::views(self.in_channels@) == given(flags, "in"@, false)
        &&& crate::text::views(self.excluded_channels@) == given(flags, "in"@, true)
        &&& crate::text::views(self.from_users@) == given(flags, "from"@, false)
        &&& crate::text::views(self.excluded_users@) == given(flags, "from"@, true)
        &&& crate::text::views(self.extensions@) == given(flags, "ext"@, false)
        &&& crate::text::views(self.excluded_extensions@) == given(flags, "ext"@, true)
        &&& self.after_date@ == latest(given(flags, "after"@, false))
        &&& self.excluded_after_date@ == latest(given(flags, "after"@, true))
        &&& self.before_date@ == latest(given(flags, "before"@, false))
        &&& self.excluded_before_date@ == latest(given(flags, "before"@, true))
        &&& self.on_date@ == latest(given(flags, "on"@, false))
        &&& self.excluded_date@ == latest(given(flags, "on"@, true))
    }

    fn none() -> (r: Self)
        ensures
            r.are(Seq::empty()),
    {
        let r: Filters = Filters {
            in_channels: Vec::new(),
            excluded_channels: Vec::new(),
            from_users: Vec::new(),
            excluded_users: Vec::new(),
            after_date: String::new(),
            excluded_after_date: String::new(),
            before_date: String::new(),
            excluded_before_date: String::new(),
            on_date: String::new(),
            excluded_date: String::new(),
            extensions: Vec::new(),
            excluded_extensions: Vec::new(),
        };
        assert(crate::text::views(r.in_channels@) =~= Seq::<Seq<char>>::empty());
        assert(crate::text::views(r.excluded_channels@) =~= Seq::<Seq<char>>::empty());
        assert(crate::text::views(r.from_users@) =~= Seq::<Seq<char>>::empty());
        assert(crate::text::views(r.excluded_users@) =~= Seq::<Seq<char>>::empty());
        assert(crate::text::views(r.extensions@) =~= Seq::<Seq<char>>::empty());
        assert(crate::text::views(r.excluded_extensions@) =~= Seq::<Seq<char>>::empty());
        assert(r.after_date@ =~= Seq::<char>::empty());
        r
    }

    /// Takes up a flag. Lists grow; of several dates the last one counts.
    fn apply(&mut self, flag: &SearchFlag<'_>, Ghost(flags): Ghost<Seq<Flag>>)
        requires
            old(self).are(flags),
        ensures
            final(self).are(flags.push(flag@)),
    {
        proof {
            filter_names_differ();
            let names = filter_names();
            assert forall|i: int, exclude: bool| 0 <= i < 6 implies #[trigger] given(
                flags.push(flag@),
                names[i],
                exclude,
            ) == (if filter_name(flag@.name) == names[i] && flag@.exclude == exclude {
                given(flags, names[i], exclude).push(flag@.value)
            } else {
                given(flags, names[i], exclude)
            }) by {
                given_one_more(flags, flag@, names[i], exclude);
            }
            assert(names[0] == "in"@);
            assert(names[1] == "from"@);
            assert(names[2] == "ext"@);
            assert(names[3] == "after"@);
            assert(names[4] == "before"@);
            assert(names[5] == "on"@);
        }
        let name: &str = flag.name;
        let value: &str = flag.value;
        if same(name, "in") || same(name, "channel") {
            if flag.exclude {
                add_text(&mut self.excluded_channels, value);
            } else {
                add_text(&mut self.in_channels, value);
            }
        } else if same(name, "from") {
            if flag.exclude {
                add_text(&mut self.excluded_users, value);
            } else {
                add_text(&mut self.from_users, value);
            }
        } else if same(name, "ext") {
            if flag.exclude {
                add_text(&mut self.excluded_extensions, value);
            } else {
                add_text(&mut self.extensions, value);
            }
        } else if same(name, "after") {
            if flag.exclude {
                self.excluded_after_date = value.to_string();
            } else {
                self.after_date = value.to_string();
            }
        } else if same(name, "before") {
            if flag.exclude {
                self.excluded_before_date = value.to_string();
            } else {
                self.before_date = value.to_string();
            }
        } else if same(name, "on") {
            if flag.exclude {
                self.excluded_date = value.to_string();
            } else {
                self.on_date = value.to_string();
            }
        }
    }

    fn any(&self, Ghost(flags): Ghost<Seq<Flag>>) -> (r: bool)
        requires
            self.are(flags),
        ensures
            r == filters_anything(flags),
    {
        self.in_channels.len() > 0 || self.excluded_channels.len() > 0 || self.from_users.len() > 0
            || self.excluded_users.len() > 0 || self.extensions.len() > 0
            || self.excluded_extensions.len() > 0 || !self.after_date.as_str().is_empty()
            || !self.excluded_after_date.as_str().is_empty() || !self.before_date.as_str().is_empty()
            || !self.excluded_before_date.as_str().is_empty() || !self.on_date.as_str().is_empty()
            || !self.excluded_date.as_str().is_empty()
    }

    fn build(
        &self,
        terms: String,
        excluded_terms: String,
        is_hashtag: bool,
        time_zone_offset: i64,
        Ghost(flags): Ghost<Seq<Flag>>,
    ) -> (r: SearchParams)
        requires
            self.are(flags),
        ensures
            is_search(
                r,
                (Head { terms: terms@, excluded_terms: excluded_terms@, is_hashtag }),
                flags,
                time_zone_offset as int,
            ),
    {
        SearchParams {
            terms,
            excluded_terms,
            is_hashtag,
            in_channels: clone_strings(self.in_channels.as_slice()),
            excluded_channels: clone_strings(self.excluded_channels.as_slice()),
            from_users: clone_strings(self.from_users.as_slice()),
            excluded_users: clone_strings(self.excluded_users.as_slice()),
            after_date: self.after_date.clone(),
            excluded_after_date: self.excluded_after_date.clone(),
            before_date: self.before_date.clone(),
            excluded_before_date: self.excluded_before_date.clone(),
            extensions: clone_strings(self.extensions.as_slice()),
            excluded_extensions: clone_strings(self.excluded_extensions.as_slice()),
            on_date: self.on_date.clone(),
            excluded_date: self.excluded_date.clone(),
            time_zone_offset,
            or_terms: false,
            include_deleted_channels: false,
            search_without_user_id: false,
            modifier: String::new(),
        }
    }
}

/// The terms that are hashtags or not, excluded or not, with a space between them.
fn joined(words: &[SearchWord], hashtag: bool, exclude: bool) -> (r: String)
    ensures
        r@ == crate::text::join(picked(term_models(words@), hashtag, exclude), " "@),
{
    let ghost all = term_models(words@);
    let mut parts: Vec<String> = Vec::new();
    let mut i: usize = 0;
    assert(all.take(0) == Seq::<Term>::empty());
    assert(crate::text::views(parts@) == Seq::<Seq<char>>::empty());
    while i < words.len()
        invariant
            all == term_models(words@),
            i <= words@.len(),
            crate::text::views(parts@) == picked(all.take(i as int), hashtag, exclude),
        decreases words@.len() - i,
    {
        assert(all.take(i + 1).drop_last() == all.take(i as int));
        assert(all.take(i + 1).last() == words@[i as int]@);
        if is_valid_hashtag(words[i].value.as_str()) == hashtag && words[i].exclude == exclude {
            add_text(&mut parts, words[i].value.as_str());
        }
        i = i + 1;
    }
    assert(all.take(i as int) == all);
    join_strings(parts.as_slice(), " ")
}

/// The searches for terms under flags.
pub fn build_search_params(
    words: &[SearchWord],
    flags: &[SearchFlag<'_>],
    time_zone_offset: i64,
) -> (list: Vec<SearchParams>)
    ensures
        are_searches(
            list@,
            term_models(words@),
            flag_models(flags@),
            time_zone_offset as int,
        ),
{
    let ghost terms = term_models(words@);
    let ghost all = flag_models(flags@);
    let hashtag_terms: String = joined(words, true, false);
    let excluded_hashtag_terms: String = joined(words, true, true);
    let plain_terms: String = joined(words, false, false);
    let excluded_plain_terms: String = joined(words, false, true);
    let mut filters: Filters = Filters::none();
    let mut i: usize = 0;
    assert(all.take(0) == Seq::<Flag>::empty());
    while i < flags.len()
        invariant
            all == flag_models(flags@),
            i <= flags@.len(),
            filters.are(all.take(i as int)),
        decreases flags@.len() - i,
    {
        filters.apply(&flags[i], Ghost(all.take(i as int)));
        assert(all.take(i as int).push(flags@[i as int]@) == all.take(i + 1));
        i = i + 1;
    }
    assert(all.take(i as int) == all);
    let mut list: Vec<SearchParams> = Vec::new();
    if !plain_terms.as_str().is_empty() || !excluded_plain_terms.as_str().is_empty() {
        list.push(
            filters.build(plain_terms, excluded_plain_terms, false, time_zone_offset, Ghost(all)),
        );
    }
    if !hashtag_terms.as_str().is_empty() || !excluded_hashtag_terms.as_str().is_empty() {
        list.push(
            filters.build(hashtag_terms, excluded_hashtag_terms, true, time_zone_offset, Ghost(all)),
        );
    }
    if list.len() == 0 && filters.any(Ghost(all)) {
        list.push(filters.build(String::new(), String::new(), false, time_zone_offset, Ghost(all)));
        assert(list@[0].terms@ =~= Seq::<char>::empty());
        assert(list@[0].excluded_terms@ =~= Seq::<char>::empty());
    }
    list
}

/// Takes apart what a user typed into the search box.
pub fn parse_search_params(text: &str, time_zone_offset: i64) -> (list: Vec<SearchParams>)
    ensures
        are_searches(
            list@,
            terms_from(words_of(text@), 0),
            flags_from(words_of(text@), 0),
            time_zone_offset as int,
        ),
{
    let split: Vec<&str> = split_words(text);
    let (words, flags) = parse_search_flags(split.as_slice());
    build_search_params(words.as_slice(), flags.as_slice(), time_zone_offset)
}

/// Searches that go together agree on whether deleted channels are searched.
pub open spec fn list_fault(list: Seq<SearchParams>) -> Option<crate::utils::ErrorModel> {
    if forall|i: int|
        0 <= i < list.len() ==> (#[trigger] list[i]).include_deleted_channels
            == list[0].include_deleted_channels {
        None
    } else {
        Some(
            crate::utils::plain_error(
                "IsSearchParamsListValid"@,
                "model.search_params_list.is_valid.include_deleted_channels.app_error"@,
                ""@,
                500,
            ),
        )
    }
}

/// Whether searches go together.
pub fn is_search_params_list_valid(params_list: &[SearchParams]) -> (r: AppResult)
    ensures
        crate::utils::fault_of(r) == list_fault(params_list@),
{
    let mut i: usize = 0;
    while i < params_list.len()
        invariant
            i <= params_list@.len(),
            forall|j: int|
                0 <= j < i ==> (#[trigger] params_list@[j]).include_deleted_channels
                    == params_list@[0].include_deleted_channels,
        decreases params_list@.len() - i,
    {
        if params_list[i].include_deleted_channels != params_list[0].include_deleted_channels {
            return Err(
                AppError::boxed(
                    "IsSearchParamsListValid",
                    "model.search_params_list.is_valid.include_deleted_channels.app_error",
                    None,
                    "",
                    500,
                ),
            );
        }
        i = i + 1;
    }
    Ok(())
}

// ---------------------------------------------------------------------------------------------
// Dates
// ---------------------------------------------------------------------------------------------

/// The day of a date that a user typed, with or without zeros in front of months and days.
pub open spec fn typed_day(value: Seq<char>) -> Option<int> {
    crate::calendar::day_in(crate::utils::padded_date(value))
}

/// A number of milliseconds, or zero.
pub open spec fn or_zero(millis: Option<int>) -> int {
    match millis {
        Some(m) => m,
        None => 0,
    }
}

/// What comes after a date: the instants from the start of the next day on. What is no date counts
/// as today.
pub open spec fn after_bound(value: Seq<char>, offset: int, today: int) -> int {
    let day = match typed_day(value) {
        Some(n) => n,
        None => today,
    };
    if MIN_DAY <= day < MAX_DAY {
        or_zero(crate::calendar::day_start(day + 1, offset))
    } else {
        0
    }
}

/// What comes before a date: the instants up to the end of the day before. What is no date counts
/// as zero.
pub open spec fn before_bound(value: Seq<char>, offset: int) -> int {
    match typed_day(value) {
        Some(day) => if MIN_DAY < day {
            or_zero(crate::calendar::day_end(day - 1, offset))
        } else {
            0
        },
        None => 0,
    }
}

/// The first and last instant of a date; zeros for what is no date.
pub open spec fn on_bounds(value: Seq<char>, offset: int) -> (int, int) {
    match typed_day(value) {
        Some(day) => match (
            crate::calendar::day_start(day, offset),
            crate::calendar::day_end(day, offset),
        ) {
            (Some(start), Some(end)) => (start, end),
            _ => (0, 0),
        },
        None => (0, 0),
    }
}

fn or_zero_of(millis: Option<i64>) -> (r: i64)
    ensures
        r == or_zero(
            match millis {
                Some(m) => Some(m as int),
                None => None,
            },
        ),
{
    match millis {
        Some(m) => m,
        None => 0,
    }
}

fn after_millis(value: &str, offset: i64, today: i32) -> (r: i64)
    ensures
        r == after_bound(value@, offset as int, today as int),
{
    let day: i32 = match read_day(pad_date_string_zeros(value).as_str()) {
        Some(n) => n,
        None => today,
    };
    if MIN_DAY <= day && day < MAX_DAY {
        or_zero_of(start_of_day(day + 1, offset))
    } else {
        0
    }
}

fn before_millis(value: &str, offset: i64) -> (r: i64)
    ensures
        r == before_bound(value@, offset as int),
{
    match read_day(pad_date_string_zeros(value).as_str()) {
        Some(day) => {
            if MIN_DAY < day {
                or_zero_of(end_of_day(day - 1, offset))
            } else {
                0
            }
        },
        None => 0,
    }
}

fn on_millis(value: &str, offset: i64) -> (r: (i64, i64))
    ensures
        (r.0 as int, r.1 as int) == on_bounds(value@, offset as int),
{
    match read_day(pad_date_string_zeros(value).as_str()) {
        Some(day) => match (start_of_day(day, offset), end_of_day(day, offset)) {
            (Some(start), Some(end)) => (start, end),
            _ => (0, 0),
        },
        None => (0, 0),
    }
}

impl SearchParams {
    /// The start of the day after the date, where today is the day of a number.
    pub fn get_after_date_millis_on(&self, today: i32) -> (r: i64)
        ensures
            r == after_bound(self.after_date@, self.time_zone_offset as int, today as int),
    {
        after_millis(self.after_date.as_str(), self.time_zone_offset, today)
    }

    /// The start of the day after the excluded date, where today is the day of a number.
    pub fn get_excluded_after_date_millis_on(&self, today: i32) -> (r: i64)
        ensures
            r == after_bound(self.excluded_after_date@, self.time_zone_offset as int, today as int),
    {
        after_millis(self.excluded_after_date.as_str(), self.time_zone_offset, today)
    }

    /// The start of the day after the date. A date that cannot be read counts as today, by the
    /// clock and in the zone of the machine.
    pub fn get_after_date_millis(&self) -> (r: i64)
        ensures
            exists|today: i32|
                MIN_DAY - 1 <= today <= MAX_DAY + 1 && r == #[trigger] after_bound(
                    self.after_date@,
                    self.time_zone_offset as int,
                    today as int,
                ),
            typed_day(self.after_date@) is Some ==> r == after_bound(
                self.after_date@,
                self.time_zone_offset as int,
                0,
            ),
    {
        let today: i32 = local_today();
        self.get_after_date_millis_on(today)
    }

    /// The start of the day after the excluded date. A date that cannot be read counts as today, by
    /// the clock and in the zone of the machine.
    pub fn get_excluded_after_date_millis(&self) -> (r: i64)
        ensures
            exists|today: i32|
                MIN_DAY - 1 <= today <= MAX_DAY + 1 && r == #[trigger] after_bound(
                    self.excluded_after_date@,
                    self.time_zone_offset as int,
                    today as int,
                ),
            typed_day(self.excluded_after_date@) is Some ==> r == after_bound(
                self.excluded_after_date@,
                self.time_zone_offset as int,
                0,
            ),
    {
        let today: i32 = local_today();
        self.get_excluded_after_date_millis_on(today)
    }

    /// The end of the day before the date; zero where it cannot be read.
    pub fn get_before_date_millis(&self) -> (r: i64)
        ensures
            r == before_bound(self.before_date@, self.time_zone_offset as int),
    {
        before_millis(self.before_date.as_str(), self.time_zone_offset)
    }

    /// The end of the day before the excluded date; zero where it cannot be read.
    pub fn get_excluded_before_date_millis(&self) -> (r: i64)
        ensures
            r == before_bound(self.excluded_before_date@, self.time_zone_offset as int),
    {
        before_millis(self.excluded_before_date.as_str(), self.time_zone_offset)
    }

    /// The ends of the day; zeros where it cannot be read.
    pub fn get_on_date_millis(&self) -> (r: (i64, i64))
        ensures
            (r.0 as int, r.1 as int) == on_bounds(self.on_date@, self.time_zone_offset as int),
    {
        on_millis(self.on_date.as_str(), self.time_zone_offset)
    }

    /// The ends of the excluded day; zeros where it cannot be read.
    pub fn get_excluded_date_millis(&self) -> (r: (i64, i64))
        ensures
            (r.0 as int, r.1 as int) == on_bounds(self.excluded_date@, self.time_zone_offset as int),
    {
        on_millis(self.excluded_date.as_str(), self.time_zone_offset)
    }
}

/// The instants before, on and after a date follow each other without a gap, where numbers of
/// milliseconds hold them.
pub proof fn days_meet(value: Seq<char>, offset: int, today: int)
    requires
        typed_day(value) is Some,
        MIN_DAY < typed_day(value)->0 < MAX_DAY,
        crate::calendar::day_end(typed_day(value)->0 - 1, offset) is Some,
        crate::calendar::day_start(typed_day(value)->0 + 1, offset) is Some,
    ensures
        before_bound(value, offset) + 1 == on_bounds(value, offset).0,
        on_bounds(value, offset).1 + 1 == after_bound(value, offset, today),
        on_bounds(value, offset).1 - on_bounds(value, offset).0 == 86399999,
{
}

// ---------------------------------------------------------------------------------------------
// Trimming
// ---------------------------------------------------------------------------------------------

proof fn dropped_start(s: Seq<char>, drop: spec_fn(char) -> bool)
    ensures
        ({
            let r = crate::pattern::drop_start(s, drop);
            &&& r.len() <= s.len()
            &&& r == s.skip(s.len() - r.len())
            &&& r.len() == 0 || !drop(r[0])
        }),
    decreases s.len(),
{
    if s.len() > 0 && drop(s[0]) {
        dropped_start(s.skip(1), drop);
        let r = crate::pattern::drop_start(s, drop);
        assert(r =~= s.skip(s.len() - r.len()));
    } else {
        assert(s.skip(0) =~= s);
    }
}

proof fn dropped_end(s: Seq<char>, drop: spec_fn(char) -> bool)
    ensures
        ({
            let r = crate::pattern::drop_end(s, drop);
            &&& r.len() <= s.len()
            &&& r == s.take(r.len() as int)
            &&& r.len() == 0 || !drop(r.last())
        }),
    decreases s.len(),
{
    if s.len() > 0 && drop(s.last()) {
        dropped_end(s.drop_last(), drop);
        let r = crate::pattern::drop_end(s, drop);
        assert(r =~= s.take(r.len() as int));
    } else {
        assert(s.take(s.len() as int) =~= s);
    }
}

/// A term that was trimmed stays as it is when it is trimmed again.
pub proof fn trimming_is_idempotent(word: Seq<char>)
    ensures
        trimmed_term(trimmed_term(word)) == trimmed_term(word),
{
    let at_start = |c: char| crate::pattern::strips_at_start(c);
    let at_end = |c: char| crate::pattern::strips_at_end(c);
    let hash = |c: char| c == '#';
    let headless = crate::pattern::drop_start(word, at_start);
    dropped_start(word, at_start);
    let bare = crate::pattern::drop_end(headless, at_end);
    dropped_end(headless, at_end);
    let tail = crate::pattern::drop_start(bare, hash);
    dropped_start(bare, hash);
    let t = crate::pattern::hashes_collapsed(bare);
    if bare.len() > 0 {
        assert(bare[0] == headless[0]);
        assert(!at_start(bare[0]));
        assert(!at_end(bare.last()));
        assert(at_end('#'));
        if bare.len() >= 2 && bare[0] == '#' && bare[1] == '#' {
            if tail.len() == 0 {
                all_dropped(bare, hash);
                assert(hash(bare[bare.len() - 1]));
                assert(false);
            }
            assert(t == seq!['#'] + tail);
            assert(t.last() == tail.last());
            assert(tail.last() == bare.last());
            assert(t[1] == tail[0]);
        }
        assert(!at_start(t[0]));
        assert(!at_end(t.last()));
    }
}

proof fn all_dropped(s: Seq<char>, drop: spec_fn(char) -> bool)
    requires
        crate::pattern::drop_start(s, drop).len() == 0,
    ensures
        forall|i: int| 0 <= i < s.len() ==> drop(#[trigger] s[i]),
    decreases s.len(),
{
    if s.len() > 0 {
        all_dropped(s.skip(1), drop);
        assert forall|i: int| 0 <= i < s.len() implies drop(#[trigger] s[i]) by {
            if i > 0 {
                assert(s[i] == s.skip(1)[i - 1]);
            }
        }
    }
}

/// Searches go together exactly if any two of them do.
pub proof fn searches_agree_in_pairs(list: Seq<SearchParams>)
    ensures
        (list_fault(list) is None) == (forall|i: int, j: int|
            0 <= i < list.len() && 0 <= j < list.len() ==> (
            #[trigger] list[i]).include_deleted_channels == (
            #[trigger] list[j]).include_deleted_channels),
        list_fault(list) is Some ==> crate::utils::reports(
            list_fault(list)->0,
            "IsSearchParamsListValid"@,
            "model.search_params_list.is_valid.include_deleted_channels.app_error"@,
            ""@,
            500,
        ),
{
    if list_fault(list) is None {
        assert forall|i: int, j: int| 0 <= i < list.len() && 0 <= j < list.len() implies (
        #[trigger] list[i]).include_deleted_channels == (#[trigger] list[j]).include_deleted_channels by {}
    }
}

} // verus!
