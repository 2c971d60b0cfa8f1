//! Character-level text routines.
//!
//! A string is modelled by the sequence of its characters; every routine below states its result
//! over that sequence, so callers never reason about UTF-8 except where a limit counts bytes.

use vstd::prelude::*;
use vstd::string::StrSliceExecFns;
use vstd::string::StringExecFns;

verus! {

/// `String::push` appends one character at the end.
pub assume_specification[ String::push ](s: &mut String, c: char)
    ensures
        final(s)@ == old(s)@.push(c),
;

/// `str::eq` holds exactly when the two strings have the same characters.
pub assume_specification[ <str as PartialEq>::eq ](a: &str, b: &str) -> (r: bool)
    ensures
        r == (a@ == b@),
;

/// The character sequences of a sequence of strings.
pub open spec fn views<T: View<V = Seq<char>>>(parts: Seq<T>) -> Seq<Seq<char>> {
    parts.map_values(|t: T| t@)
}

/// The character sequence of an optional string.
pub open spec fn opt_view(s: Option<String>) -> Option<Seq<char>> {
    match s {
        Some(t) => Some(t@),
        None => None,
    }
}

/// The number of bytes of the UTF-8 encoding of `s`.
pub open spec fn utf8_len(s: Seq<char>) -> nat {
    vstd::utf8::encode_utf8(s).len()
}

/// The number of bytes that a string takes in UTF-8.
pub fn byte_len(s: &str) -> (n: usize)
    ensures
        n == utf8_len(s@),
{
    s.as_bytes().len()
}

/// Whether two strings are the same text.
pub fn same(a: &str, b: &str) -> (r: bool)
    ensures
        r == (a@ == b@),
{
    *a == *b
}

/// The characters of a string.
pub fn to_chars(s: &str) -> (v: Vec<char>)
    ensures
        v@ == s@,
{
    let mut v: Vec<char> = Vec::new();
    for c in it: s.chars()
        invariant
            v@ == it.seq().take(it.index() as int),
            it.seq() == s@,
    {
        v.push(c);
    }
    v
}

/// The string made of the characters `from..to` of `chars`.
pub fn from_chars(chars: &[char], from: usize, to: usize) -> (s: String)
    requires
        from <= to <= chars@.len(),
    ensures
        s@ == chars@.subrange(from as int, to as int),
{
    let mut s: String = String::new();
    let mut i: usize = from;
    while i < to
        invariant
            from <= i <= to <= chars@.len(),
            s@ == chars@.subrange(from as int, i as int),
        decreases to - i,
    {
        s.push(chars[i]);
        i = i + 1;
    }
    s
}

/// Two strings, one after the other.
pub fn cat(a: &str, b: &str) -> (s: String)
    ensures
        s@ == a@ + b@,
{
    let mut s: String = a.to_owned();
    s.append(b);
    s
}

/// Three strings, one after the other.
pub fn cat3(a: &str, b: &str, c: &str) -> (s: String)
    ensures
        s@ == a@ + b@ + c@,
{
    let mut s: String = a.to_owned();
    s.append(b);
    s.append(c);
    s
}

/// Four strings, one after the other.
pub fn cat4(a: &str, b: &str, c: &str, d: &str) -> (s: String)
    ensures
        s@ == a@ + b@ + c@ + d@,
{
    let mut s: String = a.to_owned();
    s.append(b);
    s.append(c);
    s.append(d);
    s
}

/// An owned copy of each string of a list.
pub fn clone_strings(parts: &[String]) -> (v: Vec<String>)
    ensures
        v@ == parts@,
{
    let mut v: Vec<String> = Vec::new();
    let mut i: usize = 0;
    while i < parts.len()
        invariant
            i <= parts@.len(),
            v@ == parts@.take(i as int),
        decreases parts@.len() - i,
    {
        v.push(parts[i].clone());
        i = i + 1;
    }
    assert(parts@.take(i as int) == parts@);
    v
}

/// An owned copy of an optional list of strings.
pub fn clone_opt_strings(parts: &Option<Vec<String>>) -> (v: Option<Vec<String>>)
    ensures
        opt_seq(v) == opt_seq(*parts),
{
    match parts {
        Some(p) => Some(clone_strings(p.as_slice())),
        None => None,
    }
}

/// The sequence of an optional list.
pub open spec fn opt_seq<T>(v: Option<Vec<T>>) -> Option<Seq<T>> {
    match v {
        Some(x) => Some(x@),
        None => None,
    }
}

/// The strings of a list without repetitions: each where it first occurs.
pub open spec fn firsts(parts: Seq<Seq<char>>) -> Seq<Seq<char>>
    decreases parts.len(),
{
    if parts.len() == 0 {
        parts
    } else {
        let before = firsts(parts.drop_last());
        if before.contains(parts.last()) {
            before
        } else {
            before.push(parts.last())
        }
    }
}

/// The first occurrences hold the same strings as the list, each once.
pub proof fn firsts_are_the_distinct_strings(parts: Seq<Seq<char>>)
    ensures
        firsts(parts).no_duplicates(),
        forall|s: Seq<char>| #[trigger] firsts(parts).contains(s) <==> parts.contains(s),
        firsts(parts).len() <= parts.len(),
    decreases parts.len(),
{
    if parts.len() > 0 {
        let rest = parts.drop_last();
        firsts_are_the_distinct_strings(rest);
        let before = firsts(rest);
        let all = firsts(parts);
        assert forall|s: Seq<char>| #[trigger] all.contains(s) <==> parts.contains(s) by {
            if parts.contains(s) {
                let i = choose|i: int| 0 <= i < parts.len() && parts[i] == s;
                if i < rest.len() {
                    assert(rest[i] == s);
                    assert(rest.contains(s));
                    assert(before.contains(s));
                }
                if before.contains(s) {
                    let j = choose|j: int| 0 <= j < before.len() && before[j] == s;
                    assert(all[j] == s);
                } else {
                    assert(all[before.len() as int] == s);
                }
            }
            if all.contains(s) {
                let j = choose|j: int| 0 <= j < all.len() && all[j] == s;
                if j < before.len() {
                    assert(before[j] == s);
                    assert(before.contains(s));
                    assert(rest.contains(s));
                    let i = choose|i: int| 0 <= i < rest.len() && rest[i] == s;
                    assert(parts[i] == s);
                } else {
                    assert(parts[parts.len() - 1] == s);
                }
            }
        }
        assert(all.no_duplicates()) by {
            assert forall|i: int, j: int| 0 <= i < all.len() && 0 <= j < all.len() && i != j implies all[i]
                != all[j] by {
                if i < before.len() && j < before.len() {
                    assert(before[i] != before[j]);
                } else if i < before.len() {
                    assert(before.contains(before[i]));
                } else if j < before.len() {
                    assert(before.contains(before[j]));
                }
            }
        }
    }
}

/// A list without repetitions stays as it is.
pub proof fn distinct_strings_stay(parts: Seq<Seq<char>>)
    requires
        parts.no_duplicates(),
    ensures
        firsts(parts) == parts,
    decreases parts.len(),
{
    if parts.len() > 0 {
        let rest = parts.drop_last();
        assert forall|i: int, j: int| 0 <= i < rest.len() && 0 <= j < rest.len() && i != j implies rest[i]
            != rest[j] by {
            assert(parts[i] != parts[j]);
        }
        distinct_strings_stay(rest);
        assert(!rest.contains(parts.last())) by {
            if rest.contains(parts.last()) {
                let i = choose|i: int| 0 <= i < rest.len() && rest[i] == parts.last();
                assert(parts[i] != parts[parts.len() - 1]);
            }
        }
        assert(parts == rest.push(parts.last()));
    }
}

/// Whether a list of strings holds a string.
pub fn holds(parts: &[String], s: &str) -> (r: bool)
    ensures
        r == views(parts@).contains(s@),
{
    let mut i: usize = 0;
    while i < parts.len()
        invariant
            i <= parts@.len(),
            forall|j: int| 0 <= j < i ==> views(parts@)[j] != s@,
        decreases parts@.len() - i,
    {
        assert(views(parts@)[i as int] == parts@[i as int]@);
        if same(parts[i].as_str(), s) {
            assert(views(parts@).contains(s@));
            return true;
        }
        i = i + 1;
    }
    false
}

/// Removes repetitions from a list of strings: the first occurrence stays.
pub fn remove_duplicates(parts: &[String]) -> (r: Vec<String>)
    ensures
        views(r@) == firsts(views(parts@)),
{
    let mut r: Vec<String> = Vec::new();
    let mut i: usize = 0;
    let ghost all = views(parts@);
    assert(all.take(0) == Seq::<Seq<char>>::empty());
    assert(views(r@) == Seq::<Seq<char>>::empty());
    while i < parts.len()
        invariant
            all == views(parts@),
            i <= parts@.len(),
            views(r@) == firsts(all.take(i as int)),
        decreases parts@.len() - i,
    {
        assert(all.take(i + 1).drop_last() == all.take(i as int));
        assert(all[i as int] == parts@[i as int]@);
        if !holds(r.as_slice(), parts[i].as_str()) {
            let ghost before = r@;
            r.push(parts[i].clone());
            assert(views(r@) == views(before).push(parts@[i as int]@));
        }
        i = i + 1;
    }
    assert(all.take(i as int) == all);
    r
}

// ---------------------------------------------------------------------------------------------
// White space
// ---------------------------------------------------------------------------------------------

/// The Unicode property White_Space.
pub open spec fn is_space(c: char) -> bool {
    ||| '\u{9}' <= c <= '\u{d}'
    ||| c == ' '
    ||| c == '\u{85}'
    ||| c == '\u{a0}'
    ||| c == '\u{1680}'
    ||| '\u{2000}' <= c <= '\u{200a}'
    ||| c == '\u{2028}'
    ||| c == '\u{2029}'
    ||| c == '\u{202f}'
    ||| c == '\u{205f}'
    ||| c == '\u{3000}'
}

/// Whether a character is white space.
pub fn space_char(c: char) -> (r: bool)
    ensures
        r == is_space(c),
{
    ('\u{9}' <= c && c <= '\u{d}') || c == ' ' || c == '\u{85}' || c == '\u{a0}' || c == '\u{1680}'
        || ('\u{2000}' <= c && c <= '\u{200a}') || c == '\u{2028}' || c == '\u{2029}'
        || c == '\u{202f}' || c == '\u{205f}' || c == '\u{3000}'
}

/// The words of a text: its maximal runs of characters that are not white space, in order.
pub open spec fn fields(s: Seq<char>) -> Seq<Seq<char>>
    decreases s.len(),
{
    if s.len() == 0 {
        Seq::empty()
    } else if is_space(s.last()) {
        fields(s.drop_last())
    } else if s.len() == 1 || is_space(s[s.len() - 2]) {
        fields(s.drop_last()).push(seq![s.last()])
    } else {
        let before = fields(s.drop_last());
        before.drop_last().push(before.last().push(s.last()))
    }
}

/// Whether a text is white space and nothing else.
pub open spec fn all_space(s: Seq<char>) -> bool {
    forall|i: int| 0 <= i < s.len() ==> is_space(#[trigger] s[i])
}

/// Whether a word stands between two positions of a text, with white space alone behind it.
pub open spec fn ends_with_word(s: Seq<char>, word: Seq<char>, from: int, to: int) -> bool {
    0 <= from < to <= s.len() && s.subrange(from, to) == word && all_space(s.skip(to))
}

/// Whether words make up a text but for white space in front of, between and behind them: each
/// stands in the text as it is, none is empty, and they stand there in their order.
pub open spec fn parts_of(s: Seq<char>, words: Seq<Seq<char>>) -> bool
    decreases words.len(),
{
    if words.len() == 0 {
        all_space(s)
    } else {
        exists|from: int, to: int|
            #[trigger] ends_with_word(s, words.last(), from, to) && parts_of(
                s.take(from),
                words.drop_last(),
            )
    }
}

/// The positions of the last word.
proof fn last_word(s: Seq<char>, words: Seq<Seq<char>>) -> (r: (int, int))
    requires
        words.len() > 0,
        parts_of(s, words),
    ensures
        ends_with_word(s, words.last(), r.0, r.1),
        parts_of(s.take(r.0), words.drop_last()),
{
    choose|from: int, to: int|
        #[trigger] ends_with_word(s, words.last(), from, to) && parts_of(
            s.take(from),
            words.drop_last(),
        )
}

proof fn space_behind_parts(s: Seq<char>, words: Seq<Seq<char>>, space: Seq<char>)
    requires
        parts_of(s, words),
        all_space(space),
    ensures
        parts_of(s + space, words),
{
    let whole = s + space;
    if words.len() > 0 {
        let (from, to) = last_word(s, words);
        assert(whole.subrange(from, to) == s.subrange(from, to));
        assert(whole.take(from) == s.take(from));
        assert forall|i: int| 0 <= i < whole.skip(to).len() implies is_space(
            #[trigger] whole.skip(to)[i],
        ) by {
            if i < s.len() - to {
                assert(whole.skip(to)[i] == s.skip(to)[i]);
            } else {
                assert(whole.skip(to)[i] == space[i - (s.len() - to)]);
            }
        }
        assert(ends_with_word(whole, words.last(), from, to));
    }
}

/// The words of two texts, one after the other, make up the two texts, one after the other.
pub proof fn parts_add_up(
    a: Seq<char>,
    a_words: Seq<Seq<char>>,
    b: Seq<char>,
    b_words: Seq<Seq<char>>,
)
    requires
        parts_of(a, a_words),
        parts_of(b, b_words),
    ensures
        parts_of(a + b, a_words + b_words),
    decreases b_words.len(),
{
    if b_words.len() == 0 {
        space_behind_parts(a, a_words, b);
        assert(a_words + b_words == a_words);
    } else {
        let words = a_words + b_words;
        let (from, to) = last_word(b, b_words);
        parts_add_up(a, a_words, b.take(from), b_words.drop_last());
        assert((a + b).take(a.len() + from) == a + b.take(from));
        assert(words.drop_last() == a_words + b_words.drop_last());
        assert((a + b).subrange(a.len() + from, a.len() + to) == b.subrange(from, to));
        assert((a + b).skip(a.len() + to) == b.skip(to));
        assert(ends_with_word(a + b, words.last(), a.len() + from, a.len() + to));
    }
}

/// A text that is not empty is made up of itself.
pub proof fn a_word_is_a_part(word: Seq<char>)
    requires
        word.len() > 0,
    ensures
        parts_of(word, seq![word]),
{
    let words = seq![word];
    assert(word.subrange(0, word.len() as int) == word);
    assert(ends_with_word(word, words.last(), 0, word.len() as int));
    assert(word.take(0).len() == 0);
    assert(parts_of(word.take(0), words.drop_last()));
}

/// None of the words that make up a text is empty.
pub proof fn parts_are_not_empty(s: Seq<char>, words: Seq<Seq<char>>)
    requires
        parts_of(s, words),
    ensures
        forall|i: int| 0 <= i < words.len() ==> #[trigger] words[i].len() > 0,
    decreases words.len(),
{
    if words.len() > 0 {
        let (from, to) = last_word(s, words);
        parts_are_not_empty(s.take(from), words.drop_last());
        assert forall|i: int| 0 <= i < words.len() implies #[trigger] words[i].len() > 0 by {
            if i < words.len() - 1 {
                assert(words[i] == words.drop_last()[i]);
            }
        }
    }
}

/// The words of a text make it up but for white space, and there is no white space in them.
pub proof fn fields_make_up_a_text(s: Seq<char>)
    ensures
        parts_of(s, fields(s)),
        forall|i: int, j: int|
            0 <= i < fields(s).len() && 0 <= j < fields(s)[i].len() ==> !is_space(
                #[trigger] fields(s)[i][j],
            ),
    decreases s.len(),
{
    if s.len() > 0 {
        let n = s.len() as int;
        let before = s.drop_last();
        let words = fields(before);
        fields_make_up_a_text(before);
        if is_space(s.last()) {
            let space = seq![s.last()];
            space_behind_parts(before, words, space);
            assert(before + space == s);
        } else if n == 1 || is_space(s[n - 2]) {
            let now = fields(s);
            assert(now.drop_last() == words);
            assert(s.take(n - 1) == before);
            assert(s.subrange(n - 1, n) == seq![s.last()]);
            assert(ends_with_word(s, now.last(), n - 1, n));
        } else {
            assert(before.last() == s[n - 2]);
            let (from, to) = last_word_at_end(before, words);
            let now = fields(s);
            assert(now.drop_last() == words.drop_last());
            assert(s.take(from) == before.take(from));
            assert(s.subrange(from, n) == words.last().push(s.last()));
            assert(ends_with_word(s, now.last(), from, n));
            assert forall|i: int, j: int|
                0 <= i < now.len() && 0 <= j < now[i].len() implies !is_space(
                #[trigger] now[i][j],
            ) by {
                if i < now.len() - 1 {
                    assert(now[i] == words[i]);
                } else if j < words.last().len() {
                    assert(now[i][j] == words[i][j]);
                }
            }
        }
    }
}

proof fn last_word_at_end(s: Seq<char>, words: Seq<Seq<char>>) -> (r: (int, int))
    requires
        s.len() > 0,
        !is_space(s.last()),
        parts_of(s, words),
    ensures
        words.len() > 0,
        r.1 == s.len(),
        ends_with_word(s, words.last(), r.0, r.1),
        parts_of(s.take(r.0), words.drop_last()),
{
    assert(is_space(s[s.len() - 1]) == is_space(s.last()));
    let (from, to) = last_word(s, words);
    if to < s.len() {
        assert(s.skip(to)[s.len() - 1 - to] == s.last());
    }
    (from, to)
}

/// Splits a text into its words.
pub fn split_fields<'a>(s: &'a str) -> (words: Vec<&'a str>)
    ensures
        views(words@) == fields(s@),
{
    let chars: Vec<char> = to_chars(s);
    let mut words: Vec<&'a str> = Vec::new();
    let mut i: usize = 0;
    let mut start: usize = 0;
    let mut open: bool = false;
    while i < chars.len()
        invariant
            chars@ == s@,
            i <= chars@.len(),
            open ==> start < i,
            open ==> !is_space(s@[i - 1]),
            !open && i > 0 ==> is_space(s@[i - 1]),
            fields(s@.take(i as int)) == if open {
                views(words@).push(s@.subrange(start as int, i as int))
            } else {
                views(words@)
            },
        decreases chars@.len() - i,
    {
        let ghost before = s@.take(i as int);
        let ghost after = s@.take(i + 1);
        assert(after.drop_last() == before);
        assert(after.last() == s@[i as int]);
        if space_char(chars[i]) {
            if open {
                let ghost old_words = words@;
                let w: &'a str = s.substring_char(start, i);
                words.push(w);
                assert(views(words@) == views(old_words).push(w@));
                open = false;
            }
        } else {
            if !open {
                start = i;
                open = true;
                assert(s@.subrange(i as int, i + 1) == seq![s@[i as int]]);
            } else {
                let ghost prev = fields(before);
                assert(after[after.len() - 2] == s@[i - 1]);
                assert(prev.drop_last() == views(words@));
                assert(prev.last().push(s@[i as int]) == s@.subrange(start as int, i + 1));
            }
        }
        i = i + 1;
    }
    assert(s@.take(i as int) == s@);
    if open {
        let ghost old_words = words@;
        let w: &'a str = s.substring_char(start, i);
        words.push(w);
        assert(views(words@) == views(old_words).push(w@));
    }
    words
}

/// `s` without its leading white space.
pub open spec fn trim_start(s: Seq<char>) -> Seq<char>
    decreases s.len(),
{
    if s.len() > 0 && is_space(s[0]) {
        trim_start(s.skip(1))
    } else {
        s
    }
}

/// `s` without its trailing white space.
pub open spec fn trim_end(s: Seq<char>) -> Seq<char>
    decreases s.len(),
{
    if s.len() > 0 && is_space(s.last()) {
        trim_end(s.drop_last())
    } else {
        s
    }
}

/// `s` without the white space at its two ends.
pub open spec fn trim(s: Seq<char>) -> Seq<char> {
    trim_end(trim_start(s))
}

proof fn lemma_trim_start(s: Seq<char>)
    ensures
        trim_start(s).len() == 0 || !is_space(trim_start(s)[0]),
        exists|k: int| 0 <= k <= s.len() && trim_start(s) == #[trigger] s.skip(k),
    decreases s.len(),
{
    if s.len() > 0 && is_space(s[0]) {
        lemma_trim_start(s.skip(1));
        let k = choose|k: int|
            0 <= k <= s.skip(1).len() && trim_start(s.skip(1)) == #[trigger] s.skip(1).skip(k);
        assert(s.skip(1).skip(k) == s.skip(k + 1));
    } else {
        assert(s.skip(0) == s);
    }
}

proof fn lemma_trim_end(s: Seq<char>)
    ensures
        trim_end(s).len() == 0 || !is_space(trim_end(s).last()),
        exists|k: int| 0 <= k <= s.len() && trim_end(s) == #[trigger] s.take(k),
    decreases s.len(),
{
    if s.len() > 0 && is_space(s.last()) {
        lemma_trim_end(s.drop_last());
        let k = choose|k: int|
            0 <= k <= s.drop_last().len() && trim_end(s.drop_last()) == #[trigger] s.drop_last().take(k);
        assert(s.drop_last().take(k) == s.take(k));
    } else {
        assert(s.take(s.len() as int) == s);
    }
}

/// A trimmed text has no white space at its ends, and trimming it changes nothing.
pub proof fn trimmed_texts_stay(s: Seq<char>)
    ensures
        trim(trim(s)) == trim(s),
        trim(s).len() > 0 ==> !is_space(trim(s)[0]) && !is_space(trim(s).last()),
{
    lemma_trim_start(s);
    lemma_trim_end(trim_start(s));
    let k = choose|k: int|
        0 <= k <= trim_start(s).len() && trim(s) == #[trigger] trim_start(s).take(k);
    if trim(s).len() > 0 {
        assert(trim(s)[0] == trim_start(s)[0]);
    }
}

/// Trimming adds no character.
pub proof fn trimming_adds_nothing(s: Seq<char>, c: char)
    requires
        trim(s).contains(c),
    ensures
        s.contains(c),
{
    lemma_trim_start(s);
    lemma_trim_end(trim_start(s));
    let from = choose|k: int| 0 <= k <= s.len() && trim_start(s) == #[trigger] s.skip(k);
    let to = choose|k: int|
        0 <= k <= trim_start(s).len() && trim(s) == #[trigger] trim_start(s).take(k);
    let i = choose|i: int| 0 <= i < trim(s).len() && trim(s)[i] == c;
    assert(trim_start(s)[i] == c);
    assert(s[from + i] == c);
}

/// Removes the white space at the two ends of a text.
pub fn trimmed<'a>(s: &'a str) -> (r: &'a str)
    ensures
        r@ == trim(s@),
{
    let chars: Vec<char> = to_chars(s);
    let n: usize = chars.len();
    let mut from: usize = 0;
    assert(s@.skip(0) == s@);
    while from < n && space_char(chars[from])
        invariant
            chars@ == s@,
            n == chars@.len(),
            from <= n,
            trim_start(s@) == trim_start(s@.skip(from as int)),
        decreases n - from,
    {
        assert(s@.skip(from as int).skip(1) == s@.skip(from + 1));
        from = from + 1;
    }
    assert(trim_start(s@) == s@.skip(from as int));
    let ghost rest = s@.skip(from as int);
    let mut to: usize = n;
    assert(s@.subrange(from as int, n as int) == rest);
    while from < to && space_char(chars[to - 1])
        invariant
            chars@ == s@,
            n == chars@.len(),
            from <= to <= n,
            trim_end(rest) == trim_end(s@.subrange(from as int, to as int)),
        decreases to,
    {
        assert(s@.subrange(from as int, to as int).drop_last() == s@.subrange(from as int, to - 1));
        to = to - 1;
    }
    s.substring_char(from, to)
}

// ---------------------------------------------------------------------------------------------
// Splitting and joining
// ---------------------------------------------------------------------------------------------

/// The pieces of `s` between the occurrences of `sep`. There is always one more piece than there
/// are separators, so the empty text has one empty piece.
pub open spec fn split_on(s: Seq<char>, sep: char) -> Seq<Seq<char>>
    decreases s.len(),
{
    if s.len() == 0 {
        seq![Seq::<char>::empty()]
    } else {
        let before = split_on(s.drop_last(), sep);
        if s.last() == sep {
            before.push(Seq::<char>::empty())
        } else {
            before.drop_last().push(before.last().push(s.last()))
        }
    }
}

/// The pieces put together again with `sep` between them.
pub open spec fn join(parts: Seq<Seq<char>>, sep: Seq<char>) -> Seq<char>
    decreases parts.len(),
{
    if parts.len() == 0 {
        Seq::empty()
    } else if parts.len() == 1 {
        parts[0]
    } else {
        join(parts.drop_last(), sep) + sep + parts.last()
    }
}

proof fn lemma_split_nonempty(s: Seq<char>, sep: char)
    ensures
        split_on(s, sep).len() > 0,
    decreases s.len(),
{
    if s.len() > 0 {
        lemma_split_nonempty(s.drop_last(), sep);
    }
}

/// Splitting loses nothing: the pieces joined by the separator are the text again.
pub proof fn split_then_join(s: Seq<char>, sep: char)
    ensures
        join(split_on(s, sep), seq![sep]) == s,
    decreases s.len(),
{
    if s.len() == 0 {
        assert(join(split_on(s, sep), seq![sep]) == s);
    } else {
        split_then_join(s.drop_last(), sep);
        lemma_split_nonempty(s.drop_last(), sep);
        let before = split_on(s.drop_last(), sep);
        let after = split_on(s, sep);
        assert(s == s.drop_last().push(s.last()));
        if s.last() == sep {
            assert(after.drop_last() == before);
            assert(join(after, seq![sep]) == s);
        } else {
            assert(after.drop_last() == before.drop_last());
            if before.len() == 1 {
                assert(join(after, seq![sep]) == s);
            } else {
                assert(join(after, seq![sep]) == join(before.drop_last(), seq![sep]) + seq![sep]
                    + before.last().push(s.last()));
                assert(join(after, seq![sep]) == s);
            }
        }
    }
}

/// No piece holds the separator.
pub proof fn pieces_hold_no_separator(s: Seq<char>, sep: char, i: int)
    requires
        0 <= i < split_on(s, sep).len(),
    ensures
        !split_on(s, sep)[i].contains(sep),
    decreases s.len(),
{
    let pieces = split_on(s, sep);
    if s.len() > 0 {
        let before = split_on(s.drop_last(), sep);
        lemma_split_nonempty(s.drop_last(), sep);
        if i < pieces.len() - 1 {
            assert(pieces[i] == before[i]);
            pieces_hold_no_separator(s.drop_last(), sep, i);
        } else if s.last() != sep {
            pieces_hold_no_separator(s.drop_last(), sep, before.len() - 1);
            assert forall|k: int| 0 <= k < pieces[i].len() implies pieces[i][k] != sep by {
                if k < before.last().len() {
                    assert(before.last()[k] != sep);
                }
            }
        }
    }
}

/// What stands behind a separator is a piece of its own.
pub proof fn split_behind_separator(s: Seq<char>, sep: char, piece: Seq<char>)
    requires
        !piece.contains(sep),
    ensures
        split_on(s.push(sep) + piece, sep) == split_on(s, sep).push(piece),
    decreases piece.len(),
{
    let whole = s.push(sep) + piece;
    if piece.len() == 0 {
        assert(whole == s.push(sep));
        assert(whole.drop_last() == s);
        assert(piece == Seq::<char>::empty());
    } else {
        let shorter = piece.drop_last();
        assert forall|k: int| 0 <= k < shorter.len() implies shorter[k] != sep by {
            assert(piece[k] != sep);
        }
        split_behind_separator(s, sep, shorter);
        assert(whole.drop_last() == s.push(sep) + shorter);
        assert(piece.contains(piece.last()));
        assert(piece == shorter.push(piece.last()));
        let before = split_on(s.push(sep) + shorter, sep);
        assert(before.drop_last() == split_on(s, sep));
    }
}

/// Splits a text at each occurrence of a character.
pub fn split_at_char<'a>(s: &'a str, sep: char) -> (parts: Vec<&'a str>)
    ensures
        views(parts@) == split_on(s@, sep),
{
    let chars: Vec<char> = to_chars(s);
    let mut parts: Vec<&'a str> = Vec::new();
    let mut i: usize = 0;
    let mut start: usize = 0;
    assert(s@.take(0) == Seq::<char>::empty());
    assert(s@.subrange(0, 0) == Seq::<char>::empty());
    assert(views(parts@).push(s@.subrange(0, 0)) == seq![Seq::<char>::empty()]);
    while i < chars.len()
        invariant
            chars@ == s@,
            start <= i <= chars@.len(),
            split_on(s@.take(i as int), sep) == views(parts@).push(
                s@.subrange(start as int, i as int),
            ),
        decreases chars@.len() - i,
    {
        let ghost before = s@.take(i as int);
        let ghost after = s@.take(i + 1);
        assert(after.drop_last() == before);
        if chars[i] == sep {
            let ghost old_parts = parts@;
            let p: &'a str = s.substring_char(start, i);
            parts.push(p);
            assert(views(parts@) == views(old_parts).push(p@));
            start = i + 1;
            assert(s@.subrange(i + 1, i + 1) == Seq::<char>::empty());
        } else {
            let ghost prev = split_on(before, sep);
            assert(prev.drop_last() == views(parts@));
            assert(prev.last().push(s@[i as int]) == s@.subrange(start as int, i + 1));
        }
        i = i + 1;
    }
    assert(s@.take(i as int) == s@);
    let ghost old_parts = parts@;
    let p: &'a str = s.substring_char(start, i);
    parts.push(p);
    assert(views(parts@) == views(old_parts).push(p@));
    parts
}

/// Puts strings together with a separator between them.
pub fn join_strings(parts: &[String], sep: &str) -> (s: String)
    ensures
        s@ == join(views(parts@), sep@),
{
    let mut s: String = String::new();
    let mut i: usize = 0;
    assert(views(parts@).take(0) == Seq::<Seq<char>>::empty());
    while i < parts.len()
        invariant
            i <= parts@.len(),
            s@ == join(views(parts@).take(i as int), sep@),
        decreases parts@.len() - i,
    {
        let ghost all = views(parts@);
        assert(all.take(i + 1).drop_last() == all.take(i as int));
        assert(all.take(i + 1).last() == parts@[i as int]@);
        if i > 0 {
            s.append(sep);
        }
        s.append(parts[i].as_str());
        proof {
            if i == 0 {
                assert(s@ == parts@[0]@);
            } else {
                assert(s@ == join(all.take(i as int), sep@) + sep@ + parts@[i as int]@);
            }
        }
        i = i + 1;
    }
    assert(views(parts@).take(i as int) == views(parts@));
    s
}

// ---------------------------------------------------------------------------------------------
// Searching
// ---------------------------------------------------------------------------------------------

/// Whether `part` stands in `s` at position `at`.
pub open spec fn occurs_at(s: Seq<char>, part: Seq<char>, at: int) -> bool {
    0 <= at && at + part.len() <= s.len() && s.subrange(at, at + part.len()) == part
}

/// Whether `s` begins with `prefix`.
pub open spec fn starts_with(s: Seq<char>, prefix: Seq<char>) -> bool {
    occurs_at(s, prefix, 0)
}

/// Whether `part` stands in `chars` at position `at`.
pub fn occurs(chars: &[char], part: &[char], at: usize) -> (r: bool)
    ensures
        r == occurs_at(chars@, part@, at as int),
{
    let n: usize = chars.len();
    if at > n || part.len() > n - at {
        return false;
    }
    let mut i: usize = 0;
    while i < part.len()
        invariant
            i <= part@.len(),
            n == chars@.len(),
            at + part@.len() <= n,
            forall|j: int| 0 <= j < i ==> chars@[at + j] == part@[j],
        decreases part@.len() - i,
    {
        if chars[at + i] != part[i] {
            assert(chars@.subrange(at as int, at + part@.len())[i as int] != part@[i as int]);
            return false;
        }
        i = i + 1;
    }
    assert(chars@.subrange(at as int, at + part@.len()) == part@);
    true
}

/// Whether a text begins with another.
pub fn has_prefix(s: &str, prefix: &str) -> (r: bool)
    ensures
        r == starts_with(s@, prefix@),
{
    let chars: Vec<char> = to_chars(s);
    let part: Vec<char> = to_chars(prefix);
    occurs(chars.as_slice(), part.as_slice(), 0)
}

/// Whether a name stands in a list.
pub fn is_listed(allowed: &[&'static str], name: &str) -> (r: bool)
    ensures
        r == views(allowed@).contains(name@),
{
    let mut i: usize = 0;
    while i < allowed.len()
        invariant
            i <= allowed@.len(),
            forall|j: int| 0 <= j < i ==> (#[trigger] allowed@[j])@ != name@,
        decreases allowed@.len() - i,
    {
        if same(allowed[i], name) {
            assert(views(allowed@)[i as int] == name@);
            return true;
        }
        i = i + 1;
    }
    assert(!views(allowed@).contains(name@)) by {
        if views(allowed@).contains(name@) {
            let j = choose|j: int|
                0 <= j < views(allowed@).len() && views(allowed@)[j]
                    == name@;
            assert(allowed@[j]@ == name@);
        }
    }
    false
}

/// `s` without the occurrences of `part`, taken from the left and not overlapping.
pub open spec fn without(s: Seq<char>, part: Seq<char>) -> Seq<char>
    decreases s.len(),
{
    if part.len() == 0 || s.len() == 0 {
        s
    } else if starts_with(s, part) {
        without(s.skip(part.len() as int), part)
    } else {
        seq![s[0]] + without(s.skip(1), part)
    }
}

/// Removes all occurrences of `part`.
pub fn remove_all(s: &str, part: &str) -> (r: String)
    ensures
        r@ == without(s@, part@),
{
    let chars: Vec<char> = to_chars(s);
    let piece: Vec<char> = to_chars(part);
    let mut r: String = String::new();
    let mut i: usize = 0;
    if piece.len() == 0 {
        return s.to_string();
    }
    assert(s@.skip(0) == s@);
    assert(r@ + without(s@.skip(0), part@) == without(s@, part@));
    while i < chars.len()
        invariant
            chars@ == s@,
            piece@ == part@,
            piece@.len() > 0,
            i <= chars@.len(),
            r@ + without(s@.skip(i as int), part@) == without(s@, part@),
        decreases chars@.len() - i,
    {
        let ghost rest = s@.skip(i as int);
        assert(occurs_at(s@, part@, i as int) == starts_with(rest, part@)) by {
            if i + part@.len() <= s@.len() {
                assert(s@.subrange(i as int, i + part@.len()) == rest.subrange(
                    0,
                    part@.len() as int,
                ));
            }
        }
        if occurs(chars.as_slice(), piece.as_slice(), i) {
            assert(rest.skip(part@.len() as int) == s@.skip(i + part@.len()));
            i = i + piece.len();
        } else {
            let ghost before = r@;
            r.push(chars[i]);
            assert(rest.skip(1) == s@.skip(i + 1));
            assert(r@ + without(s@.skip(i + 1), part@) == before + (seq![rest[0]] + without(
                s@.skip(i + 1),
                part@,
            )));
            i = i + 1;
        }
    }
    assert(s@.skip(i as int).len() == 0);
    assert(r@ == without(s@, part@));
    r
}

/// The first position of a character from `from` on; the length where there is none.
pub open spec fn next_at(s: Seq<char>, c: char, from: int) -> int
    decreases s.len() - from,
{
    if from >= s.len() {
        s.len() as int
    } else if s[from] == c {
        from
    } else {
        next_at(s, c, from + 1)
    }
}

/// A position is the first one where nothing stands in between.
pub proof fn next_at_is_first(s: Seq<char>, c: char, from: int, at: int)
    requires
        0 <= from <= at <= s.len(),
        forall|j: int| from <= j < at ==> s[j] != c,
        at == s.len() || s[at] == c,
    ensures
        next_at(s, c, from) == at,
    decreases at - from,
{
    if from < at {
        next_at_is_first(s, c, from + 1, at);
    }
}

/// At the first position stands the character, and it stands nowhere before.
pub proof fn next_at_finds(s: Seq<char>, c: char, from: int)
    requires
        0 <= from <= s.len(),
    ensures
        from <= next_at(s, c, from) <= s.len(),
        next_at(s, c, from) < s.len() ==> s[next_at(s, c, from)] == c,
        forall|j: int| from <= j < next_at(s, c, from) ==> s[j] != c,
    decreases s.len() - from,
{
    if from < s.len() && s[from] != c {
        next_at_finds(s, c, from + 1);
    }
}

/// Finds the first position of a character from `from` on.
pub fn find_from(chars: &[char], c: char, from: usize) -> (at: usize)
    requires
        from <= chars@.len(),
    ensures
        at == next_at(chars@, c, from as int),
        from <= at <= chars@.len(),
        at < chars@.len() ==> chars@[at as int] == c,
{
    let mut i: usize = from;
    while i < chars.len() && chars[i] != c
        invariant
            from <= i <= chars@.len(),
            forall|j: int| from <= j < i ==> chars@[j] != c,
        decreases chars@.len() - i,
    {
        i = i + 1;
    }
    proof {
        next_at_is_first(chars@, c, from as int, i as int);
    }
    i
}

/// The first position of `c` in `s`, if there is one.
pub open spec fn is_first(s: Seq<char>, c: char, at: Option<usize>) -> bool {
    match at {
        Some(i) => i < s.len() && s[i as int] == c && forall|j: int| 0 <= j < i ==> s[j] != c,
        None => forall|j: int| 0 <= j < s.len() ==> s[j] != c,
    }
}

/// Finds the first position of a character.
pub fn find_char(chars: &[char], c: char) -> (at: Option<usize>)
    ensures
        is_first(chars@, c, at),
{
    let mut i: usize = 0;
    while i < chars.len()
        invariant
            i <= chars@.len(),
            forall|j: int| 0 <= j < i ==> chars@[j] != c,
        decreases chars@.len() - i,
    {
        if chars[i] == c {
            return Some(i);
        }
        i = i + 1;
    }
    None
}

// ---------------------------------------------------------------------------------------------
// Numbers
// ---------------------------------------------------------------------------------------------

/// The decimal digit of a number below ten.
pub open spec fn digit_char(d: int) -> char {
    (('0' as int) + d) as char
}

/// The decimal digits of a natural number, without leading zeros; zero is one digit.
pub open spec fn digits(n: nat) -> Seq<char>
    decreases n,
{
    if n < 10 {
        seq![digit_char(n as int)]
    } else {
        digits(n / 10).push(digit_char((n % 10) as int))
    }
}

/// The decimal text of an integer.
pub open spec fn decimal(n: int) -> Seq<char> {
    if n < 0 {
        seq!['-'] + digits((-n) as nat)
    } else {
        digits(n as nat)
    }
}

/// Digits are digits, and there is at least one.
pub proof fn digits_are_digits(n: nat)
    ensures
        digits(n).len() > 0,
        forall|i: int| 0 <= i < digits(n).len() ==> '0' <= #[trigger] digits(n)[i] <= '9',
    decreases n,
{
    if n >= 10 {
        digits_are_digits(n / 10);
    }
}

/// `digits(n)` with zeros in front up to `width` characters.
pub open spec fn zero_padded(n: nat, width: nat) -> Seq<char> {
    let d = digits(n);
    if d.len() >= width {
        d
    } else {
        Seq::new((width - d.len()) as nat, |i: int| '0') + d
    }
}

fn digit_of(d: u64) -> (c: char)
    requires
        d < 10,
    ensures
        c == digit_char(d as int),
{
    match d {
        0 => '0',
        1 => '1',
        2 => '2',
        3 => '3',
        4 => '4',
        5 => '5',
        6 => '6',
        7 => '7',
        8 => '8',
        _ => '9',
    }
}

/// The decimal digits of a natural number.
pub fn digits_text(n: u64) -> (s: String)
    ensures
        s@ == digits(n as nat),
    decreases n,
{
    if n < 10 {
        let mut s: String = String::new();
        s.push(digit_of(n));
        assert(s@ == seq![digit_char(n as int)]);
        s
    } else {
        let mut s: String = digits_text(n / 10);
        s.push(digit_of(n % 10));
        s
    }
}

/// The decimal text of an integer.
pub fn decimal_text(n: i64) -> (s: String)
    ensures
        s@ == decimal(n as int),
{
    if n < 0 {
        let m: u64 = (-(n as i128)) as u64;
        let mut s: String = String::new();
        s.push('-');
        s.append(digits_text(m).as_str());
        assert(s@ == seq!['-'] + digits(m as nat));
        s
    } else {
        digits_text(n as u64)
    }
}

/// The decimal digits of a number, padded with zeros in front.
pub fn zero_padded_text(n: u64, width: usize) -> (s: String)
    ensures
        s@ == zero_padded(n as nat, width as nat),
{
    let d: String = digits_text(n);
    let len: usize = d.as_str().unicode_len();
    if len >= width {
        return d;
    }
    let mut s: String = String::new();
    let mut i: usize = 0;
    while i < width - len
        invariant
            len < width,
            i <= width - len,
            s@ == Seq::new(i as nat, |k: int| '0'),
        decreases width - len - i,
    {
        s.push('0');
        i = i + 1;
        assert(s@ == Seq::new(i as nat, |k: int| '0'));
    }
    s.append(d.as_str());
    s
}

/// The number that digits say is the one that they were written for.
pub proof fn digits_are_read_back(n: nat)
    ensures
        crate::calendar::number_at(digits(n), 0, digits(n).len() as int) == n,
        crate::calendar::all_digits(digits(n), 0, digits(n).len() as int),
        n > 0 ==> digits(n)[0] != '0',
    decreases n,
{
    let d = digits(n);
    digits_are_digits(n);
    if n < 10 {
        assert(crate::calendar::number_at(d, 0, 0) == 0);
        assert(crate::calendar::number_at(d, 0, 1) == crate::calendar::digit_value(d[0]));
    } else {
        let front = digits(n / 10);
        digits_are_read_back(n / 10);
        digits_are_digits(n / 10);
        assert(d.drop_last() =~= front);
        same_number(front, d, front.len() as int);
        assert(d[0] == front[0]);
    }
}

proof fn same_number(a: Seq<char>, b: Seq<char>, to: int)
    requires
        0 <= to <= a.len(),
        to <= b.len(),
        forall|i: int| 0 <= i < to ==> a[i] == b[i],
    ensures
        crate::calendar::number_at(a, 0, to) == crate::calendar::number_at(b, 0, to),
    decreases to,
{
    if to > 0 {
        same_number(a, b, to - 1);
    }
}

/// Different numbers have different texts, and a negative one has a minus sign in front of the digits
/// of its opposite.
pub proof fn decimal_texts_differ(a: int, b: int)
    ensures
        (decimal(a) == decimal(b)) == (a == b),
        a < 0 ==> decimal(a) == seq!['-'] + decimal(-a),
{
    digits_are_digits((if a < 0 {
        -a
    } else {
        a
    }) as nat);
    digits_are_digits((if b < 0 {
        -b
    } else {
        b
    }) as nat);
    digits_are_read_back((if a < 0 {
        -a
    } else {
        a
    }) as nat);
    digits_are_read_back((if b < 0 {
        -b
    } else {
        b
    }) as nat);
    if decimal(a) == decimal(b) {
        assert(decimal(a)[0] == decimal(b)[0]);
        if a < 0 {
            assert(decimal(a)[0] == '-');
            assert(b < 0);
            assert(decimal(a).skip(1) =~= digits((-a) as nat));
            assert(decimal(b).skip(1) =~= digits((-b) as nat));
        } else if b < 0 {
            assert(decimal(b)[0] == '-');
        }
    }
}

/// A text padded to a width has at least that width, reads as the same number, and is no longer than
/// it has to be.
pub proof fn padded_texts_have_their_width(n: nat, width: nat)
    ensures
        zero_padded(n, width).len() >= width,
        digits(n).len() <= width ==> zero_padded(n, width).len() == width,
        digits(n).len() >= width ==> zero_padded(n, width) == digits(n),
        zero_padded(n, width).skip(zero_padded(n, width).len() - digits(n).len()) == digits(n),
        forall|i: int|
            0 <= i < zero_padded(n, width).len() - digits(n).len() ==> #[trigger] zero_padded(
                n,
                width,
            )[i] == '0',
{
    assert(zero_padded(n, width).skip(zero_padded(n, width).len() - digits(n).len()) =~= digits(n));
}

/// What is trimmed off a text is white space: the text is white space, what is left of it, and white
/// space.
pub proof fn trimming_removes_white_space(s: Seq<char>) -> (r: (int, int))
    ensures
        0 <= r.0 <= r.1 <= s.len(),
        trim(s) == s.subrange(r.0, r.1),
        all_space(s.take(r.0)),
        all_space(s.skip(r.1)),
        trim(s).len() > 0 ==> !is_space(trim(s)[0]) && !is_space(trim(s).last()),
{
    let from = trimmed_at_start(s);
    let t = s.skip(from);
    let to = trimmed_at_end(t);
    assert(t.take(to) =~= s.subrange(from, from + to));
    assert(s.skip(from + to) =~= t.skip(to));
    if t.take(to).len() > 0 {
        assert(t.take(to)[0] == t[0]);
    }
    (from, from + to)
}

proof fn trimmed_at_start(s: Seq<char>) -> (from: int)
    ensures
        0 <= from <= s.len(),
        trim_start(s) == s.skip(from),
        all_space(s.take(from)),
        from < s.len() ==> !is_space(s[from]),
    decreases s.len(),
{
    if s.len() > 0 && is_space(s[0]) {
        let k = trimmed_at_start(s.skip(1));
        assert(s.skip(1).skip(k) =~= s.skip(k + 1));
        assert forall|i: int| 0 <= i < k + 1 implies is_space(#[trigger] s.take(k + 1)[i]) by {
            if i > 0 {
                assert(s.skip(1).take(k)[i - 1] == s[i]);
            }
        }
        k + 1
    } else {
        assert(s.skip(0) =~= s);
        0
    }
}

proof fn trimmed_at_end(s: Seq<char>) -> (to: int)
    ensures
        0 <= to <= s.len(),
        trim_end(s) == s.take(to),
        all_space(s.skip(to)),
        to > 0 ==> !is_space(s[to - 1]),
    decreases s.len(),
{
    if s.len() > 0 && is_space(s.last()) {
        let front = s.drop_last();
        let k = trimmed_at_end(front);
        assert(front.take(k) =~= s.take(k));
        assert forall|i: int| 0 <= i < s.skip(k).len() implies is_space(#[trigger] s.skip(k)[i]) by {
            if i < s.len() - 1 - k {
                assert(front.skip(k)[i] == s.skip(k)[i]);
            }
        }
        k
    } else {
        assert(s.take(s.len() as int) =~= s);
        s.len() as int
    }
}

/// Joining keeps every text: the length of the whole is that of the texts and of the separators
/// between them.
pub proof fn joining_keeps_everything(parts: Seq<Seq<char>>, sep: Seq<char>, last: Seq<char>)
    ensures
        join(Seq::empty(), sep) == Seq::<char>::empty(),
        join(seq![last], sep) == last,
        parts.len() > 0 ==> join(parts.push(last), sep) == join(parts, sep) + sep + last,
{
    assert(parts.push(last).drop_last() =~= parts);
}

/// A list keeps the first of equal strings and drops the later ones.
pub proof fn later_repetitions_go(parts: Seq<Seq<char>>, last: Seq<char>)
    ensures
        firsts(Seq::empty()) == Seq::<Seq<char>>::empty(),
        parts.contains(last) ==> firsts(parts.push(last)) == firsts(parts),
        !parts.contains(last) ==> firsts(parts.push(last)) == firsts(parts).push(last),
{
    firsts_are_the_distinct_strings(parts);
    assert(parts.push(last).drop_last() =~= parts);
    assert(firsts(parts).contains(last) <==> parts.contains(last));
}

/// The characters that are white space, by their code points.
pub proof fn these_characters_are_white_space(c: char)
    ensures
        is_space(c) == ({
            let n = c as int;
            9 <= n <= 13 || n == 32 || n == 0x85 || n == 0xa0 || n == 0x1680 || 0x2000 <= n <= 0x200a
                || n == 0x2028 || n == 0x2029 || n == 0x202f || n == 0x205f || n == 0x3000
        }),
{
}

proof fn lemma_fields_end(s: Seq<char>)
    requires
        s.len() > 0,
        !is_space(s.last()),
    ensures
        fields(s).len() > 0,
{
}

/// White space parts words: those of two texts with white space between them are those of the one
/// and those of the other.
pub proof fn white_space_parts_words(s: Seq<char>, c: char, t: Seq<char>)
    requires
        is_space(c),
    ensures
        fields(s.push(c) + t) == fields(s) + fields(t),
    decreases t.len(),
{
    let whole = s.push(c) + t;
    if t.len() == 0 {
        assert(whole.drop_last() =~= s);
        assert(fields(s) + fields(t) =~= fields(s));
    } else {
        let rest = t.drop_last();
        white_space_parts_words(s, c, rest);
        assert(whole.drop_last() =~= s.push(c) + rest);
        assert(whole.last() == t.last());
        if !is_space(t.last()) {
            if t.len() == 1 {
                assert(whole[whole.len() - 2] == c);
                assert(fields(s) + fields(rest).push(seq![t.last()]) =~= (fields(s) + fields(rest)).push(
                    seq![t.last()],
                ));
            } else {
                assert(whole[whole.len() - 2] == t[t.len() - 2]);
                if is_space(t[t.len() - 2]) {
                    assert(fields(s) + fields(rest).push(seq![t.last()]) =~= (fields(s) + fields(
                        rest,
                    )).push(seq![t.last()]));
                } else {
                    assert(rest.last() == t[t.len() - 2]);
                    lemma_fields_end(rest);
                    let a = fields(s) + fields(rest);
                    let b = fields(rest);
                    assert(a.last() == b.last());
                    assert(a.drop_last() =~= fields(s) + b.drop_last());
                    assert(fields(s) + b.drop_last().push(b.last().push(t.last())) =~= a.drop_last().push(
                        a.last().push(t.last()),
                    ));
                }
            }
        }
    }
}

/// A text without white space is one word.
pub proof fn a_text_without_white_space_is_a_word(s: Seq<char>)
    requires
        s.len() > 0,
        forall|i: int| 0 <= i < s.len() ==> !is_space(#[trigger] s[i]),
    ensures
        fields(s) == seq![s],
    decreases s.len(),
{
    assert(!is_space(s[s.len() - 1]));
    if s.len() == 1 {
        assert(s.drop_last() =~= Seq::<char>::empty());
        assert(fields(s.drop_last()) == Seq::<Seq<char>>::empty());
        assert(seq![s.last()] =~= s);
    } else {
        a_text_without_white_space_is_a_word(s.drop_last());
        assert(!is_space(s[s.len() - 2]));
        let before = fields(s.drop_last());
        assert(before.last().push(s.last()) =~= s);
        assert(before.drop_last().push(s) =~= seq![s]);
    }
}

/// A part that is removed leaves what stands behind it, and what it does not occur in stays.
pub proof fn removed_parts_are_gone(s: Seq<char>, part: Seq<char>)
    requires
        part.len() > 0,
    ensures
        without(part + s, part) == without(s, part),
        without(part, part).len() == 0,
        (forall|i: int| !#[trigger] occurs_at(s, part, i)) ==> without(s, part) == s,
    decreases s.len(),
{
    let whole = part + s;
    assert(whole.subrange(0, part.len() as int) =~= part);
    assert(whole.skip(part.len() as int) =~= s);
    assert(part.subrange(0, part.len() as int) =~= part);
    let nothing = part.skip(part.len() as int);
    assert(nothing.len() == 0 && without(nothing, part) == nothing);
    if (forall|i: int| !#[trigger] occurs_at(s, part, i)) && s.len() > 0 {
        let rest = s.skip(1);
        assert(!occurs_at(s, part, 0));
        assert forall|i: int| !#[trigger] occurs_at(rest, part, i) by {
            if occurs_at(rest, part, i) {
                assert(s.subrange(i + 1, i + 1 + part.len()) =~= rest.subrange(i, i + part.len()));
                assert(occurs_at(s, part, i + 1));
            }
        }
        removed_parts_are_gone(rest, part);
        assert(seq![s[0]] + rest =~= s);
    }
}

/// The first position of a character has none of it in front, and there is none if and only if the
/// character does not occur.
pub proof fn first_positions_are_first(s: Seq<char>, c: char, i: usize)
    ensures
        is_first(s, c, None) == !s.contains(c),
        is_first(s, c, Some(i)) ==> i < s.len() && s[i as int] == c && !s.take(i as int).contains(c),
{
    if is_first(s, c, Some(i)) && s.take(i as int).contains(c) {
        let j = choose|j: int| 0 <= j < i && s.take(i as int)[j] == c;
        assert(s[j] == c);
    }
    if !s.contains(c) {
        assert forall|j: int| 0 <= j < s.len() implies s[j] != c by {
            assert(s.contains(s[j]));
        }
    }
}

} // verus!
