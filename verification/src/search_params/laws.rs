//! What holds of searches: nothing that was typed is lost, and dates are those of the user's clocks.

use vstd::prelude::*;

use crate::calendar::{EPOCH_DAY, MAX_DAY, MIN_DAY};
use crate::search_params::{Flag, Head, SearchParams, Term};

verus! {

// ---------------------------------------------------------------------------------------------
// Terms
// ---------------------------------------------------------------------------------------------

/// The values of the terms of a kind, all of them and in their order.
pub open spec fn values_of_kind(terms: Seq<Term>, hashtag: bool, exclude: bool) -> Seq<Seq<char>> {
    terms.filter(
        |t: Term| crate::pattern::hashtag_shape(t.value) == hashtag && t.exclude == exclude,
    ).map_values(|t: Term| t.value)
}

/// No term is lost: what is picked of a kind is the values of the terms of that kind, all of them
/// and in their order.
pub proof fn all_terms_of_a_kind_are_picked(terms: Seq<Term>, hashtag: bool, exclude: bool)
    ensures
        crate::search_params::picked(terms, hashtag, exclude) == values_of_kind(
            terms,
            hashtag,
            exclude,
        ),
    decreases terms.len(),
{
    reveal(Seq::filter);
    let kind = |t: Term| crate::pattern::hashtag_shape(t.value) == hashtag && t.exclude == exclude;
    if terms.len() > 0 {
        let front = terms.drop_last();
        all_terms_of_a_kind_are_picked(front, hashtag, exclude);
        if kind(terms.last()) {
            assert(terms.filter(kind) == front.filter(kind).push(terms.last()));
            assert(front.filter(kind).push(terms.last()).map_values(|t: Term| t.value)
                == front.filter(kind).map_values(|t: Term| t.value).push(terms.last().value));
        } else {
            assert(terms.filter(kind) == front.filter(kind));
        }
    } else {
        assert(values_of_kind(terms, hashtag, exclude) =~= Seq::<Seq<char>>::empty());
    }
}

/// Every term is of one kind: the terms that are picked are together as many as the terms.
pub proof fn every_term_is_picked_once(terms: Seq<Term>)
    ensures
        crate::search_params::picked(terms, false, false).len() + crate::search_params::picked(
            terms,
            false,
            true,
        ).len() + crate::search_params::picked(terms, true, false).len()
            + crate::search_params::picked(terms, true, true).len() == terms.len(),
    decreases terms.len(),
{
    if terms.len() > 0 {
        every_term_is_picked_once(terms.drop_last());
    }
}

proof fn joined_texts_are_not_empty(parts: Seq<Seq<char>>, sep: Seq<char>)
    requires
        parts.len() > 0,
        forall|i: int| 0 <= i < parts.len() ==> #[trigger] parts[i].len() > 0,
    ensures
        crate::text::join(parts, sep).len() > 0,
{
    assert(parts[parts.len() - 1].len() > 0);
}

/// Where there are terms of a kind, wanted or excluded, there is one search for them, with all the
/// wanted ones and all the excluded ones, each behind a blank but for the first. The search for
/// plain terms comes before the search for hashtags.
pub proof fn terms_of_a_kind_are_searched_for(terms: Seq<Term>, flags: Seq<Flag>, hashtag: bool)
    requires
        forall|i: int| 0 <= i < terms.len() ==> #[trigger] terms[i].value.len() > 0,
        exists|i: int|
            0 <= i < terms.len() && crate::pattern::hashtag_shape(#[trigger] terms[i].value) == hashtag,
    ensures
        ({
            let heads = crate::search_params::heads(terms, flags);
            let i: int = if hashtag {
                heads.len() - 1
            } else {
                0
            };
            &&& 0 < heads.len() <= 2
            &&& heads[i] == (Head {
                terms: crate::text::join(values_of_kind(terms, hashtag, false), seq![' ']),
                excluded_terms: crate::text::join(values_of_kind(terms, hashtag, true), seq![' ']),
                is_hashtag: hashtag,
            })
            &&& heads.len() == 2 ==> heads[1 - i].is_hashtag != hashtag
        }),
{
    reveal_strlit(" ");
    assert(" "@ =~= seq![' ']);
    let k = choose|i: int|
        0 <= i < terms.len() && crate::pattern::hashtag_shape(#[trigger] terms[i].value) == hashtag;
    let exclude = terms[k].exclude;
    all_terms_of_a_kind_are_picked(terms, hashtag, false);
    all_terms_of_a_kind_are_picked(terms, hashtag, true);
    let kind = |t: Term| crate::pattern::hashtag_shape(t.value) == hashtag && t.exclude == exclude;
    let values = values_of_kind(terms, hashtag, exclude);
    terms.lemma_filter_contains(kind, k);
    assert forall|i: int| 0 <= i < values.len() implies #[trigger] values[i].len() > 0 by {
        let t = terms.filter(kind)[i];
        terms.lemma_filter_contains_rev(kind, t);
        let j = choose|j: int| 0 <= j < terms.len() && terms[j] == t;
        assert(terms[j].value.len() > 0);
    }
    joined_texts_are_not_empty(values, " "@);
}

/// Where there are no terms there is a search only where something is filtered, and it has none.
pub proof fn filters_alone_make_one_search(flags: Seq<Flag>)
    ensures
        crate::search_params::heads(Seq::empty(), flags) == if crate::search_params::filters_anything(
            flags,
        ) {
            seq![Head { terms: Seq::empty(), excluded_terms: Seq::empty(), is_hashtag: false }]
        } else {
            Seq::empty()
        },
{
}

// ---------------------------------------------------------------------------------------------
// Flags
// ---------------------------------------------------------------------------------------------

/// Whether a flag stands for a filter: a channel is named by two flags, the other filters by one.
pub open spec fn stands_for(flag: Flag, filter: Seq<char>) -> bool {
    flag.name == filter && filter != "channel"@ || flag.name == "channel"@ && filter == "in"@
}

/// No flag is lost: what a filter is given, or excludes, is the values of the flags that stand for
/// it, all of them and in their order.
pub proof fn all_flags_of_a_filter_are_given(flags: Seq<Flag>, filter: Seq<char>, exclude: bool)
    requires
        filter != "channel"@,
    ensures
        crate::search_params::given(flags, filter, exclude) == values_of_flags(
            flags,
            filter,
            exclude,
        ),
    decreases flags.len(),
{
    reveal(Seq::filter);
    reveal_strlit("in");
    reveal_strlit("channel");
    let kind = |f: Flag| stands_for(f, filter) && f.exclude == exclude;
    if flags.len() > 0 {
        let front = flags.drop_last();
        all_flags_of_a_filter_are_given(front, filter, exclude);
        if kind(flags.last()) {
            assert(flags.filter(kind) == front.filter(kind).push(flags.last()));
            assert(front.filter(kind).push(flags.last()).map_values(|f: Flag| f.value)
                == front.filter(kind).map_values(|f: Flag| f.value).push(flags.last().value));
        } else {
            assert(flags.filter(kind) == front.filter(kind));
        }
    } else {
        assert(flags.filter(kind).map_values(|f: Flag| f.value) =~= Seq::<Seq<char>>::empty());
    }
}

/// The values of the flags that stand for a filter, all of them and in their order.
pub open spec fn values_of_flags(flags: Seq<Flag>, filter: Seq<char>, exclude: bool) -> Seq<
    Seq<char>,
> {
    flags.filter(|f: Flag| stands_for(f, filter) && f.exclude == exclude).map_values(
        |f: Flag| f.value,
    )
}

/// The last of several texts; the empty one where there is none.
pub open spec fn last_value(values: Seq<Seq<char>>) -> Seq<char> {
    if values.len() > 0 {
        values[values.len() - 1]
    } else {
        Seq::empty()
    }
}

/// Every search has all the filters: channels, users and extensions as they were typed, of each date
/// the last one, each in its place, wanted or excluded. It has the terms of its kind, all of them.
pub proof fn searches_have_all_that_was_typed(
    list: Seq<SearchParams>,
    terms: Seq<Term>,
    flags: Seq<Flag>,
    offset: int,
    i: int,
)
    requires
        crate::search_params::are_searches(list, terms, flags, offset),
        forall|j: int| 0 <= j < terms.len() ==> #[trigger] terms[j].value.len() > 0,
        0 <= i < list.len(),
    ensures
        ({
            let p = list[i];
            &&& p.terms@ == crate::text::join(values_of_kind(terms, p.is_hashtag, false), seq![' '])
            &&& p.excluded_terms@ == crate::text::join(
                values_of_kind(terms, p.is_hashtag, true),
                seq![' '],
            )
            &&& crate::text::views(p.in_channels@) == values_of_flags(flags, "in"@, false)
            &&& crate::text::views(p.excluded_channels@) == values_of_flags(flags, "in"@, true)
            &&& crate::text::views(p.from_users@) == values_of_flags(flags, "from"@, false)
            &&& crate::text::views(p.excluded_users@) == values_of_flags(flags, "from"@, true)
            &&& crate::text::views(p.extensions@) == values_of_flags(flags, "ext"@, false)
            &&& crate::text::views(p.excluded_extensions@) == values_of_flags(flags, "ext"@, true)
            &&& p.after_date@ == last_value(values_of_flags(flags, "after"@, false))
            &&& p.excluded_after_date@ == last_value(values_of_flags(flags, "after"@, true))
            &&& p.before_date@ == last_value(values_of_flags(flags, "before"@, false))
            &&& p.excluded_before_date@ == last_value(values_of_flags(flags, "before"@, true))
            &&& p.on_date@ == last_value(values_of_flags(flags, "on"@, false))
            &&& p.excluded_date@ == last_value(values_of_flags(flags, "on"@, true))
            &&& p.time_zone_offset == offset
            &&& !p.or_terms && !p.include_deleted_channels && !p.search_without_user_id
        }),
{
    reveal_strlit(" ");
    assert(" "@ =~= seq![' ']);
    reveal_strlit("channel");
    reveal_strlit("in");
    reveal_strlit("from");
    reveal_strlit("ext");
    reveal_strlit("after");
    reveal_strlit("before");
    reveal_strlit("on");
    assert("channel"@.len() == 7);
    let p = list[i];
    all_terms_of_a_kind_are_picked(terms, p.is_hashtag, false);
    all_terms_of_a_kind_are_picked(terms, p.is_hashtag, true);
    if terms.len() > 0 {
        terms_of_a_kind_are_searched_for(
            terms,
            flags,
            crate::pattern::hashtag_shape(terms[0].value),
        );
        assert(terms[0].value.len() > 0);
    } else {
        assert(crate::search_params::picked(terms, p.is_hashtag, false).len() == 0);
        assert(crate::search_params::picked(terms, p.is_hashtag, true).len() == 0);
        assert(p.terms@ =~= Seq::<char>::empty());
        assert(p.excluded_terms@ =~= Seq::<char>::empty());
    }
    all_flags_of_a_filter_are_given(flags, "in"@, false);
    all_flags_of_a_filter_are_given(flags, "in"@, true);
    all_flags_of_a_filter_are_given(flags, "from"@, false);
    all_flags_of_a_filter_are_given(flags, "from"@, true);
    all_flags_of_a_filter_are_given(flags, "ext"@, false);
    all_flags_of_a_filter_are_given(flags, "ext"@, true);
    all_flags_of_a_filter_are_given(flags, "after"@, false);
    all_flags_of_a_filter_are_given(flags, "after"@, true);
    all_flags_of_a_filter_are_given(flags, "before"@, false);
    all_flags_of_a_filter_are_given(flags, "before"@, true);
    all_flags_of_a_filter_are_given(flags, "on"@, false);
    all_flags_of_a_filter_are_given(flags, "on"@, true);
}

/// Of several dates the last one typed counts.
pub proof fn the_last_date_counts(values: Seq<Seq<char>>, value: Seq<char>)
    ensures
        crate::search_params::latest(values.push(value)) == value,
        crate::search_params::latest(Seq::empty()).len() == 0,
{
}

proof fn splits_at_a_word(words: Seq<Seq<char>>, i: int)
    requires
        0 <= i <= words.len(),
    ensures
        crate::search_params::flags_from(words, i) == crate::search_params::flags_from(
            words.skip(i),
            0,
        ),
        crate::search_params::terms_from(words, i) == crate::search_params::terms_from(
            words.skip(i),
            0,
        ),
    decreases words.len() - i,
{
    let tail = words.skip(i);
    if i == 0 {
        assert(tail == words);
    } else if i < words.len() {
        assert(tail[0] == words[i]);
        if i + 1 < words.len() {
            assert(tail[1] == words[i + 1]);
        }
        let width = if crate::search_params::flag_at(words, i) is Some {
            crate::search_params::flag_width(words[i])
        } else {
            1
        };
        assert(i + width <= words.len());
        splits_at_a_word(words, i + width);
        splits_at_a_word(tail, width);
        assert(tail.skip(width) == words.skip(i + width));
    }
}

/// No term is empty.
pub proof fn terms_are_not_empty(words: Seq<Seq<char>>, from: int)
    requires
        0 <= from,
    ensures
        forall|i: int|
            0 <= i < crate::search_params::terms_from(words, from).len() ==> (
            #[trigger] crate::search_params::terms_from(words, from)[i]).value.len() > 0,
    decreases words.len() - from,
{
    if from < words.len() {
        match crate::search_params::flag_at(words, from) {
            Some(f) => {
                let next = from + crate::search_params::flag_width(words[from]);
                terms_are_not_empty(words, next);
                assert(crate::search_params::terms_from(words, from)
                    == crate::search_params::terms_from(words, next));
            },
            None => {
                terms_are_not_empty(words, from + 1);
                let head = crate::search_params::term_of(words[from]);
                let rest = crate::search_params::terms_from(words, from + 1);
                let all = crate::search_params::terms_from(words, from);
                assert forall|i: int| 0 <= i < all.len() implies (#[trigger] all[i]).value.len()
                    > 0 by {
                    if i >= head.len() {
                        assert(all[i] == rest[i - head.len()]);
                    }
                }
            },
        }
    }
}

/// A flag has one of the seven names and a value.
pub proof fn flags_have_names_and_values(words: Seq<Seq<char>>, from: int)
    requires
        0 <= from,
        forall|i: int| 0 <= i < words.len() ==> #[trigger] words[i].len() > 0,
    ensures
        forall|i: int|
            0 <= i < crate::search_params::flags_from(words, from).len() ==> is_known_flag(
                #[trigger] crate::search_params::flags_from(words, from)[i],
            ),
    decreases words.len() - from,
{
    if from < words.len() {
        match crate::search_params::flag_at(words, from) {
            Some(f) => {
                let next = from + crate::search_params::flag_width(words[from]);
                flags_have_names_and_values(words, next);
                the_flags_are_seven();
                if from + 1 < words.len() {
                    assert(words[from + 1].len() > 0);
                }
                assert(is_known_flag(f)) by {
                    let names = crate::text::views(crate::search_params::SEARCH_FLAGS@);
                    let j = choose|j: int| 0 <= j < names.len() && names[j] == f.name;
                    assert(names.contains(f.name));
                    assert(names[j] == f.name);
                }
                let rest = crate::search_params::flags_from(words, next);
                let all = crate::search_params::flags_from(words, from);
                assert forall|i: int| 0 <= i < all.len() implies is_known_flag(#[trigger] all[i]) by {
                    if i > 0 {
                        assert(all[i] == rest[i - 1]);
                    }
                }
            },
            None => {
                flags_have_names_and_values(words, from + 1);
                assert(crate::search_params::flags_from(words, from)
                    == crate::search_params::flags_from(words, from + 1));
            },
        }
    }
}

/// Whether a flag has one of the names of flags, and a value.
pub open spec fn is_known_flag(flag: Flag) -> bool {
    flag.value.len() > 0 && (flag.name == "from"@ || flag.name == "channel"@ || flag.name == "in"@
        || flag.name == "before"@ || flag.name == "after"@ || flag.name == "on"@ || flag.name
        == "ext"@)
}

/// Every flag filters something.
pub proof fn every_flag_filters(flags: Seq<Flag>)
    requires
        forall|i: int| 0 <= i < flags.len() ==> is_known_flag(#[trigger] flags[i]),
    ensures
        crate::search_params::filters_anything(flags) == (flags.len() > 0),
{
    if flags.len() > 0 {
        let flag = flags.last();
        assert(is_known_flag(flags[flags.len() - 1]));
        let filter = crate::search_params::filter_name(flag.name);
        let values = crate::search_params::given(flags, filter, flag.exclude);
        assert(values.len() > 0 && values.last() == flag.value);
    }
}

/// The flags, by their names.
pub proof fn the_flags_are_seven()
    ensures
        crate::text::views(crate::search_params::SEARCH_FLAGS@) == seq![
            "from"@,
            "channel"@,
            "in"@,
            "before"@,
            "after"@,
            "on"@,
            "ext"@,
        ],
{
    assert(crate::text::views(crate::search_params::SEARCH_FLAGS@) =~= seq![
        "from"@,
        "channel"@,
        "in"@,
        "before"@,
        "after"@,
        "on"@,
        "ext"@,
    ]);
}

/// What a user types for a flag: a hyphen or none, the name, a colon and the value.
pub open spec fn typed_flag(hyphen: bool, name: Seq<char>, value: Seq<char>) -> Seq<char> {
    (if hyphen {
        seq!['-']
    } else {
        Seq::empty()
    }) + name + seq![':'] + value
}

proof fn typed_flags_are_flags(hyphen: bool, name: Seq<char>, value: Seq<char>)
    requires
        !name.contains(':'),
        name.len() > 0 && name[0] != '-',
    ensures
        ({
            let word = typed_flag(hyphen, name, value);
            &&& crate::search_params::flag_name(word) == crate::search_params::folded(name)
            &&& crate::search_params::flag_value(word) == value
            &&& crate::search_params::excludes(word) == hyphen
            &&& crate::search_params::names_flag(word) == crate::text::views(
                crate::search_params::SEARCH_FLAGS@,
            ).contains(crate::search_params::folded(name))
        }),
{
    let word = typed_flag(hyphen, name, value);
    let from: int = if hyphen {
        1
    } else {
        0
    };
    let colon = from + name.len();
    assert(word[colon] == ':');
    assert forall|j: int| 0 <= j < colon implies word[j] != ':' by {
        if j >= from {
            assert(word[j] == name[j - from]);
        }
    }
    crate::text::next_at_is_first(word, ':', 0, colon);
    assert(word[0] == (if hyphen {
        '-'
    } else {
        name[0]
    }));
    assert(word.subrange(from, colon) =~= name);
    assert(word.skip(colon + 1) =~= value);
}

/// A flag with its value is one word: the flag comes first, whatever the case of its name, and the
/// words behind it are looked at as if it were not there. A hyphen in front excludes.
pub proof fn a_flag_takes_its_value(
    words: Seq<Seq<char>>,
    hyphen: bool,
    name: Seq<char>,
    value: Seq<char>,
)
    requires
        !name.contains(':'),
        name.len() > 0 && name[0] != '-',
        crate::text::views(crate::search_params::SEARCH_FLAGS@).contains(
            crate::search_params::folded(name),
        ),
        value.len() > 0,
        words.len() > 0,
        words[0] == typed_flag(hyphen, name, value),
    ensures
        crate::search_params::flags_from(words, 0) == seq![
            Flag { name: crate::search_params::folded(name), value, exclude: hyphen },
        ] + crate::search_params::flags_from(words.skip(1), 0),
        crate::search_params::terms_from(words, 0) == crate::search_params::terms_from(
            words.skip(1),
            0,
        ),
{
    typed_flags_are_flags(hyphen, name, value);
    splits_at_a_word(words, 1);
}

/// A flag without a value takes the word behind it.
pub proof fn a_flag_takes_the_next_word(words: Seq<Seq<char>>, hyphen: bool, name: Seq<char>)
    requires
        !name.contains(':'),
        name.len() > 0 && name[0] != '-',
        crate::text::views(crate::search_params::SEARCH_FLAGS@).contains(
            crate::search_params::folded(name),
        ),
        words.len() > 1,
        words[0] == typed_flag(hyphen, name, Seq::empty()),
    ensures
        crate::search_params::flags_from(words, 0) == seq![
            Flag { name: crate::search_params::folded(name), value: words[1], exclude: hyphen },
        ] + crate::search_params::flags_from(words.skip(2), 0),
        crate::search_params::terms_from(words, 0) == crate::search_params::terms_from(
            words.skip(2),
            0,
        ),
{
    typed_flags_are_flags(hyphen, name, Seq::empty());
    splits_at_a_word(words, 2);
}

/// A word that names no flag is a term, and so is the name of a flag with nothing behind it; the
/// words behind it are looked at as if it were not there.
pub proof fn other_words_are_terms(words: Seq<Seq<char>>)
    requires
        words.len() > 0,
        !words[0].contains(':') || words.len() == 1 && words[0].last() == ':' && !words[0].drop_last().contains(
            ':',
        ),
    ensures
        crate::search_params::flags_from(words, 0) == crate::search_params::flags_from(
            words.skip(1),
            0,
        ),
        crate::search_params::terms_from(words, 0) == crate::search_params::term_of(words[0])
            + crate::search_params::terms_from(words.skip(1), 0),
{
    let word = words[0];
    if !word.contains(':') {
        crate::text::next_at_is_first(word, ':', 0, word.len() as int);
    } else {
        let colon = word.len() - 1;
        assert forall|j: int| 0 <= j < colon implies word[j] != ':' by {
            assert(word.drop_last()[j] == word[j]);
        }
        crate::text::next_at_is_first(word, ':', 0, colon);
        assert(word.skip(colon + 1).len() == 0);
    }
    splits_at_a_word(words, 1);
}

/// A word with a colon whose name is none of the flags is a term too.
pub proof fn unknown_flags_are_terms(
    words: Seq<Seq<char>>,
    hyphen: bool,
    name: Seq<char>,
    value: Seq<char>,
)
    requires
        !name.contains(':'),
        name.len() > 0 && name[0] != '-',
        !crate::text::views(crate::search_params::SEARCH_FLAGS@).contains(
            crate::search_params::folded(name),
        ),
        words.len() > 0,
        words[0] == typed_flag(hyphen, name, value),
    ensures
        crate::search_params::flags_from(words, 0) == crate::search_params::flags_from(
            words.skip(1),
            0,
        ),
        crate::search_params::terms_from(words, 0) == crate::search_params::term_of(words[0])
            + crate::search_params::terms_from(words.skip(1), 0),
{
    typed_flags_are_flags(hyphen, name, value);
    splits_at_a_word(words, 1);
}

/// Whether two characters are the same but for the case of a letter of ASCII.
pub open spec fn same_letter(a: char, b: char) -> bool {
    ||| a == b
    ||| 'A' <= a <= 'Z' && b as int == a as int + 32
    ||| 'A' <= b <= 'Z' && a as int == b as int + 32
}

proof fn letters_fold_alike(a: char, b: char)
    ensures
        (crate::search_params::ascii_lower(a) == crate::search_params::ascii_lower(b)) == same_letter(
            a,
            b,
        ),
{
    let x = crate::search_params::ascii_lower(a);
    let y = crate::search_params::ascii_lower(b);
    assert('A' <= a <= 'Z' ==> x as int == a as int + 32);
    assert('A' <= b <= 'Z' ==> y as int == b as int + 32);
    assert((x == y) == (x as int == y as int));
}

/// Names that differ in the case of letters of ASCII alone are the same, and no others are.
pub proof fn case_does_not_matter(a: Seq<char>, b: Seq<char>)
    requires
        a.len() == b.len(),
    ensures
        (crate::search_params::folded(a) == crate::search_params::folded(b)) == (forall|i: int|
            0 <= i < a.len() ==> same_letter(#[trigger] a[i], b[i])),
        crate::search_params::folded(a).len() == a.len(),
{
    let x = crate::search_params::folded(a);
    let y = crate::search_params::folded(b);
    assert forall|i: int| 0 <= i < a.len() implies (x[i] == y[i]) == same_letter(
        #[trigger] a[i],
        b[i],
    ) by {
        letters_fold_alike(a[i], b[i]);
    }
    if forall|i: int| 0 <= i < a.len() ==> same_letter(#[trigger] a[i], b[i]) {
        assert forall|i: int| 0 <= i < x.len() implies x[i] == y[i] by {
            assert(same_letter(a[i], b[i]));
        }
        assert(x =~= y);
    }
}

// ---------------------------------------------------------------------------------------------
// Trimming
// ---------------------------------------------------------------------------------------------

proof fn drops_at_start(a: Seq<char>, b: Seq<char>, drop: spec_fn(char) -> bool)
    requires
        forall|i: int| 0 <= i < a.len() ==> drop(#[trigger] a[i]),
        b.len() == 0 || !drop(b[0]),
    ensures
        crate::pattern::drop_start(a + b, drop) == b,
    decreases a.len(),
{
    if a.len() > 0 {
        assert((a + b)[0] == a[0]);
        assert((a + b).skip(1) == a.skip(1) + b);
        drops_at_start(a.skip(1), b, drop);
    } else {
        assert(a + b == b);
    }
}

proof fn drops_at_end(a: Seq<char>, b: Seq<char>, drop: spec_fn(char) -> bool)
    requires
        forall|i: int| 0 <= i < b.len() ==> drop(#[trigger] b[i]),
        a.len() == 0 || !drop(a.last()),
    ensures
        crate::pattern::drop_end(a + b, drop) == a,
    decreases b.len(),
{
    if b.len() > 0 {
        assert((a + b).last() == b[b.len() - 1]);
        assert((a + b).drop_last() == a + b.drop_last());
        drops_at_end(a, b.drop_last(), drop);
    } else {
        assert(a + b == a);
    }
}

/// Punctuation around a term goes, the term stays: one that begins and ends with what is not
/// stripped, and does not begin with several hashes, is found again in whatever stands around it.
pub proof fn terms_are_found_in_punctuation(front: Seq<char>, term: Seq<char>, back: Seq<char>)
    requires
        forall|i: int|
            0 <= i < front.len() ==> crate::pattern::strips_at_start(#[trigger] front[i]),
        forall|i: int| 0 <= i < back.len() ==> crate::pattern::strips_at_end(#[trigger] back[i]),
        term.len() > 0,
        !crate::pattern::strips_at_start(term[0]),
        !crate::pattern::strips_at_end(term.last()),
        !(term.len() > 1 && term[0] == '#' && term[1] == '#'),
    ensures
        crate::search_params::trimmed_term(front + term + back) == term,
        crate::search_params::term_of(front + term + back) == seq![
            Term { value: term, exclude: front.len() > 0 && front[0] == '-' },
        ],
{
    let at_start = |c: char| crate::pattern::strips_at_start(c);
    let at_end = |c: char| crate::pattern::strips_at_end(c);
    let word = front + term + back;
    assert(word =~= front + (term + back));
    assert((term + back)[0] == term[0]);
    drops_at_start(front, term + back, at_start);
    drops_at_end(term, back, at_end);
    assert(crate::search_params::trimmed_term(word) == term);
    if front.len() > 0 {
        assert(word[0] == front[0]);
    } else {
        assert(word[0] == term[0]);
    }
}

/// Several hashes in front of a term count as one.
pub proof fn hashes_count_once(hashes: nat, term: Seq<char>)
    requires
        hashes > 0,
        term.len() > 0,
        term[0] != '#',
        !crate::pattern::strips_at_end(term.last()),
    ensures
        crate::search_params::trimmed_term(Seq::new(hashes, |i: int| '#') + term) == seq!['#'] + term,
{
    let at_start = |c: char| crate::pattern::strips_at_start(c);
    let at_end = |c: char| crate::pattern::strips_at_end(c);
    let front = Seq::new(hashes, |i: int| '#');
    let word = front + term;
    let none = Seq::<char>::empty();
    assert(word[0] == '#');
    drops_at_start(none, word, at_start);
    assert(none + word == word);
    drops_at_end(word, none, at_end);
    assert(word + none == word);
    drops_at_start(front, term, |c: char| c == '#');
    if hashes >= 2 {
        assert(word[1] == '#');
    } else {
        assert(word =~= seq!['#'] + term);
        assert(word[1] == term[0]);
    }
}

// ---------------------------------------------------------------------------------------------
// Dates
// ---------------------------------------------------------------------------------------------

/// The digit of a number below ten.
pub open spec fn digit(n: int) -> char {
    (48 + n) as char
}

/// A month or a day as a user types it: two digits, or the one that is needed.
pub open spec fn typed_part(n: int, zero: bool) -> Seq<char> {
    if zero || n >= 10 {
        seq![digit(n / 10), digit(n % 10)]
    } else {
        seq![digit(n)]
    }
}

/// A date as a user types it, with or without zeros in front of the month and the day.
pub open spec fn typed_date(
    year: int,
    month: int,
    day: int,
    month_zero: bool,
    day_zero: bool,
) -> Seq<char> {
    seq![digit(year / 1000), digit((year / 100) % 10), digit((year / 10) % 10), digit(year % 10)]
        + seq!['-'] + typed_part(month, month_zero) + seq!['-'] + typed_part(day, day_zero)
}

proof fn one_piece(s: Seq<char>, sep: char)
    requires
        !s.contains(sep),
    ensures
        crate::text::split_on(s, sep) == seq![s],
    decreases s.len(),
{
    if s.len() > 0 {
        assert forall|i: int| 0 <= i < s.len() - 1 implies s.drop_last()[i] != sep by {
            assert(s.contains(s[i]));
        }
        assert(s.contains(s[s.len() - 1]));
        one_piece(s.drop_last(), sep);
        assert(s.drop_last().push(s.last()) == s);
        assert(crate::text::split_on(s, sep) =~= seq![s]);
    } else {
        assert(s =~= Seq::<char>::empty());
    }
}

proof fn dates_are_padded(
    year: int,
    month: int,
    day: int,
    month_zero: bool,
    day_zero: bool,
)
    requires
        0 <= year <= 9999,
        0 <= month < 100,
        0 <= day < 100,
    ensures
        crate::utils::padded_date(typed_date(year, month, day, month_zero, day_zero)) == typed_date(
            year,
            month,
            day,
            true,
            true,
        ),
{
    reveal_strlit("-");
    let y = seq![
        digit(year / 1000),
        digit((year / 100) % 10),
        digit((year / 10) % 10),
        digit(year % 10),
    ];
    let m = typed_part(month, month_zero);
    let d = typed_part(day, day_zero);
    let text = typed_date(year, month, day, month_zero, day_zero);
    assert(!y.contains('-'));
    assert(!m.contains('-'));
    assert(!d.contains('-'));
    one_piece(y, '-');
    crate::text::split_behind_separator(y, '-', m);
    let ym = y.push('-') + m;
    crate::text::split_behind_separator(ym, '-', d);
    assert(text =~= ym.push('-') + d);
    let pieces = crate::text::split_on(text, '-');
    assert(pieces =~= seq![y, m, d]);
    let padded = pieces.map_values(|part: Seq<char>| crate::utils::padded_part(part));
    let mm = typed_part(month, true);
    let dd = typed_part(day, true);
    assert(crate::utils::padded_part(m) =~= mm);
    assert(crate::utils::padded_part(d) =~= dd);
    assert(crate::utils::padded_part(y) == y);
    assert(padded =~= seq![y, mm, dd]);
    assert(padded.drop_last() =~= seq![y, mm]);
    assert(padded.drop_last().drop_last() =~= seq![y]);
    assert(crate::text::join(seq![y], "-"@) == y);
    assert(crate::text::join(seq![y, mm], "-"@) == y + "-"@ + mm);
    assert("-"@ =~= seq!['-']);
    assert(crate::text::join(padded, "-"@) =~= typed_date(year, month, day, true, true));
}

/// A date is read as it is typed, with or without zeros in front of the month and the day; what the
/// calendar does not have is no date.
pub proof fn typed_dates_are_read(
    year: int,
    month: int,
    day: int,
    month_zero: bool,
    day_zero: bool,
)
    requires
        0 <= year <= 9999,
        0 <= month < 100,
        0 <= day < 100,
    ensures
        crate::search_params::typed_day(typed_date(year, month, day, month_zero, day_zero))
            == if crate::calendar::is_date(year, month, day) {
            Some(crate::calendar::day_number(year, month, day))
        } else {
            None
        },
{
    dates_are_padded(year, month, day, month_zero, day_zero);
    let s = typed_date(year, month, day, true, true);
    assert(s =~= seq![
        digit(year / 1000),
        digit((year / 100) % 10),
        digit((year / 10) % 10),
        digit(year % 10),
        '-',
        digit(month / 10),
        digit(month % 10),
        '-',
        digit(day / 10),
        digit(day % 10),
    ]);
    reveal_with_fuel(crate::calendar::number_at, 5);
    assert(crate::calendar::number_at(s, 0, 4) == year);
    assert(crate::calendar::number_at(s, 5, 7) == month);
    assert(crate::calendar::number_at(s, 8, 10) == day);
}

/// The bounds of a date are those of the day on clocks at the offset, which is counted eastwards:
/// the clocks show its midnight at the first instant and its last millisecond at the last one. What
/// comes before ends right before, and what comes after begins right after.
pub proof fn bounds_are_those_of_the_day(value: Seq<char>, offset: int, today: int)
    requires
        crate::search_params::typed_day(value) is Some,
        MIN_DAY < crate::search_params::typed_day(value)->0 < MAX_DAY,
        -1_000_000_000_000_000 <= offset <= 1_000_000_000_000_000,
    ensures
        ({
            let midnight = (crate::search_params::typed_day(value)->0 - EPOCH_DAY) * 86400000;
            let (first, last) = crate::search_params::on_bounds(value, offset);
            &&& first + 1000 * offset == midnight
            &&& last + 1000 * offset == midnight + 86400000 - 1
            &&& crate::search_params::before_bound(value, offset) + 1000 * offset == midnight - 1
            &&& crate::search_params::after_bound(value, offset, today) + 1000 * offset == midnight
                + 86400000
        }),
{
}

/// Moving the clocks eastwards by some seconds moves all bounds back by as much.
pub proof fn bounds_move_with_the_clocks(value: Seq<char>, offset: int, seconds: int, today: int)
    requires
        crate::search_params::typed_day(value) is Some,
        MIN_DAY < crate::search_params::typed_day(value)->0 < MAX_DAY,
        -1_000_000_000_000_000 <= offset <= 1_000_000_000_000_000,
        -1_000_000_000_000_000 <= offset + seconds <= 1_000_000_000_000_000,
    ensures
        ({
            let here = crate::search_params::on_bounds(value, offset);
            let there = crate::search_params::on_bounds(value, offset + seconds);
            &&& there.0 == here.0 - 1000 * seconds
            &&& there.1 == here.1 - 1000 * seconds
            &&& crate::search_params::before_bound(value, offset + seconds)
                == crate::search_params::before_bound(value, offset) - 1000 * seconds
            &&& crate::search_params::after_bound(value, offset + seconds, today)
                == crate::search_params::after_bound(value, offset, today) - 1000 * seconds
        }),
{
    bounds_are_those_of_the_day(value, offset, today);
    bounds_are_those_of_the_day(value, offset + seconds, today);
}

/// At the bounds of a date, clocks at the offset show that date, at midnight and a millisecond before
/// the next midnight.
pub proof fn clocks_show_the_date_at_its_bounds(
    value: Seq<char>,
    offset: int,
    year: int,
    month: int,
    day: int,
)
    requires
        crate::calendar::is_date(year, month, day),
        crate::search_params::typed_day(value) == Some(
            crate::calendar::day_number(year, month, day),
        ),
        MIN_DAY < crate::calendar::day_number(year, month, day) < MAX_DAY,
        -1_000_000_000_000_000 <= offset <= 1_000_000_000_000_000,
    ensures
        crate::search_params::on_bounds(value, offset) == (
            crate::timeutils::stamp_millis(
                crate::timeutils::Stamp { year, month, day, second: 0, millis: 0, offset },
            ),
            crate::timeutils::stamp_millis(
                crate::timeutils::Stamp { year, month, day, second: 86399, millis: 999, offset },
            ),
        ),
{
    bounds_are_those_of_the_day(value, offset, 0);
}

/// What is no date counts as today where instants after it are wanted, and gives zeros elsewhere.
pub proof fn no_date_is_today(value: Seq<char>, offset: int, today: int)
    requires
        crate::search_params::typed_day(value) is None,
        MIN_DAY <= today < MAX_DAY,
        -1_000_000_000_000_000 <= offset <= 1_000_000_000_000_000,
    ensures
        crate::search_params::after_bound(value, offset, today) + 1000 * offset == (today + 1
            - EPOCH_DAY) * 86400000,
        crate::search_params::before_bound(value, offset) == 0,
        crate::search_params::on_bounds(value, offset) == (0int, 0int),
{
}

} // verus!
