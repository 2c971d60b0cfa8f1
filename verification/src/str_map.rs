//! An ordered map from strings.
//!
//! The entries are kept in one vector, in increasing order of their keys and with no key twice, so
//! the map has one listing and its wire form is the same wherever it is written.

use vstd::prelude::*;

use crate::text::{same, to_chars};

verus! {

/// Strict lexicographic order by code point, which is also the order of the UTF-8 encodings.
pub open spec fn lex_lt(a: Seq<char>, b: Seq<char>) -> bool
    decreases a.len(),
{
    if b.len() == 0 {
        false
    } else if a.len() == 0 {
        true
    } else {
        a[0] < b[0] || (a[0] == b[0] && lex_lt(a.skip(1), b.skip(1)))
    }
}

proof fn lemma_lex_irreflexive(a: Seq<char>)
    ensures
        !lex_lt(a, a),
    decreases a.len(),
{
    if a.len() > 0 {
        lemma_lex_irreflexive(a.skip(1));
    }
}

/// What comes before a text also comes before the texts after it.
pub proof fn lemma_lex_transitive(a: Seq<char>, b: Seq<char>, c: Seq<char>)
    requires
        lex_lt(a, b),
        lex_lt(b, c),
    ensures
        lex_lt(a, c),
    decreases a.len(),
{
    if a.len() > 0 && a[0] == b[0] && b[0] == c[0] {
        lemma_lex_transitive(a.skip(1), b.skip(1), c.skip(1));
    }
}

proof fn lemma_lex_total(a: Seq<char>, b: Seq<char>)
    ensures
        a == b || lex_lt(a, b) || lex_lt(b, a),
    decreases a.len(),
{
    if a.len() == 0 && b.len() == 0 {
        assert(a == b);
    } else if a.len() > 0 && b.len() > 0 && a[0] == b[0] {
        lemma_lex_total(a.skip(1), b.skip(1));
        if a.skip(1) == b.skip(1) {
            assert(a.skip(1).len() == a.len() - 1);
            assert(b.skip(1).len() == b.len() - 1);
            assert forall|i: int| 0 <= i < a.len() implies a[i] == b[i] by {
                if i > 0 {
                    assert(a.skip(1)[i - 1] == b.skip(1)[i - 1]);
                }
            }
            assert(a == b);
        }
    }
}

/// Whether one string comes before another.
pub fn comes_before(a: &str, b: &str) -> (r: bool)
    ensures
        r == lex_lt(a@, b@),
{
    let x: Vec<char> = to_chars(a);
    let y: Vec<char> = to_chars(b);
    let mut i: usize = 0;
    assert(a@.skip(0) == a@);
    assert(b@.skip(0) == b@);
    while i < x.len() && i < y.len()
        invariant
            x@ == a@,
            y@ == b@,
            i <= x@.len(),
            i <= y@.len(),
            lex_lt(a@, b@) == lex_lt(a@.skip(i as int), b@.skip(i as int)),
        decreases x@.len() - i,
    {
        assert(a@.skip(i as int).skip(1) == a@.skip(i + 1));
        assert(b@.skip(i as int).skip(1) == b@.skip(i + 1));
        if x[i] < y[i] {
            return true;
        }
        if y[i] < x[i] {
            return false;
        }
        i = i + 1;
    }
    i < y.len()
}

/// A map from strings to `V`.
#[derive(Debug, PartialEq, Eq)]
pub struct StrMap<V> {
    entries: Vec<(String, V)>,
}

/// Text by text.
pub type StringMap = StrMap<String>;

/// The keys of a listing strictly increase.
pub open spec fn increasing<V>(list: Seq<(Seq<char>, V)>) -> bool {
    forall|i: int, j: int| 0 <= i < j < list.len() ==> lex_lt((#[trigger] list[i]).0, (#[trigger] list[j]).0)
}

/// The position of a key in a listing.
pub open spec fn has_key<V>(list: Seq<(Seq<char>, V)>, key: Seq<char>) -> bool {
    exists|i: int| 0 <= i < list.len() && (#[trigger] list[i]).0 == key
}

/// The map that a listing stands for.
pub open spec fn list_map<V>(list: Seq<(Seq<char>, V)>) -> Map<Seq<char>, V>
    decreases list.len(),
{
    if list.len() == 0 {
        Map::empty()
    } else {
        list_map(list.drop_last()).insert(list.last().0, list.last().1)
    }
}

proof fn lemma_list_map<V>(list: Seq<(Seq<char>, V)>)
    requires
        increasing(list),
    ensures
        forall|k: Seq<char>| #[trigger] list_map(list).dom().contains(k) <==> has_key(list, k),
        forall|i: int| 0 <= i < list.len() ==> list_map(list)[(#[trigger] list[i]).0] == list[i].1,
        list_map(list).dom().finite(),
        list_map(list).dom().len() == list.len(),
    decreases list.len(),
{
    if list.len() > 0 {
        let rest = list.drop_last();
        lemma_list_map(rest);
        let last = list.last();
        assert forall|i: int| 0 <= i < rest.len() implies (#[trigger] rest[i]).0 != last.0 by {
            assert(lex_lt(list[i].0, list[list.len() - 1].0));
            lemma_lex_irreflexive(last.0);
        }
        assert(!has_key(rest, last.0));
        assert forall|k: Seq<char>| #[trigger] list_map(list).dom().contains(k) <==> has_key(list, k) by {
            if has_key(list, k) {
                let i = choose|i: int| 0 <= i < list.len() && (#[trigger] list[i]).0 == k;
                if i < rest.len() {
                    assert(rest[i].0 == k);
                    assert(has_key(rest, k));
                }
            }
            if has_key(rest, k) {
                let i = choose|i: int| 0 <= i < rest.len() && (#[trigger] rest[i]).0 == k;
                assert(list[i].0 == k);
            }
            assert(list[list.len() - 1].0 == last.0);
        }
        assert forall|i: int| 0 <= i < list.len() implies list_map(list)[(#[trigger] list[i]).0]
            == list[i].1 by {
            if i < rest.len() {
                assert(rest[i] == list[i]);
            }
        }
    }
}

impl<V> StrMap<V> {
    /// The entries in the order of their keys.
    pub closed spec fn list(self) -> Seq<(Seq<char>, V)> {
        self.entries@.map_values(|e: (String, V)| (e.0@, e.1))
    }

    #[verifier::type_invariant]
    spec fn sorted(self) -> bool {
        increasing(self.list())
    }
}

impl<V> View for StrMap<V> {
    type V = Map<Seq<char>, V>;

    open spec fn view(&self) -> Map<Seq<char>, V> {
        list_map(self.list())
    }
}

impl<V> StrMap<V> {
    /// The map with no entry.
    pub fn new() -> (m: Self)
        ensures
            m@ == Map::<Seq<char>, V>::empty(),
            m.list() == Seq::<(Seq<char>, V)>::empty(),
    {
        let m = StrMap { entries: Vec::new() };
        assert(m.list() == Seq::<(Seq<char>, V)>::empty());
        m
    }

    /// How many entries there are.
    pub fn len(&self) -> (n: usize)
        ensures
            n == self@.dom().len(),
            self@.dom().finite(),
            n == self.list().len(),
            increasing(self.list()),
    {
        proof {
            use_type_invariant(self);
            lemma_list_map(self.list());
        }
        self.entries.len()
    }

    /// Whether there is no entry.
    pub fn is_empty(&self) -> (r: bool)
        ensures
            r == (self@ == Map::<Seq<char>, V>::empty()),
            r == (self.list().len() == 0),
    {
        proof {
            use_type_invariant(self);
            lemma_list_map(self.list());
            if self.list().len() > 0 {
                assert(self.list()[0].0 == self.list()[0].0);
                assert(has_key(self.list(), self.list()[0].0));
                assert(self@.dom().contains(self.list()[0].0));
            } else {
                assert(self@ == Map::<Seq<char>, V>::empty());
            }
        }
        self.entries.len() == 0
    }

    /// The first position whose key does not come before `key`.
    fn position(&self, key: &str) -> (at: usize)
        ensures
            at <= self.entries@.len(),
            forall|i: int| 0 <= i < at ==> lex_lt((#[trigger] self.list()[i]).0, key@),
            at < self.entries@.len() ==> !lex_lt(self.list()[at as int].0, key@),
    {
        let mut i: usize = 0;
        while i < self.entries.len()
            invariant
                i <= self.entries@.len(),
                forall|j: int| 0 <= j < i ==> lex_lt((#[trigger] self.list()[j]).0, key@),
            decreases self.entries@.len() - i,
        {
            assert(self.list()[i as int].0 == self.entries@[i as int].0@);
            if !comes_before(self.entries[i].0.as_str(), key) {
                return i;
            }
            i = i + 1;
        }
        i
    }

    /// The value under `key`.
    pub fn get(&self, key: &str) -> (r: Option<&V>)
        ensures
            match r {
                Some(v) => self@.dom().contains(key@) && self@[key@] == *v,
                None => !self@.dom().contains(key@),
            },
    {
        proof {
            use_type_invariant(self);
            lemma_list_map(self.list());
        }
        let at: usize = self.position(key);
        if at < self.entries.len() && same(self.entries[at].0.as_str(), key) {
            assert(self.list()[at as int].0 == key@);
            Some(&self.entries[at].1)
        } else {
            proof {
                assert forall|i: int| 0 <= i < self.list().len() implies (#[trigger] self.list()[i]).0
                    != key@ by {
                    if i < at {
                        lemma_lex_irreflexive(key@);
                    } else if i == at {
                        assert(self.list()[i].0 == self.entries@[i].0@);
                    } else {
                        lemma_lex_total(self.list()[at as int].0, key@);
                        assert(self.list()[at as int].0 == self.entries@[at as int].0@);
                        assert(lex_lt(self.list()[at as int].0, self.list()[i].0));
                        if self.list()[i].0 == key@ {
                            assert(false);
                        }
                    }
                }
                assert(!has_key(self.list(), key@));
            }
            None
        }
    }

    /// Whether there is an entry under `key`.
    pub fn contains_key(&self, key: &str) -> (r: bool)
        ensures
            r == self@.dom().contains(key@),
    {
        self.get(key).is_some()
    }

    /// Puts `value` under `key`, in place of what was there.
    pub fn insert(&mut self, key: String, value: V)
        ensures
            final(self)@ == old(self)@.insert(key@, value),
    {
        proof {
            use_type_invariant(&*self);
            lemma_list_map(self.list());
        }
        let ghost before = self.list();
        let at: usize = self.position(key.as_str());
        let mut entries: Vec<(String, V)> = Vec::new();
        std::mem::swap(&mut entries, &mut self.entries);
        let ghost old_entries = entries@;
        assert(before == old_entries.map_values(|e: (String, V)| (e.0@, e.1)));
        let ghost k = key@;
        let ghost v = value;
        if at < entries.len() && same(entries[at].0.as_str(), key.as_str()) {
            assert(before[at as int].0 == old_entries[at as int].0@);
            entries.set(at, (key, value));
            let ghost after = entries@.map_values(|e: (String, V)| (e.0@, e.1));
            proof {
                assert(after == before.update(at as int, (k, v)));
                assert(increasing(after)) by {
                    assert forall|i: int, j: int| 0 <= i < j < after.len() implies lex_lt(
                        (#[trigger] after[i]).0,
                        (#[trigger] after[j]).0,
                    ) by {
                        assert(lex_lt(before[i].0, before[j].0));
                    }
                }
                lemma_insert_view(before, after, at as int, k, v);
            }
            self.entries = entries;
            assert(self.list() == after);
        } else {
            proof {
                if at < before.len() {
                    assert(before[at as int].0 == old_entries[at as int].0@);
                    lemma_lex_total(before[at as int].0, k);
                }
            }
            entries.insert(at, (key, value));
            let ghost after = entries@.map_values(|e: (String, V)| (e.0@, e.1));
            proof {
                assert(after == before.insert(at as int, (k, v)));
                assert(increasing(after)) by {
                    assert forall|i: int, j: int| 0 <= i < j < after.len() implies lex_lt(
                        (#[trigger] after[i]).0,
                        (#[trigger] after[j]).0,
                    ) by {
                        if i < at && j > at {
                            assert(lex_lt(before[i].0, before[j - 1].0));
                        } else if i < at && j < at {
                            assert(lex_lt(before[i].0, before[j].0));
                        } else if i > at {
                            assert(lex_lt(before[i - 1].0, before[j - 1].0));
                        } else if i == at {
                            if j - 1 > at {
                                assert(lex_lt(before[at as int].0, before[j - 1].0));
                                lemma_lex_transitive(k, before[at as int].0, before[j - 1].0);
                            }
                        }
                    }
                }
                lemma_insert_view(before, after, at as int, k, v);
            }
            self.entries = entries;
            assert(self.list() == after);
        }
    }

    /// Removes the entry under `key`, if there is one.
    pub fn remove(&mut self, key: &str)
        ensures
            final(self)@ == old(self)@.remove(key@),
    {
        proof {
            use_type_invariant(&*self);
            lemma_list_map(self.list());
        }
        let ghost before = self.list();
        let present: bool = self.contains_key(key);
        if !present {
            assert(self@ == self@.remove(key@));
            return ;
        }
        let at: usize = self.position(key);
        proof {
            assert(has_key(before, key@));
            let i = choose|i: int| 0 <= i < before.len() && (#[trigger] before[i]).0 == key@;
            lemma_lex_irreflexive(key@);
            if i > at {
                assert(lex_lt(before[at as int].0, before[i].0));
            }
            assert(i == at);
        }
        let mut entries: Vec<(String, V)> = Vec::new();
        std::mem::swap(&mut entries, &mut self.entries);
        let ghost old_entries = entries@;
        entries.remove(at);
        let ghost after = entries@.map_values(|e: (String, V)| (e.0@, e.1));
        proof {
            assert(after == before.remove(at as int));
            assert(increasing(after)) by {
                assert forall|i: int, j: int| 0 <= i < j < after.len() implies lex_lt(
                    (#[trigger] after[i]).0,
                    (#[trigger] after[j]).0,
                ) by {
                    let i2 = if i < at { i } else { i + 1 };
                    let j2 = if j < at { j } else { j + 1 };
                    assert(lex_lt(before[i2].0, before[j2].0));
                }
            }
            lemma_remove_view(before, after, at as int, key@);
        }
        self.entries = entries;
        assert(self.list() == after);
    }

    /// The key at a position of the listing.
    pub fn key_at(&self, i: usize) -> (k: &str)
        requires
            i < self.list().len(),
        ensures
            k@ == self.list()[i as int].0,
    {
        self.entries[i].0.as_str()
    }

    /// The value at a position of the listing.
    pub fn value_at(&self, i: usize) -> (v: &V)
        requires
            i < self.list().len(),
        ensures
            *v == self.list()[i as int].1,
    {
        &self.entries[i].1
    }
}

impl<V: Clone> Clone for StrMap<V> {
    fn clone(&self) -> (m: Self)
        ensures
            is_clone_of(m, *self),
            increasing(m.list()),
            increasing(self.list()),
    {
        proof {
            use_type_invariant(self);
        }
        let mut entries: Vec<(String, V)> = Vec::new();
        let mut i: usize = 0;
        while i < self.entries.len()
            invariant
                i <= self.entries@.len(),
                entries@.len() == i,
                forall|j: int|
                    0 <= j < i ==> (#[trigger] entries@[j]).0@ == self.entries@[j].0@ && cloned::<V>(
                        self.entries@[j].1,
                        entries@[j].1,
                    ),
            decreases self.entries@.len() - i,
        {
            entries.push((self.entries[i].0.clone(), self.entries[i].1.clone()));
            i = i + 1;
        }
        let ghost list = entries@.map_values(|e: (String, V)| (e.0@, e.1));
        assert forall|a: int, b: int| 0 <= a < b < list.len() implies lex_lt(
            (#[trigger] list[a]).0,
            (#[trigger] list[b]).0,
        ) by {
            assert(lex_lt(self.list()[a].0, self.list()[b].0));
        }
        let m = StrMap { entries };
        assert(m.list() == list);
        m
    }
}

impl<V> Default for StrMap<V> {
    fn default() -> (m: Self)
        ensures
            m@ == Map::<Seq<char>, V>::empty(),
    {
        Self::new()
    }
}

/// The texts of a map of texts.
pub open spec fn texts(m: Map<Seq<char>, String>) -> Map<Seq<char>, Seq<char>> {
    m.map_values(|s: String| s@)
}

/// The texts of an optional map of texts.
pub open spec fn opt_texts(m: Option<StringMap>) -> Option<Map<Seq<char>, Seq<char>>> {
    match m {
        Some(x) => Some(texts(x@)),
        None => None,
    }
}

/// The texts of an optional map of texts, none where there is no map.
pub open spec fn texts_or_empty(m: Option<StringMap>) -> Map<Seq<char>, Seq<char>> {
    match m {
        Some(x) => texts(x@),
        None => Map::empty(),
    }
}

/// Puts a text under a key.
pub fn insert_text(m: &mut StringMap, key: &str, value: &str)
    ensures
        texts(final(m)@) == texts(old(m)@).insert(key@, value@),
{
    let v: String = value.to_owned();
    m.insert(key.to_owned(), v);
    assert(texts(m@) == texts(old(m)@).insert(key@, value@));
}

/// An empty map of texts.
pub fn new_string_map() -> (m: StringMap)
    ensures
        texts(m@) == Map::<Seq<char>, Seq<char>>::empty(),
        m@ == Map::<Seq<char>, String>::empty(),
{
    let m: StringMap = StrMap::new();
    assert(texts(m@) == Map::<Seq<char>, Seq<char>>::empty());
    m
}

/// A copy of a map of texts.
pub fn clone_string_map(m: &StringMap) -> (r: StringMap)
    ensures
        r.list() == m.list(),
        r@ == m@,
{
    let r: StringMap = m.clone();
    assert forall|i: int| 0 <= i < r.list().len() implies r.list()[i] == m.list()[i] by {
        assert(cloned::<String>(m.list()[i].1, r.list()[i].1));
    }
    assert(r.list() == m.list());
    r
}

/// A clone has the same keys, with values that are clones.
pub open spec fn is_clone_of<V: Clone>(new: StrMap<V>, old: StrMap<V>) -> bool {
    &&& new.list().len() == old.list().len()
    &&& forall|i: int|
        0 <= i < new.list().len() ==> (#[trigger] new.list()[i]).0 == old.list()[i].0 && cloned::<V>(
            old.list()[i].1,
            new.list()[i].1,
        )
}

/// A copy of an optional map of texts.
pub fn clone_opt_string_map(m: &Option<StringMap>) -> (r: Option<StringMap>)
    ensures
        opt_list(r) == opt_list(*m),
        opt_texts(r) == opt_texts(*m),
{
    match m {
        Some(x) => Some(clone_string_map(x)),
        None => None,
    }
}

/// The listing of an optional map.
pub open spec fn opt_list<V>(m: Option<StrMap<V>>) -> Option<Seq<(Seq<char>, V)>> {
    match m {
        Some(x) => Some(x.list()),
        None => None,
    }
}

/// Two listings with the same keys and with values that `f` takes to the same make the same map
/// under `f`.
pub proof fn same_listing_same_map<V, W>(
    a: Seq<(Seq<char>, V)>,
    b: Seq<(Seq<char>, V)>,
    f: spec_fn(V) -> W,
)
    requires
        a.len() == b.len(),
        forall|i: int|
            0 <= i < a.len() ==> (#[trigger] a[i]).0 == b[i].0 && f(a[i].1) == f(b[i].1),
    ensures
        list_map(a).map_values(f) == list_map(b).map_values(f),
    decreases a.len(),
{
    if a.len() > 0 {
        same_listing_same_map(a.drop_last(), b.drop_last(), f);
        let x = list_map(a.drop_last()).map_values(f);
        let y = list_map(b.drop_last()).map_values(f);
        assert(list_map(a).map_values(f) =~= x.insert(a.last().0, f(a.last().1)));
        assert(list_map(b).map_values(f) =~= y.insert(b.last().0, f(b.last().1)));
        assert(a[a.len() - 1].0 == b[a.len() - 1].0);
    } else {
        assert(list_map(a).map_values(f) =~= list_map(b).map_values(f));
    }
}

proof fn lemma_insert_view<V>(
    before: Seq<(Seq<char>, V)>,
    after: Seq<(Seq<char>, V)>,
    at: int,
    k: Seq<char>,
    v: V,
)
    requires
        increasing(before),
        increasing(after),
        0 <= at <= before.len(),
        after == before.insert(at, (k, v)) || (at < before.len() && before[at].0 == k && after
            == before.update(at, (k, v))),
    ensures
        list_map(after) == list_map(before).insert(k, v),
{
    lemma_list_map(before);
    lemma_list_map(after);
    let m = list_map(before).insert(k, v);
    assert(after[at] == (k, v));
    assert forall|x: Seq<char>| #[trigger] list_map(after).dom().contains(x) <==> m.dom().contains(x) by {
        if has_key(after, x) {
            let i = choose|i: int| 0 <= i < after.len() && (#[trigger] after[i]).0 == x;
            if x != k {
                let j = if i < at || after.len() == before.len() { i } else { i - 1 };
                assert(before[j].0 == x);
            }
        }
        if has_key(before, x) {
            let i = choose|i: int| 0 <= i < before.len() && (#[trigger] before[i]).0 == x;
            let j = if i < at || after.len() == before.len() { i } else { i + 1 };
            assert(after[j].0 == x);
        }
    }
    assert forall|x: Seq<char>| list_map(after).dom().contains(x) implies #[trigger] list_map(after)[x]
        == m[x] by {
        let i = choose|i: int| 0 <= i < after.len() && (#[trigger] after[i]).0 == x;
        if x == k {
            assert(after[at].0 == k);
        } else {
            let j = if i < at || after.len() == before.len() { i } else { i - 1 };
            assert(before[j] == after[i]);
        }
    }
    assert(list_map(after) =~= m);
}

proof fn lemma_remove_view<V>(
    before: Seq<(Seq<char>, V)>,
    after: Seq<(Seq<char>, V)>,
    at: int,
    k: Seq<char>,
)
    requires
        increasing(before),
        increasing(after),
        0 <= at < before.len(),
        before[at].0 == k,
        after == before.remove(at),
    ensures
        list_map(after) == list_map(before).remove(k),
{
    lemma_list_map(before);
    lemma_list_map(after);
    let m = list_map(before).remove(k);
    assert forall|i: int| 0 <= i < after.len() implies (#[trigger] after[i]).0 != k by {
        lemma_lex_irreflexive(k);
        if i < at {
            assert(lex_lt(before[i].0, before[at].0));
        } else {
            assert(lex_lt(before[at].0, before[i + 1].0));
        }
    }
    assert forall|x: Seq<char>| #[trigger] list_map(after).dom().contains(x) <==> m.dom().contains(x) by {
        if has_key(after, x) {
            let i = choose|i: int| 0 <= i < after.len() && (#[trigger] after[i]).0 == x;
            let j = if i < at { i } else { i + 1 };
            assert(before[j].0 == x);
        }
        if has_key(before, x) && x != k {
            let i = choose|i: int| 0 <= i < before.len() && (#[trigger] before[i]).0 == x;
            let j = if i < at { i } else { i - 1 };
            assert(after[j].0 == x);
        }
    }
    assert forall|x: Seq<char>| list_map(after).dom().contains(x) implies #[trigger] list_map(after)[x]
        == m[x] by {
        let i = choose|i: int| 0 <= i < after.len() && (#[trigger] after[i]).0 == x;
        let j = if i < at { i } else { i + 1 };
        assert(before[j] == after[i]);
    }
    assert(list_map(after) =~= m);
}

/// A map has one listing.
pub proof fn maps_have_one_listing<V>(a: Seq<(Seq<char>, V)>, b: Seq<(Seq<char>, V)>)
    requires
        increasing(a),
        increasing(b),
        list_map(a) == list_map(b),
    ensures
        a == b,
    decreases a.len(),
{
    lemma_list_map(a);
    lemma_list_map(b);
    if a.len() > 0 {
        let n = a.len() - 1;
        let x = a[n].0;
        let y = b[n].0;
        assert(has_key(a, x));
        assert(list_map(b).dom().contains(x));
        let i = choose|i: int| 0 <= i < b.len() && (#[trigger] b[i]).0 == x;
        assert(has_key(b, y));
        assert(list_map(a).dom().contains(y));
        let j = choose|j: int| 0 <= j < a.len() && (#[trigger] a[j]).0 == y;
        if x != y {
            assert(i < n && j < n);
            assert(lex_lt(b[i].0, b[n].0));
            assert(lex_lt(a[j].0, a[n].0));
            lemma_lex_transitive(x, y, x);
            lemma_lex_irreflexive(x);
        }
        assert(a[n] == b[n]);
        let shorter_a = a.drop_last();
        let shorter_b = b.drop_last();
        assert(shorter_a == a.remove(n));
        assert(shorter_b == b.remove(n));
        lemma_remove_view(a, shorter_a, n, x);
        lemma_remove_view(b, shorter_b, n, x);
        maps_have_one_listing(shorter_a, shorter_b);
        assert(a == shorter_a.push(a[n]));
        assert(b == shorter_b.push(b[n]));
    } else {
        assert(a =~= b);
    }
}

/// A listing with its texts in place of its strings.
pub open spec fn text_listing(list: Seq<(Seq<char>, String)>) -> Seq<(Seq<char>, Seq<char>)> {
    list.map_values(|e: (Seq<char>, String)| (e.0, e.1@))
}

/// The texts of a map are those of its listing.
pub proof fn texts_of_a_listing(list: Seq<(Seq<char>, String)>)
    ensures
        list_map(text_listing(list)) == texts(list_map(list)),
        increasing(list) ==> increasing(text_listing(list)),
    decreases list.len(),
{
    let t = text_listing(list);
    if list.len() > 0 {
        texts_of_a_listing(list.drop_last());
        assert(t.drop_last() == text_listing(list.drop_last()));
        assert(t.last() == (list.last().0, list.last().1@));
    }
    assert(list_map(t) =~= texts(list_map(list)));
    if increasing(list) {
        assert forall|i: int, j: int| 0 <= i < j < t.len() implies lex_lt(
            (#[trigger] t[i]).0,
            (#[trigger] t[j]).0,
        ) by {
            assert(lex_lt(list[i].0, list[j].0));
        }
    }
}

/// The first difference decides which of two texts comes first, and a text comes before those that
/// go on behind it.
pub proof fn the_first_difference_decides(
    head: Seq<char>,
    a: char,
    b: char,
    x: Seq<char>,
    y: Seq<char>,
)
    ensures
        a != b ==> lex_lt(head.push(a) + x, head.push(b) + y) == (a < b),
        lex_lt(head, head.push(a) + x),
        !lex_lt(head.push(a) + x, head),
        !lex_lt(head, head),
    decreases head.len(),
{
    let left = head.push(a) + x;
    let right = head.push(b) + y;
    lemma_lex_irreflexive(head);
    if head.len() == 0 {
        assert(left[0] == a && right[0] == b);
    } else {
        let rest = head.skip(1);
        the_first_difference_decides(rest, a, b, x, y);
        assert(left.skip(1) =~= rest.push(a) + x);
        assert(right.skip(1) =~= rest.push(b) + y);
        assert(left[0] == head[0] && right[0] == head[0]);
    }
}

} // verus!
