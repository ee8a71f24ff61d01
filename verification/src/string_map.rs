//! A map keyed by strings, kept in the order of its keys.

use vstd::prelude::*;

use crate::keys::{chars_of, Text};

verus! {

/// The order of strings: lexicographic by code points, a prefix before what extends it.
pub open spec fn precedes(a: Text, b: Text) -> bool
    decreases a.len(),
{
    if b.len() == 0 {
        false
    } else if a.len() == 0 {
        true
    } else if a[0] != b[0] {
        (a[0] as int) < (b[0] as int)
    } else {
        precedes(a.drop_first(), b.drop_first())
    }
}

/// Whether each text comes strictly before those that stand after it.
pub open spec fn ascending(keys: Seq<Text>) -> bool {
    forall|i: int, j: int| #![trigger keys[i], keys[j]] 0 <= i < j < keys.len() ==> precedes(keys[i], keys[j])
}

/// No text comes before itself.
pub proof fn law_precedes_irreflexive(a: Text)
    ensures
        !precedes(a, a),
    decreases a.len(),
{
    if a.len() > 0 {
        law_precedes_irreflexive(a.drop_first());
    }
}

/// What comes before a text comes before all that the text comes before.
pub proof fn law_precedes_transitive(a: Text, b: Text, c: Text)
    requires
        precedes(a, b),
        precedes(b, c),
    ensures
        precedes(a, c),
    decreases a.len(),
{
    if a.len() > 0 && b.len() > 0 && c.len() > 0 && a[0] == b[0] && b[0] == c[0] {
        law_precedes_transitive(a.drop_first(), b.drop_first(), c.drop_first());
    }
}

/// Of two different texts one comes before the other.
pub proof fn law_precedes_total(a: Text, b: Text)
    ensures
        a == b || precedes(a, b) || precedes(b, a),
    decreases a.len(),
{
    if a.len() > 0 && b.len() > 0 && a[0] == b[0] {
        law_precedes_total(a.drop_first(), b.drop_first());
        assert(a =~= seq![a[0]] + a.drop_first());
        assert(b =~= seq![b[0]] + b.drop_first());
    } else if a.len() == 0 && b.len() == 0 {
        assert(a =~= b);
    }
}

/// Two texts are ordered by the first character in which they differ. A text comes before
/// those that extend it.
pub proof fn law_precedes_by_the_first_difference(a: Text, b: Text, k: int)
    requires
        0 <= k <= a.len(),
        k <= b.len(),
        a.take(k) == b.take(k),
    ensures
        k < a.len() && k < b.len() && a[k] != b[k] ==> (precedes(a, b) <==> (a[k] as int) < (b[k] as int)),
        k == a.len() ==> (precedes(a, b) <==> a.len() < b.len()),
        k == b.len() ==> !precedes(a, b),
    decreases k,
{
    if k > 0 {
        assert(a[0] == a.take(k)[0] && b[0] == b.take(k)[0]);
        assert(a.drop_first().take(k - 1) =~= a.take(k).drop_first());
        assert(b.drop_first().take(k - 1) =~= b.take(k).drop_first());
        law_precedes_by_the_first_difference(a.drop_first(), b.drop_first(), k - 1);
    }
}

/// What is ascending stands in the order of its texts, each before all that follow.
pub proof fn law_ascending_orders_all_pairs(keys: Seq<Text>, i: int, j: int)
    requires
        ascending(keys),
        0 <= i < j < keys.len(),
    ensures
        precedes(keys[i], keys[j]),
{
}

/// Two ascending enumerations of the same texts are the same sequence.
pub proof fn law_ascending_enumeration_is_unique(a: Seq<Text>, b: Seq<Text>)
    requires
        ascending(a),
        ascending(b),
        a.to_set() == b.to_set(),
    ensures
        a == b,
    decreases a.len(),
{
    if a.len() == 0 {
        if b.len() > 0 {
            assert(b.to_set().contains(b[0]));
            assert(a.to_set().contains(b[0]));
        }
        assert(a =~= b);
    } else {
        assert(a.to_set().contains(a[0]));
        assert(b.to_set().contains(a[0]));
        let i = choose|i: int| 0 <= i < b.len() && b[i] == a[0];
        assert(b.to_set().contains(b[0]));
        assert(a.to_set().contains(b[0]));
        let j = choose|j: int| 0 <= j < a.len() && a[j] == b[0];
        if i > 0 {
            assert(precedes(b[0], b[i]));
            if j > 0 {
                assert(precedes(a[0], a[j]));
                law_precedes_transitive(a[0], b[0], a[0]);
            }
            law_precedes_irreflexive(a[0]);
        }
        assert(a[0] == b[0]);
        let ra = a.drop_first();
        let rb = b.drop_first();
        assert forall|x: Text| ra.to_set().contains(x) == rb.to_set().contains(x) by {
            lemma_rest_contains(a, x);
            lemma_rest_contains(b, x);
        }
        assert(ra.to_set() =~= rb.to_set());
        assert(ascending(ra)) by {
            assert forall|p: int, q: int| #![trigger ra[p], ra[q]] 0 <= p < q < ra.len() implies precedes(ra[p], ra[q]) by {
                assert(precedes(a[p + 1], a[q + 1]));
            }
        }
        assert(ascending(rb)) by {
            assert forall|p: int, q: int| #![trigger rb[p], rb[q]] 0 <= p < q < rb.len() implies precedes(rb[p], rb[q]) by {
                assert(precedes(b[p + 1], b[q + 1]));
            }
        }
        law_ascending_enumeration_is_unique(ra, rb);
        assert(a =~= seq![a[0]] + ra);
        assert(b =~= seq![b[0]] + rb);
    }
}

/// The rest of an ascending sequence holds what the sequence holds, but for its first text.
proof fn lemma_rest_contains(a: Seq<Text>, x: Text)
    requires
        a.len() > 0,
        ascending(a),
    ensures
        a.drop_first().to_set().contains(x) <==> a.to_set().contains(x) && x != a[0],
{
    let rest = a.drop_first();
    if rest.contains(x) {
        let k = choose|k: int| 0 <= k < rest.len() && rest[k] == x;
        assert(a[k + 1] == x);
        assert(precedes(a[0], a[k + 1]));
        law_precedes_irreflexive(x);
    }
    if a.contains(x) && x != a[0] {
        let k = choose|k: int| 0 <= k < a.len() && a[k] == x;
        assert(rest[k - 1] == x);
    }
}

/// Whether `a` comes before `b`.
fn comes_before(a: &str, b: &str) -> (before: bool)
    ensures
        before == precedes(a@, b@),
{
    let left: Vec<char> = chars_of(a);
    let right: Vec<char> = chars_of(b);
    let mut i: usize = 0;
    assert(a@.skip(0) =~= a@);
    assert(b@.skip(0) =~= b@);
    while i < left.len() && i < right.len()
        invariant
            left@ == a@,
            right@ == b@,
            i <= left@.len(),
            i <= right@.len(),
            precedes(a@, b@) == precedes(a@.skip(i as int), b@.skip(i as int)),
        decreases left@.len() - i,
    {
        if left[i] != right[i] {
            return left[i] < right[i];
        }
        assert(a@.skip(i as int).drop_first() =~= a@.skip(i + 1));
        assert(b@.skip(i as int).drop_first() =~= b@.skip(i + 1));
        i = i + 1;
    }
    i < right.len()
}

/// A map from strings to values, in the ascending order of the strings.
pub struct StringMap<V> {
    entries: Vec<(String, V)>,
}

/// The keys of a list of entries.
spec fn entry_keys<V>(entries: Seq<(String, V)>) -> Seq<Text> {
    entries.map_values(|e: (String, V)| e.0@)
}

/// The map that a list of entries stands for.
spec fn entry_map<V>(entries: Seq<(String, V)>) -> Map<Text, V>
    decreases entries.len(),
{
    if entries.len() == 0 {
        Map::empty()
    } else {
        entry_map(entries.drop_last()).insert(entries.last().0@, entries.last().1)
    }
}

impl<V> View for StringMap<V> {
    type V = Map<Text, V>;

    closed spec fn view(&self) -> Map<Text, V> {
        entry_map(self.entries@)
    }
}

/// The keys of the map are those of the entries, and where no key occurs twice each
/// has the value of its entry.
proof fn lemma_entry_map<V>(entries: Seq<(String, V)>)
    requires
        ascending(entry_keys(entries)),
    ensures
        forall|k: Text| #[trigger] entry_map(entries).contains_key(k) <==> entry_keys(entries).contains(k),
        forall|i: int| 0 <= i < entries.len() ==> entry_map(entries)[(#[trigger] entries[i]).0@] == entries[i].1,
    decreases entries.len(),
{
    let keys = entry_keys(entries);
    if entries.len() > 0 {
        let init = entries.drop_last();
        let init_keys = entry_keys(init);
        let last = entries.last();
        assert(init_keys =~= keys.drop_last());
        assert forall|i: int, j: int| #![trigger init_keys[i], init_keys[j]]
            0 <= i < j < init_keys.len() implies precedes(init_keys[i], init_keys[j]) by {
            assert(precedes(keys[i], keys[j]));
        }
        lemma_entry_map(init);
        assert forall|k: Text| #[trigger] entry_map(entries).contains_key(k) <==> keys.contains(k) by {
            assert(entry_map(init).contains_key(k) <==> init_keys.contains(k));
            if init_keys.contains(k) {
                let i = choose|i: int| 0 <= i < init_keys.len() && init_keys[i] == k;
                assert(keys[i] == k);
            }
            if k == last.0@ {
                assert(keys[entries.len() - 1] == k);
            }
            if keys.contains(k) && k != last.0@ {
                let i = choose|i: int| 0 <= i < keys.len() && keys[i] == k;
                assert(init_keys[i] == k);
            }
        }
        assert forall|i: int| 0 <= i < entries.len() implies entry_map(entries)[(#[trigger] entries[i]).0@]
            == entries[i].1 by {
            if i < entries.len() - 1 {
                assert(precedes(keys[i], keys[entries.len() - 1]));
                law_precedes_irreflexive(last.0@);
                assert(init[i] == entries[i]);
            }
        }
    }
}

/// A map is fixed by what it holds: another with the same keys and values is the same.
proof fn lemma_entry_map_is<V>(entries: Seq<(String, V)>, map: Map<Text, V>)
    requires
        ascending(entry_keys(entries)),
        forall|i: int| 0 <= i < entries.len() ==> map.contains_key((#[trigger] entries[i]).0@)
            && map[entries[i].0@] == entries[i].1,
        forall|k: Text| #[trigger] map.contains_key(k) ==> entry_keys(entries).contains(k),
    ensures
        entry_map(entries) == map,
{
    lemma_entry_map(entries);
    let keys = entry_keys(entries);
    assert forall|k: Text| #[trigger] entry_map(entries).contains_key(k) implies map.contains_key(k)
        && map[k] == entry_map(entries)[k] by {
        let i = choose|i: int| 0 <= i < keys.len() && keys[i] == k;
        assert(entries[i].0@ == k);
    }
    assert(entry_map(entries) =~= map);
}

impl<V> StringMap<V> {
    /// The keys stand in ascending order, so that none occurs twice.
    #[verifier::type_invariant]
    spec fn in_order(self) -> bool {
        ascending(entry_keys(self.entries@))
    }

    /// A map without entries.
    pub fn new() -> (map: Self)
        ensures
            map@ == Map::<Text, V>::empty(),
    {
        StringMap { entries: Vec::new() }
    }

    /// The number of entries.
    pub fn len(&self) -> (n: usize)
        ensures
            n == self@.dom().len(),
            self@.dom().finite(),
    {
        proof {
            use_type_invariant(self);
            lemma_entry_map(self.entries@);
            let keys = entry_keys(self.entries@);
            lemma_no_duplicates(keys);
            keys.unique_seq_to_set();
            assert(self@.dom() =~= keys.to_set());
        }
        self.entries.len()
    }

    /// The position at which `key` stands or belongs.
    fn position(&self, key: &str) -> (at: usize)
        ensures
            at <= self.entries@.len(),
            forall|i: int| 0 <= i < at ==> precedes((#[trigger] self.entries@[i]).0@, key@),
            at < self.entries@.len() ==> !precedes(self.entries@[at as int].0@, key@),
    {
        let mut at: usize = 0;
        while at < self.entries.len()
            invariant
                at <= self.entries@.len(),
                forall|i: int| 0 <= i < at ==> precedes((#[trigger] self.entries@[i]).0@, key@),
            decreases self.entries@.len() - at,
        {
            if !comes_before(self.entries[at].0.as_str(), key) {
                return at;
            }
            at = at + 1;
        }
        at
    }

    /// The value under `key`, if there is one.
    pub fn get(&self, key: &str) -> (value: Option<&V>)
        ensures
            match value {
                Some(v) => self@.contains_key(key@) && self@[key@] == *v,
                None => !self@.contains_key(key@),
            },
    {
        proof {
            use_type_invariant(self);
            lemma_entry_map(self.entries@);
        }
        let at: usize = self.position(key);
        proof {
            self.lemma_found(key@, at as int);
        }
        if at < self.entries.len() && self.entries[at].0 == key.to_string() {
            Some(&self.entries[at].1)
        } else {
            None
        }
    }

    /// Whether there is a value under `key`.
    pub fn contains_key(&self, key: &str) -> (found: bool)
        ensures
            found == self@.contains_key(key@),
    {
        match self.get(key) {
            Some(_) => true,
            None => false,
        }
    }

    /// Where `position` points decides whether a key is there.
    proof fn lemma_found(&self, key: Text, at: int)
        requires
            ascending(entry_keys(self.entries@)),
            0 <= at <= self.entries@.len(),
            forall|i: int| 0 <= i < at ==> precedes((#[trigger] self.entries@[i]).0@, key),
            at < self.entries@.len() ==> !precedes(self.entries@[at].0@, key),
        ensures
            self@.contains_key(key) <==> at < self.entries@.len() && self.entries@[at].0@ == key,
            forall|i: int| at < i < self.entries@.len() ==> precedes(key, (#[trigger] self.entries@[i]).0@),
            at < self.entries@.len() && self.entries@[at].0@ != key ==> precedes(key, self.entries@[at].0@),
    {
        let entries = self.entries@;
        let keys = entry_keys(entries);
        lemma_entry_map(entries);
        if at < entries.len() {
            assert(keys[at] == entries[at].0@);
            law_precedes_total(entries[at].0@, key);
            assert forall|i: int| at < i < entries.len() implies precedes(key, (#[trigger] entries[i]).0@) by {
                assert(precedes(keys[at], keys[i]));
                if entries[at].0@ != key {
                    law_precedes_transitive(key, entries[at].0@, entries[i].0@);
                }
            }
        }
        if keys.contains(key) {
            let i = choose|i: int| 0 <= i < keys.len() && keys[i] == key;
            assert(entries[i].0@ == key);
            law_precedes_irreflexive(key);
            assert(i == at);
        }
    }

    /// Puts `value` under `key`, and gives back the value that it replaces.
    pub fn insert(&mut self, key: String, value: V) -> (replaced: Option<V>)
        ensures
            final(self)@ == old(self)@.insert(key@, value),
            match replaced {
                Some(v) => old(self)@.contains_key(key@) && old(self)@[key@] == v,
                None => !old(self)@.contains_key(key@),
            },
    {
        proof {
            use_type_invariant(&*self);
            lemma_entry_map(self.entries@);
        }
        let at: usize = self.position(key.as_str());
        proof {
            self.lemma_found(key@, at as int);
        }
        let ghost before = self.entries@;
        let ghost k = key@;
        let mut entries: Vec<(String, V)> = Vec::new();
        std::mem::swap(&mut entries, &mut self.entries);
        if at < entries.len() && entries[at].0 == key {
            entries.insert(at, (key, value));
            let replaced: (String, V) = entries.remove(at + 1);
            proof {
                assert(entries@ =~= before.update(at as int, entries@[at as int]));
                assert(entry_keys(entries@) =~= entry_keys(before));
                lemma_replaced(before, entries@, at as int);
            }
            self.entries = entries;
            Some(replaced.1)
        } else {
            entries.insert(at, (key, value));
            proof {
                assert(entries@ =~= before.insert(at as int, entries@[at as int]));
                lemma_inserted(before, entries@, at as int);
            }
            self.entries = entries;
            None
        }
    }

    /// Takes out the value under `key`, if there is one.
    pub fn remove(&mut self, key: &str) -> (removed: Option<V>)
        ensures
            final(self)@ == old(self)@.remove(key@),
            match removed {
                Some(v) => old(self)@.contains_key(key@) && old(self)@[key@] == v,
                None => !old(self)@.contains_key(key@),
            },
    {
        proof {
            use_type_invariant(&*self);
            lemma_entry_map(self.entries@);
        }
        let at: usize = self.position(key);
        proof {
            self.lemma_found(key@, at as int);
        }
        if at < self.entries.len() && self.entries[at].0 == key.to_string() {
            let ghost before = self.entries@;
            let mut entries: Vec<(String, V)> = Vec::new();
            std::mem::swap(&mut entries, &mut self.entries);
            let removed: (String, V) = entries.remove(at);
            proof {
                lemma_removed(before, entries@, at as int);
            }
            self.entries = entries;
            Some(removed.1)
        } else {
            proof {
                assert(self@.remove(key@) =~= self@);
            }
            None
        }
    }

    /// The entries, in the ascending order of their keys.
    pub fn iter(&self) -> (entries: Vec<(&String, &V)>)
        ensures
            ascending(entries@.map_values(|e: (&String, &V)| e.0@)),
            entries@.map_values(|e: (&String, &V)| e.0@).to_set() == self@.dom(),
            forall|i: int| 0 <= i < entries@.len() ==> self@[(#[trigger] entries@[i]).0@] == *entries@[i].1,
    {
        let mut entries: Vec<(&String, &V)> = Vec::new();
        let mut i: usize = 0;
        while i < self.entries.len()
            invariant
                i <= self.entries@.len(),
                entries@.len() == i,
                forall|j: int| 0 <= j < i ==> *(#[trigger] entries@[j]).0 == self.entries@[j].0
                    && *entries@[j].1 == self.entries@[j].1,
            decreases self.entries@.len() - i,
        {
            entries.push((&self.entries[i].0, &self.entries[i].1));
            i = i + 1;
        }
        proof {
            use_type_invariant(self);
            lemma_entry_map(self.entries@);
            let keys = entries@.map_values(|e: (&String, &V)| e.0@);
            assert(keys =~= entry_keys(self.entries@));
            assert(keys.to_set() =~= self@.dom());
            assert forall|j: int| 0 <= j < entries@.len() implies self@[(#[trigger] entries@[j]).0@]
                == *entries@[j].1 by {
                assert(self.entries@[j].0@ == entries@[j].0@);
            }
        }
        entries
    }
}

impl<V: Clone> Clone for StringMap<V> {
    fn clone(&self) -> (copy: Self)
        ensures
            copy@.dom() == self@.dom(),
            forall|k: Text| #[trigger] self@.contains_key(k) ==> cloned::<V>(self@[k], copy@[k]),
    {
        proof {
            use_type_invariant(self);
        }
        let mut entries: Vec<(String, V)> = Vec::new();
        let mut i: usize = 0;
        while i < self.entries.len()
            invariant
                i <= self.entries@.len(),
                entries@.len() == i,
                forall|j: int| 0 <= j < i ==> (#[trigger] entries@[j]).0@ == self.entries@[j].0@
                    && cloned::<V>(self.entries@[j].1, entries@[j].1),
            decreases self.entries@.len() - i,
        {
            entries.push((self.entries[i].0.clone(), self.entries[i].1.clone()));
            i = i + 1;
        }
        proof {
            let keys = entry_keys(self.entries@);
            assert(entry_keys(entries@) =~= keys);
            lemma_entry_map(self.entries@);
            lemma_entry_map(entries@);
            let copied = entry_map(entries@);
            assert(copied.dom() =~= self@.dom());
            assert forall|k: Text| #[trigger] self@.contains_key(k) implies cloned::<V>(self@[k], copied[k]) by {
                let j = choose|j: int| 0 <= j < keys.len() && keys[j] == k;
                assert(self.entries@[j].0@ == k && entries@[j].0@ == k);
            }
        }
        StringMap { entries }
    }
}

/// An ascending sequence holds nothing twice.
proof fn lemma_no_duplicates(keys: Seq<Text>)
    requires
        ascending(keys),
    ensures
        keys.no_duplicates(),
{
    assert forall|i: int, j: int| 0 <= i < keys.len() && 0 <= j < keys.len() && i != j implies keys[i] != keys[j] by {
        if i < j {
            assert(precedes(keys[i], keys[j]));
        } else {
            assert(precedes(keys[j], keys[i]));
        }
        law_precedes_irreflexive(keys[i]);
    }
}

/// A new value under a key that is there.
proof fn lemma_replaced<V>(before: Seq<(String, V)>, after: Seq<(String, V)>, at: int)
    requires
        ascending(entry_keys(before)),
        0 <= at < before.len(),
        after == before.update(at, after[at]),
        after[at].0@ == before[at].0@,
        entry_keys(after) == entry_keys(before),
    ensures
        entry_map(after) == entry_map(before).insert(after[at].0@, after[at].1),
{
    let map = entry_map(before).insert(after[at].0@, after[at].1);
    let keys = entry_keys(before);
    lemma_entry_map(before);
    lemma_no_duplicates(keys);
    assert(keys[at] == before[at].0@);
    assert forall|i: int| 0 <= i < after.len() implies map.contains_key((#[trigger] after[i]).0@)
        && map[after[i].0@] == after[i].1 by {
        assert(keys[i] == before[i].0@);
        assert(keys.contains(keys[i]));
        if i != at {
            assert(after[i] == before[i]);
            assert(keys[i] != keys[at]);
        }
    }
    assert forall|k: Text| #[trigger] map.contains_key(k) implies entry_keys(after).contains(k) by {
        if k == after[at].0@ {
            assert(entry_keys(after)[at] == k);
        } else {
            assert(entry_map(before).contains_key(k));
        }
    }
    lemma_entry_map_is(after, map);
}

/// A new key at its place.
proof fn lemma_inserted<V>(before: Seq<(String, V)>, after: Seq<(String, V)>, at: int)
    requires
        ascending(entry_keys(before)),
        0 <= at <= before.len(),
        after == before.insert(at, after[at]),
        forall|i: int| 0 <= i < at ==> precedes((#[trigger] before[i]).0@, after[at].0@),
        forall|i: int| at <= i < before.len() ==> precedes(after[at].0@, (#[trigger] before[i]).0@),
    ensures
        ascending(entry_keys(after)),
        entry_map(after) == entry_map(before).insert(after[at].0@, after[at].1),
{
    let map = entry_map(before).insert(after[at].0@, after[at].1);
    let old_keys = entry_keys(before);
    let keys = entry_keys(after);
    lemma_entry_map(before);
    assert forall|i: int, j: int| #![trigger keys[i], keys[j]] 0 <= i < j < keys.len() implies precedes(keys[i], keys[j]) by {
        if i < at && j > at {
            assert(after[i] == before[i] && after[j] == before[j - 1]);
            assert(precedes(old_keys[i], old_keys[j - 1]));
        } else if i < at && j < at {
            assert(after[i] == before[i] && after[j] == before[j]);
            assert(precedes(old_keys[i], old_keys[j]));
        } else if i > at {
            assert(after[i] == before[i - 1] && after[j] == before[j - 1]);
            assert(precedes(old_keys[i - 1], old_keys[j - 1]));
        } else if i == at {
            assert(after[j] == before[j - 1]);
        } else {
            assert(after[i] == before[i]);
        }
    }
    assert forall|i: int| 0 <= i < after.len() implies map.contains_key((#[trigger] after[i]).0@)
        && map[after[i].0@] == after[i].1 by {
        if i != at {
            let b = if i < at { i } else { i - 1 };
            assert(after[i] == before[b]);
            assert(old_keys[b] == before[b].0@);
            assert(old_keys.contains(old_keys[b]));
            law_precedes_irreflexive(after[at].0@);
        }
    }
    assert forall|k: Text| #[trigger] map.contains_key(k) implies keys.contains(k) by {
        if k == after[at].0@ {
            assert(keys[at] == k);
        } else {
            let b = choose|b: int| 0 <= b < old_keys.len() && old_keys[b] == k;
            let i = if b < at { b } else { b + 1 };
            assert(after[i] == before[b]);
            assert(keys[i] == k);
        }
    }
    lemma_entry_map_is(after, map);
}

/// A key less.
proof fn lemma_removed<V>(before: Seq<(String, V)>, after: Seq<(String, V)>, at: int)
    requires
        ascending(entry_keys(before)),
        0 <= at < before.len(),
        after == before.remove(at),
    ensures
        ascending(entry_keys(after)),
        entry_map(after) == entry_map(before).remove(before[at].0@),
{
    let map = entry_map(before).remove(before[at].0@);
    let old_keys = entry_keys(before);
    let keys = entry_keys(after);
    lemma_entry_map(before);
    lemma_no_duplicates(old_keys);
    assert(old_keys[at] == before[at].0@);
    assert forall|i: int, j: int| #![trigger keys[i], keys[j]] 0 <= i < j < keys.len() implies precedes(keys[i], keys[j]) by {
        let a = if i < at { i } else { i + 1 };
        let b = if j < at { j } else { j + 1 };
        assert(after[i] == before[a] && after[j] == before[b]);
        assert(precedes(old_keys[a], old_keys[b]));
    }
    assert forall|i: int| 0 <= i < after.len() implies map.contains_key((#[trigger] after[i]).0@)
        && map[after[i].0@] == after[i].1 by {
        let b = if i < at { i } else { i + 1 };
        assert(after[i] == before[b]);
        assert(old_keys[b] == before[b].0@);
        assert(old_keys.contains(old_keys[b]));
        assert(old_keys[b] != old_keys[at]);
    }
    assert forall|k: Text| #[trigger] map.contains_key(k) implies keys.contains(k) by {
        let b = choose|b: int| 0 <= b < old_keys.len() && old_keys[b] == k;
        let i = if b < at { b } else { b - 1 };
        assert(after[i] == before[b]);
        assert(keys[i] == k);
    }
    lemma_entry_map_is(after, map);
}

} // verus!
