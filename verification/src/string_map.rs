//! A map from names to values.
use vstd::prelude::*;

use crate::text;
use crate::text::{relate, Relation};

verus! {

/// The texts of the keys, in order.
pub open spec fn key_texts<V>(entries: Seq<(String, V)>) -> Seq<Seq<char>> {
    entries.map_values(|entry: (String, V)| entry.0@)
}

/// Entry `i` is the one for `key`.
spec fn is_at<V>(entries: Seq<(String, V)>, i: int, key: Seq<char>) -> bool {
    0 <= i < entries.len() && entries[i].0@ == key
}

/// The map that a list of entries stands for.
spec fn entries_map<V>(entries: Seq<(String, V)>) -> Map<Seq<char>, V> {
    Map::new(
        |key: Seq<char>| exists|i: int| is_at(entries, i, key),
        |key: Seq<char>| entries[choose|i: int| is_at(entries, i, key)].1,
    )
}

/// A map with text keys.
///
/// The entries are held in ascending order of their keys, so that two maps
/// with the same contents are the same value and every walk over one comes in
/// the same order.
#[derive(Debug, PartialEq, Eq)]
pub struct StringMap<V> {
    entries: Vec<(String, V)>,
}

impl<V> View for StringMap<V> {
    type V = Map<Seq<char>, V>;

    closed spec fn view(&self) -> Map<Seq<char>, V> {
        entries_map(self.entries@)
    }
}

/// In ascending entries a key has one place.
proof fn lemma_place<V>(entries: Seq<(String, V)>, i: int, key: Seq<char>)
    requires
        text::ascending(key_texts(entries)),
        is_at(entries, i, key),
    ensures
        entries_map(entries).contains_key(key),
        entries_map(entries)[key] == entries[i].1,
{
    let j = choose|j: int| is_at(entries, j, key);
    if i != j {
        text::lemma_precedes_irreflexive(key);
        let keys = key_texts(entries);
        assert(keys[i] == key && keys[j] == key);
        assert(precedes_at(keys, i, j) || precedes_at(keys, j, i));
    }
}

/// Key `i` precedes key `j`.
spec fn precedes_at(keys: Seq<Seq<char>>, i: int, j: int) -> bool {
    text::precedes(keys[i], keys[j])
}

/// A key between two neighbours goes in between them, and nowhere else.
proof fn lemma_inserted<V>(entries: Seq<(String, V)>, at: int, key: String, value: V)
    requires
        text::ascending(key_texts(entries)),
        0 <= at <= entries.len(),
        forall|i: int| 0 <= i < at ==> text::precedes(#[trigger] entries[i].0@, key@),
        forall|i: int| at <= i < entries.len() ==> text::precedes(key@, #[trigger] entries[i].0@),
    ensures
        text::ascending(key_texts(entries.insert(at, (key, value)))),
        entries_map(entries.insert(at, (key, value))) == entries_map(entries).insert(key@, value),
        !entries_map(entries).contains_key(key@),
{
    let after = entries.insert(at, (key, value));
    let keys = key_texts(after);
    assert forall|i: int, j: int| 0 <= i < j < keys.len() implies text::precedes(keys[i], keys[j]) by {
        let old = key_texts(entries);
        if i < at && j > at {
            assert(text::precedes(old[i], old[j - 1]));
        } else if j < at {
            assert(text::precedes(old[i], old[j]));
        } else if i > at {
            assert(text::precedes(old[i - 1], old[j - 1]));
        } else if j == at {
            assert(text::precedes(entries[i].0@, key@));
        } else {
            assert(text::precedes(key@, entries[j - 1].0@));
        }
    }
    let m = entries_map(after);
    let expected = entries_map(entries).insert(key@, value);
    assert(is_at(after, at, key@));
    lemma_place(after, at, key@);
    assert forall|k: Seq<char>| #[trigger] m.contains_key(k) == expected.contains_key(k) && (
    m.contains_key(k) ==> m[k] == expected[k]) by {
        if k != key@ {
            if m.contains_key(k) {
                let i = choose|i: int| is_at(after, i, k);
                let o = if i < at { i } else { i - 1 };
                assert(is_at(entries, o, k));
                lemma_place(entries, o, k);
                lemma_place(after, i, k);
            }
            if expected.contains_key(k) {
                let o = choose|o: int| is_at(entries, o, k);
                let i = if o < at { o } else { o + 1 };
                assert(is_at(after, i, k));
            }
        }
    }
    assert(m =~= expected);
    if entries_map(entries).contains_key(key@) {
        let i = choose|i: int| is_at(entries, i, key@);
        text::lemma_precedes_irreflexive(key@);
        assert(entries[i].0@ == key@);
    }
}

/// A value replaced at the place of its key.
proof fn lemma_replaced<V>(entries: Seq<(String, V)>, at: int, key: String, value: V)
    requires
        text::ascending(key_texts(entries)),
        is_at(entries, at, key@),
    ensures
        text::ascending(key_texts(entries.update(at, (key, value)))),
        entries_map(entries.update(at, (key, value))) == entries_map(entries).insert(key@, value),
{
    let after = entries.update(at, (key, value));
    assert(key_texts(after) =~= key_texts(entries));
    let m = entries_map(after);
    let expected = entries_map(entries).insert(key@, value);
    lemma_place(after, at, key@);
    assert forall|k: Seq<char>| #[trigger] m.contains_key(k) == expected.contains_key(k) && (
    m.contains_key(k) ==> m[k] == expected[k]) by {
        if k != key@ {
            if m.contains_key(k) {
                let i = choose|i: int| is_at(after, i, k);
                assert(is_at(entries, i, k));
                lemma_place(entries, i, k);
                lemma_place(after, i, k);
            }
            if expected.contains_key(k) {
                let i = choose|i: int| is_at(entries, i, k);
                assert(is_at(after, i, k));
            }
        }
    }
    assert(m =~= expected);
}

/// An entry taken out leaves the others as they are.
proof fn lemma_removed<V>(entries: Seq<(String, V)>, at: int, key: Seq<char>)
    requires
        text::ascending(key_texts(entries)),
        is_at(entries, at, key),
    ensures
        text::ascending(key_texts(entries.remove(at))),
        entries_map(entries.remove(at)) == entries_map(entries).remove(key),
{
    let after = entries.remove(at);
    let old = key_texts(entries);
    let keys = key_texts(after);
    assert forall|i: int, j: int| 0 <= i < j < keys.len() implies text::precedes(keys[i], keys[j]) by {
        let o = if i < at { i } else { i + 1 };
        let p = if j < at { j } else { j + 1 };
        assert(text::precedes(old[o], old[p]));
    }
    let m = entries_map(after);
    let expected = entries_map(entries).remove(key);
    assert forall|k: Seq<char>| #[trigger] m.contains_key(k) == expected.contains_key(k) && (
    m.contains_key(k) ==> m[k] == expected[k]) by {
        if m.contains_key(k) {
            let i = choose|i: int| is_at(after, i, k);
            let o = if i < at { i } else { i + 1 };
            assert(is_at(entries, o, k));
            lemma_place(entries, o, k);
            lemma_place(after, i, k);
            if k == key {
                text::lemma_precedes_irreflexive(k);
                assert(old[o] == k && old[at] == k);
                assert(precedes_at(old, o, at) || precedes_at(old, at, o));
            }
        }
        if expected.contains_key(k) {
            let o = choose|o: int| is_at(entries, o, k);
            let i = if o < at { o } else { o - 1 };
            assert(is_at(after, i, k));
        }
    }
    assert(m =~= expected);
}

impl<V> StringMap<V> {
    #[verifier::type_invariant]
    spec fn ordered(self) -> bool {
        text::ascending(key_texts(self.entries@))
    }

    /// The map without entries.
    pub fn new() -> (res: Self)
        ensures
            res@ == Map::<Seq<char>, V>::empty(),
    {
        let entries: Vec<(String, V)> = Vec::new();
        assert(entries_map(entries@) =~= Map::<Seq<char>, V>::empty());
        StringMap { entries }
    }

    /// A key is absent that every entry precedes or follows.
    proof fn lemma_absent(&self, key: Seq<char>)
        requires
            forall|i: int|
                0 <= i < self.entries@.len() ==> text::precedes(#[trigger] self.entries@[i].0@, key)
                    || text::precedes(key, self.entries@[i].0@),
        ensures
            !self@.contains_key(key),
    {
        if self@.contains_key(key) {
            let i = choose|i: int| is_at(self.entries@, i, key);
            text::lemma_precedes_irreflexive(key);
            assert(self.entries@[i].0@ == key);
        }
    }

    /// Where `key` is, or where it would go.
    fn locate(&self, key: &str) -> (res: Result<usize, usize>)
        ensures
            match res {
                Ok(i) => is_at(self.entries@, i as int, key@),
                Err(at) => {
                    &&& at <= self.entries@.len()
                    &&& forall|i: int|
                        0 <= i < at ==> text::precedes(#[trigger] self.entries@[i].0@, key@)
                    &&& forall|i: int|
                        at <= i < self.entries@.len() ==> text::precedes(
                            key@,
                            #[trigger] self.entries@[i].0@,
                        )
                },
            },
    {
        proof {
            use_type_invariant(self);
        }
        let ghost keys = key_texts(self.entries@);
        let mut low: usize = 0;
        let mut high: usize = self.entries.len();
        while low < high
            invariant
                keys == key_texts(self.entries@),
                text::ascending(keys),
                low <= high <= self.entries@.len(),
                forall|i: int| 0 <= i < low ==> text::precedes(#[trigger] self.entries@[i].0@, key@),
                forall|i: int|
                    high <= i < self.entries@.len() ==> text::precedes(
                        key@,
                        #[trigger] self.entries@[i].0@,
                    ),
            decreases high - low,
        {
            let mid: usize = low + (high - low) / 2;
            let relation: Relation = relate(self.entries[mid].0.as_str(), key);
            if relation == Relation::Same {
                return Ok(mid);
            }
            let ghost found = self.entries@[mid as int].0@;
            if relation == Relation::Before {
                proof {
                    assert forall|i: int| 0 <= i < mid + 1 implies text::precedes(
                        #[trigger] self.entries@[i].0@,
                        key@,
                    ) by {
                        if i < mid {
                            assert(text::precedes(keys[i], keys[mid as int]));
                            text::lemma_precedes_transitive(self.entries@[i].0@, found, key@);
                        }
                    }
                }
                low = mid + 1;
            } else {
                proof {
                    assert forall|i: int| mid <= i < self.entries@.len() implies text::precedes(
                        key@,
                        #[trigger] self.entries@[i].0@,
                    ) by {
                        if i > mid {
                            assert(text::precedes(keys[mid as int], keys[i]));
                            text::lemma_precedes_transitive(key@, found, self.entries@[i].0@);
                        }
                    }
                }
                high = mid;
            }
        }
        Err(low)
    }

    /// Whether the map holds no entry.
    pub fn is_empty(&self) -> (res: bool)
        ensures
            res == (self@ == Map::<Seq<char>, V>::empty()),
    {
        if self.entries.len() > 0 {
            proof {
                assert(is_at(self.entries@, 0, self.entries@[0].0@));
                assert(self@.contains_key(self.entries@[0].0@));
            }
            false
        } else {
            assert(self@ =~= Map::<Seq<char>, V>::empty());
            true
        }
    }

    /// Whether the map holds `key`.
    pub fn contains_key(&self, key: &str) -> (res: bool)
        ensures
            res == self@.contains_key(key@),
    {
        self.get(key).is_some()
    }

    /// The value for `key`.
    pub fn get(&self, key: &str) -> (res: Option<&V>)
        ensures
            match res {
                Some(value) => self@.contains_key(key@) && *value == self@[key@],
                None => !self@.contains_key(key@),
            },
    {
        proof {
            use_type_invariant(self);
        }
        match self.locate(key) {
            Ok(i) => {
                proof {
                    lemma_place(self.entries@, i as int, key@);
                }
                Some(&self.entries[i].1)
            },
            Err(_) => {
                proof {
                    self.lemma_absent(key@);
                }
                None
            },
        }
    }

    /// Sets the value for `key`.
    pub fn insert(&mut self, key: String, value: V)
        ensures
            final(self)@ == old(self)@.insert(key@, value),
    {
        proof {
            use_type_invariant(&*self);
        }
        let place: Result<usize, usize> = self.locate(key.as_str());
        let mut entries: Vec<(String, V)> = Vec::new();
        std::mem::swap(&mut self.entries, &mut entries);
        match place {
            Ok(i) => {
                proof {
                    lemma_replaced(entries@, i as int, key, value);
                }
                entries.set(i, (key, value));
            },
            Err(at) => {
                proof {
                    lemma_inserted(entries@, at as int, key, value);
                }
                entries.insert(at, (key, value));
            },
        }
        self.entries = entries;
    }

    /// Takes `key` out, and gives back its value.
    pub fn remove(&mut self, key: &str) -> (res: Option<V>)
        ensures
            final(self)@ == old(self)@.remove(key@),
            match res {
                Some(value) => old(self)@.contains_key(key@) && value == old(self)@[key@],
                None => !old(self)@.contains_key(key@),
            },
    {
        proof {
            use_type_invariant(&*self);
        }
        match self.locate(key) {
            Ok(i) => {
                let mut entries: Vec<(String, V)> = Vec::new();
                std::mem::swap(&mut self.entries, &mut entries);
                proof {
                    lemma_removed(entries@, i as int, key@);
                    lemma_place(entries@, i as int, key@);
                }
                let (_, value) = entries.remove(i);
                self.entries = entries;
                Some(value)
            },
            Err(_) => {
                proof {
                    self.lemma_absent(key@);
                    assert(self@.remove(key@) =~= self@);
                }
                None
            },
        }
    }

    /// The keys in ascending order.
    pub fn keys(&self) -> (res: Vec<String>)
        ensures
            text::ascending(text::texts(res@)),
            text::texts(res@).to_set() == self@.dom(),
    {
        proof {
            use_type_invariant(self);
        }
        let mut res: Vec<String> = Vec::new();
        let mut i: usize = 0;
        while i < self.entries.len()
            invariant
                i <= self.entries.len(),
                text::texts(res@) =~= key_texts(self.entries@).take(i as int),
            decreases self.entries.len() - i,
        {
            let key: String = self.entries[i].0.clone();
            let ghost before = res@;
            res.push(key);
            assert(text::texts(res@) =~= text::texts(before).push(key@));
            i = i + 1;
        }
        proof {
            let keys = key_texts(self.entries@);
            assert(text::texts(res@) =~= keys);
            assert forall|k: Seq<char>| keys.to_set().contains(k) == self@.dom().contains(k) by {
                if keys.contains(k) {
                    let j = choose|j: int| 0 <= j < keys.len() && keys[j] == k;
                    assert(is_at(self.entries@, j, k));
                }
                if self@.contains_key(k) {
                    let j = choose|j: int| is_at(self.entries@, j, k);
                    assert(keys[j] == k);
                }
            }
            assert(keys.to_set() =~= self@.dom());
        }
        res
    }
}

impl<V: Clone> Clone for StringMap<V> {
    /// The same keys, each with a clone of its value.
    fn clone(&self) -> (res: Self)
        ensures
            res@.dom() == self@.dom(),
            forall|key: Seq<char>| #[trigger]
                self@.contains_key(key) ==> cloned::<V>(self@[key], res@[key]),
    {
        proof {
            use_type_invariant(self);
        }
        let mut entries: Vec<(String, V)> = Vec::new();
        let mut i: usize = 0;
        while i < self.entries.len()
            invariant
                i <= self.entries.len(),
                entries.len() == i,
                forall|j: int| 0 <= j < i ==> (#[trigger] entries@[j]).0@ == self.entries@[j].0@,
                forall|j: int|
                    0 <= j < i ==> cloned::<V>(self.entries@[j].1, (#[trigger] entries@[j]).1),
            decreases self.entries.len() - i,
        {
            let key: String = self.entries[i].0.clone();
            let value: V = self.entries[i].1.clone();
            entries.push((key, value));
            i = i + 1;
        }
        proof {
            let ours = self.entries@;
            assert(key_texts(entries@) =~= key_texts(ours));
            let copied = entries_map(entries@);
            assert forall|k: Seq<char>| #[trigger] self@.contains_key(k) == copied.contains_key(k)
                && (self@.contains_key(k) ==> cloned::<V>(self@[k], copied[k])) by {
                if self@.contains_key(k) {
                    let j = choose|j: int| is_at(ours, j, k);
                    assert(entries@[j].0@ == ours[j].0@);
                    assert(is_at(entries@, j, k));
                    lemma_place(ours, j, k);
                    lemma_place(entries@, j, k);
                }
                if copied.contains_key(k) {
                    let j = choose|j: int| is_at(entries@, j, k);
                    assert(entries@[j].0@ == ours[j].0@);
                    assert(is_at(ours, j, k));
                    lemma_place(ours, j, k);
                }
            }
            assert(copied.dom() =~= self@.dom());
        }
        StringMap { entries }
    }
}

} // verus!
