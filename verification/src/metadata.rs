//! The open bag of named values that documents, models, materials,
//! components and projects carry beside their fixed fields.
//!
//! A bag maps names to JSON values that the library stores and hands back
//! without interpreting them. It keeps its entries in the order in which their
//! names were first inserted, and no name occurs twice.
//!
//! The bag is a list of entries and not a `HashMap`: vstd specifies a hash
//! map only for keys that obey its key model, and it gives `String` none, so
//! that nothing could be proved of a map from names.

use vstd::prelude::*;
use crate::json::clone_value;
use crate::text::str_eq;

verus! {

/// Whether some entry of `s` has the name `key`.
pub open spec fn has_key(s: Seq<(String, serde_json::Value)>, key: Seq<char>) -> bool {
    exists|i: int| 0 <= i < s.len() && (#[trigger] s[i]).0@ == key
}

/// The position of an entry of `s` with the name `key`.
pub open spec fn index_of(s: Seq<(String, serde_json::Value)>, key: Seq<char>) -> int {
    choose|i: int| 0 <= i < s.len() && (#[trigger] s[i]).0@ == key
}

/// Whether no two entries of `s` share a name.
pub open spec fn keys_distinct(s: Seq<(String, serde_json::Value)>) -> bool {
    forall|i: int, j: int|
        0 <= i < j < s.len() ==> (#[trigger] s[i]).0@ != (#[trigger] s[j]).0@
}

/// The map that a list of entries with distinct names stands for.
pub open spec fn as_map(s: Seq<(String, serde_json::Value)>) -> Map<
    Seq<char>,
    serde_json::Value,
> {
    Map::new(|k: Seq<char>| has_key(s, k), |k: Seq<char>| s[index_of(s, k)].1)
}

/// Finds the entry named `key` in a list of entries.
fn position(entries: &Vec<(String, serde_json::Value)>, key: &str) -> (at: Option<usize>)
    ensures
        match at {
            Some(i) => i < entries@.len() && entries@[i as int].0@ == key@,
            None => !has_key(entries@, key@),
        },
{
    let mut i: usize = 0;
    while i < entries.len()
        invariant
            i <= entries@.len(),
            forall|k: int| 0 <= k < i ==> (#[trigger] entries@[k]).0@ != key@,
        decreases entries@.len() - i,
    {
        if str_eq(entries[i].0.as_str(), key) {
            return Some(i);
        }
        i += 1;
    }
    None
}

/// A bag of named JSON values.
#[derive(Debug)]
pub struct Metadata {
    entries: Vec<(String, serde_json::Value)>,
}

impl View for Metadata {
    type V = Map<Seq<char>, serde_json::Value>;

    closed spec fn view(&self) -> Map<Seq<char>, serde_json::Value> {
        as_map(self.entries@)
    }
}

impl Clone for Metadata {
    /// A bag with the same entries in the same order.
    fn clone(&self) -> (copy: Metadata)
        ensures
            copy@ == self@,
            copy.pairs() == self.pairs(),
    {
        proof {
            use_type_invariant(self);
        }
        let mut entries: Vec<(String, serde_json::Value)> = Vec::new();
        let mut i: usize = 0;
        while i < self.entries.len()
            invariant
                i <= self.entries@.len(),
                entries@ == self.entries@.subrange(0, i as int),
            decreases self.entries@.len() - i,
        {
            let key = self.entries[i].0.clone();
            let value = clone_value(&self.entries[i].1);
            entries.push((key, value));
            proof {
                assert(entries@ =~= self.entries@.subrange(0, i + 1));
            }
            i += 1;
        }
        proof {
            assert(entries@ =~= self.entries@);
        }
        Metadata { entries }
    }
}

impl Metadata {
    #[verifier::type_invariant]
    spec fn names_are_distinct(self) -> bool {
        keys_distinct(self.entries@)
    }

    /// The entries in the order in which their names were first inserted.
    pub closed spec fn pairs(self) -> Seq<(String, serde_json::Value)> {
        self.entries@
    }

    /// The empty bag.
    pub fn new() -> (bag: Metadata)
        ensures
            bag@ == Map::<Seq<char>, serde_json::Value>::empty(),
            bag.pairs().len() == 0,
    {
        let bag = Metadata { entries: Vec::new() };
        assert(bag@ =~= Map::<Seq<char>, serde_json::Value>::empty());
        bag
    }

    /// The number of entries.
    pub fn len(&self) -> (n: usize)
        ensures
            n == self.pairs().len(),
    {
        self.entries.len()
    }

    /// Whether the bag has no entry.
    pub fn is_empty(&self) -> (r: bool)
        ensures
            r == (self.pairs().len() == 0),
            r == (self@ == Map::<Seq<char>, serde_json::Value>::empty()),
    {
        proof {
            if self.entries@.len() == 0 {
                assert(self@ =~= Map::<Seq<char>, serde_json::Value>::empty());
            } else {
                let e = self.entries@[0];
                assert(has_key(self.entries@, e.0@));
                assert(self@.contains_key(e.0@));
            }
        }
        self.entries.len() == 0
    }

    /// The name of the entry at position `i`.
    pub fn key_at(&self, i: usize) -> (key: &String)
        requires
            i < self.pairs().len(),
        ensures
            *key == self.pairs()[i as int].0,
            self@.contains_key(key@),
    {
        proof {
            assert(has_key(self.entries@, self.entries@[i as int].0@));
        }
        &self.entries[i].0
    }

    /// The value of the entry at position `i`.
    pub fn value_at(&self, i: usize) -> (value: &serde_json::Value)
        requires
            i < self.pairs().len(),
        ensures
            *value == self.pairs()[i as int].1,
            *value == self@[self.pairs()[i as int].0@],
    {
        proof {
            use_type_invariant(self);
            let k = self.entries@[i as int].0@;
            assert(has_key(self.entries@, k));
            let j = index_of(self.entries@, k);
            assert(j == i);
        }
        &self.entries[i].1
    }

    /// Whether the bag has an entry named `key`.
    pub fn contains_key(&self, key: &str) -> (r: bool)
        ensures
            r == self@.contains_key(key@),
    {
        position(&self.entries, key).is_some()
    }

    /// The value stored under `key`, if there is one.
    pub fn get(&self, key: &str) -> (value: Option<&serde_json::Value>)
        ensures
            self@.contains_key(key@) ==> value == Some(&self@[key@]),
            !self@.contains_key(key@) ==> value.is_none(),
    {
        match position(&self.entries, key) {
            Some(i) => {
                proof {
                    use_type_invariant(self);
                    assert(has_key(self.entries@, key@));
                    assert(index_of(self.entries@, key@) == i);
                }
                Some(&self.entries[i].1)
            },
            None => None,
        }
    }

    /// Stores `value` under `key`. An entry of that name is overwritten in
    /// place; a new name goes to the end.
    pub fn insert(&mut self, key: String, value: serde_json::Value)
        ensures
            final(self)@ == old(self)@.insert(key@, value),
            old(self)@.contains_key(key@) ==> exists|i: int|
                0 <= i < old(self).pairs().len() && (#[trigger] old(self).pairs()[i]).0@ == key@
                    && final(self).pairs() == old(self).pairs().update(i, (key, value)),
            !old(self)@.contains_key(key@) ==> final(self).pairs() == old(self).pairs().push(
                (key, value),
            ),
    {
        proof {
            use_type_invariant(&*self);
        }
        let ghost before = self.entries@;
        let ghost name = key@;
        let mut entries: Vec<(String, serde_json::Value)> = Vec::new();
        core::mem::swap(&mut self.entries, &mut entries);
        let at = position(&entries, key.as_str());
        match at {
            Some(i) => {
                entries.set(i, (key, value));
                proof {
                    let after = entries@;
                    assert(after.len() == before.len());
                    assert(after[i as int].0@ == name);
                    assert forall|a: int, b: int| 0 <= a < b < after.len() implies (
                    #[trigger] after[a]).0@ != (#[trigger] after[b]).0@ by {
                        assert(after[a].0@ == before[a].0@);
                        assert(after[b].0@ == before[b].0@);
                    }
                    lemma_map_after_overwrite(before, after, i as int, name, value);
                    assert(after =~= before.update(i as int, (key, value)));
                    assert(before[i as int].0@ == name);
                }
            },
            None => {
                entries.push((key, value));
                proof {
                    let after = entries@;
                    assert forall|a: int, b: int| 0 <= a < b < after.len() implies (
                    #[trigger] after[a]).0@ != (#[trigger] after[b]).0@ by {
                        if b < before.len() {
                            assert(after[a] == before[a]);
                            assert(after[b] == before[b]);
                        } else {
                            assert(after[a] == before[a]);
                            assert(after[b].0@ == name);
                        }
                    }
                    lemma_map_after_append(before, after, name, value);
                }
            },
        }
        core::mem::swap(&mut self.entries, &mut entries);
        proof {
            if let Some(i) = at {
                assert(old(self).pairs()[i as int].0@ == key@);
                assert(self.pairs() =~= old(self).pairs().update(i as int, (key, value)));
            } else {
                assert(!has_key(before, key@));
            }
        }
    }
}

/// Overwriting the entry of a name that is present updates the map at that
/// name and nowhere else.
proof fn lemma_map_after_overwrite(
    before: Seq<(String, serde_json::Value)>,
    after: Seq<(String, serde_json::Value)>,
    i: int,
    name: Seq<char>,
    value: serde_json::Value,
)
    requires
        keys_distinct(before),
        keys_distinct(after),
        0 <= i < before.len(),
        after.len() == before.len(),
        before[i].0@ == name,
        after[i].0@ == name,
        after[i].1 == value,
        forall|k: int| 0 <= k < before.len() && k != i ==> #[trigger] after[k] == before[k],
    ensures
        as_map(after) == as_map(before).insert(name, value),
{
    let m1 = as_map(after);
    let m2 = as_map(before).insert(name, value);
    assert forall|k: Seq<char>| m1.contains_key(k) == m2.contains_key(k) by {
        if has_key(after, k) {
            let j = index_of(after, k);
            if j != i {
                assert(before[j] == after[j]);
                assert(has_key(before, k));
            }
        }
        if has_key(before, k) {
            let j = index_of(before, k);
            if j != i {
                assert(after[j] == before[j]);
                assert(has_key(after, k));
            } else {
                assert(after[i].0@ == k);
                assert(has_key(after, k));
            }
        }
        if k == name {
            assert(after[i].0@ == k);
            assert(has_key(after, k));
        }
    }
    assert forall|k: Seq<char>| m1.contains_key(k) implies m1[k] == m2[k] by {
        let j = index_of(after, k);
        if k == name {
            assert(j == i);
        } else {
            assert(j != i);
            assert(before[j] == after[j]);
            assert(has_key(before, k));
            let j2 = index_of(before, k);
            assert(j2 == j);
        }
    }
    assert(m1 =~= m2);
}

/// Appending an entry under a name that is absent adds that name to the map
/// and changes nothing else.
proof fn lemma_map_after_append(
    before: Seq<(String, serde_json::Value)>,
    after: Seq<(String, serde_json::Value)>,
    name: Seq<char>,
    value: serde_json::Value,
)
    requires
        keys_distinct(before),
        keys_distinct(after),
        !has_key(before, name),
        after.len() == before.len() + 1,
        after[before.len() as int].0@ == name,
        after[before.len() as int].1 == value,
        forall|k: int| 0 <= k < before.len() ==> #[trigger] after[k] == before[k],
    ensures
        as_map(after) == as_map(before).insert(name, value),
{
    let n = before.len() as int;
    let m1 = as_map(after);
    let m2 = as_map(before).insert(name, value);
    assert forall|k: Seq<char>| m1.contains_key(k) == m2.contains_key(k) by {
        if has_key(after, k) {
            let j = index_of(after, k);
            if j < n {
                assert(before[j] == after[j]);
                assert(has_key(before, k));
            }
        }
        if has_key(before, k) {
            let j = index_of(before, k);
            assert(after[j] == before[j]);
            assert(has_key(after, k));
        }
        if k == name {
            assert(after[n].0@ == k);
            assert(has_key(after, k));
        }
    }
    assert forall|k: Seq<char>| m1.contains_key(k) implies m1[k] == m2[k] by {
        let j = index_of(after, k);
        if k == name {
            assert(after[n].0@ == k);
            assert(j == n);
        } else {
            assert(j < n);
            assert(before[j] == after[j]);
            assert(has_key(before, k));
            let j2 = index_of(before, k);
            assert(after[j2] == before[j2]);
            assert(j2 == j);
        }
    }
    assert(m1 =~= m2);
}

/// What was stored under a name is what is found there, and storing under one
/// name leaves every other name as it was.
pub proof fn lemma_insert_then_get(
    m: Map<Seq<char>, serde_json::Value>,
    key: Seq<char>,
    value: serde_json::Value,
    other: Seq<char>,
)
    requires
        other != key,
    ensures
        m.insert(key, value).contains_key(key),
        m.insert(key, value)[key] == value,
        m.insert(key, value).contains_key(other) == m.contains_key(other),
        m.contains_key(other) ==> m.insert(key, value)[other] == m[other],
{
}

} // verus!
