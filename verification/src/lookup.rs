//! How entities are found by name: the first entry that carries the name
//! answers, and a name that a second entry carries as well is a duplicate.

use vstd::prelude::*;

verus! {

/// Whether `key` is one of `names`.
pub open spec fn occurs(names: Seq<Seq<char>>, key: Seq<char>) -> bool {
    exists|i: int| 0 <= i < names.len() && #[trigger] names[i] == key
}

/// Whether position `i` is the first one at which `key` stands in `names`.
pub open spec fn first_at(names: Seq<Seq<char>>, key: Seq<char>, i: int) -> bool {
    &&& 0 <= i < names.len()
    &&& names[i] == key
    &&& forall|j: int| 0 <= j < i ==> #[trigger] names[j] != key
}

/// Whether the name at position `i` also stands at another position.
pub open spec fn shared(names: Seq<Seq<char>>, i: int) -> bool {
    exists|j: int| 0 <= j < names.len() && j != i && #[trigger] names[j] == names[i]
}

/// Whether no name stands at two positions.
pub open spec fn all_distinct(names: Seq<Seq<char>>) -> bool {
    forall|i: int, j: int|
        0 <= i < j < names.len() ==> #[trigger] names[i] != #[trigger] names[j]
}

/// Names are all distinct exactly when none of them is shared.
pub proof fn lemma_distinct_iff_none_shared(names: Seq<Seq<char>>)
    ensures
        all_distinct(names) <==> forall|i: int| 0 <= i < names.len() ==> !shared(names, i),
{
    if all_distinct(names) {
        assert forall|i: int| 0 <= i < names.len() implies !shared(names, i) by {
            if shared(names, i) {
                let j = choose|j: int| 0 <= j < names.len() && j != i && #[trigger] names[j]
                    == names[i];
                if j < i {
                    assert(names[j] != names[i]);
                } else {
                    assert(names[i] != names[j]);
                }
            }
        }
    }
    if forall|i: int| 0 <= i < names.len() ==> !shared(names, i) {
        assert forall|i: int, j: int| 0 <= i < j < names.len() implies #[trigger] names[i]
            != #[trigger] names[j] by {
            if names[i] == names[j] {
                assert(shared(names, i));
            }
        }
    }
}

/// A name that occurs has a first position, and only one.
pub proof fn lemma_first_exists(names: Seq<Seq<char>>, key: Seq<char>)
    requires
        occurs(names, key),
    ensures
        exists|i: int| first_at(names, key, i),
        forall|i: int, j: int| first_at(names, key, i) && first_at(names, key, j) ==> i == j,
{
    let w = choose|i: int| 0 <= i < names.len() && #[trigger] names[i] == key;
    lemma_first_below(names, key, w);
}

proof fn lemma_first_below(names: Seq<Seq<char>>, key: Seq<char>, w: int)
    requires
        0 <= w < names.len(),
        names[w] == key,
    ensures
        exists|i: int| first_at(names, key, i),
    decreases w,
{
    if forall|j: int| 0 <= j < w ==> #[trigger] names[j] != key {
        assert(first_at(names, key, w));
    } else {
        let j = choose|j: int| 0 <= j < w && #[trigger] names[j] == key;
        lemma_first_below(names, key, j);
    }
}

} // verus!
