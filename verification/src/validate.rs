//! The key-length and key-equality validators over the parsed maps.

use vstd::prelude::*;
use crate::errors::{EqualityError, LengthError};
use crate::flat_map::{has_key, lemma_map_of_dom, KeyValueMap};

verus! {

/// Every map of the list is well formed.
pub open spec fn wf_all(maps: Seq<KeyValueMap>) -> bool {
    forall|i: int| 0 <= i < maps.len() ==> (#[trigger] maps[i]).wf()
}

/// Some map of the list has no entries.
pub open spec fn some_empty(maps: Seq<KeyValueMap>) -> bool {
    exists|i: int| 0 <= i < maps.len() && (#[trigger] maps[i])@.dom().len() == 0
}

/// Every map of the list has as many entries as the first.
pub open spec fn uniform_cardinality(maps: Seq<KeyValueMap>) -> bool {
    forall|i: int|
        0 <= i < maps.len() ==> (#[trigger] maps[i])@.dom().len() == maps[0]@.dom().len()
}

/// Every map of the list has the key set of the first.
pub open spec fn equal_key_sets(maps: Seq<KeyValueMap>) -> bool {
    forall|i: int| 0 <= i < maps.len() ==> (#[trigger] maps[i])@.dom() == maps[0]@.dom()
}

/// Accepts exactly when there is at least one map and all maps share one
/// non-zero entry count. One empty map fails the whole batch as
/// `EmptyFile`, even when the counts disagree too; `Mismatch` is kept for
/// batches of non-empty maps of differing counts.
pub fn check_key_length(data: &Vec<KeyValueMap>) -> (r: Result<(), LengthError>)
    requires
        wf_all(data@),
    ensures
        match r {
            Ok(()) => data@.len() >= 1 && !some_empty(data@) && uniform_cardinality(data@),
            Err(LengthError::NoInput) => data@.len() == 0,
            Err(LengthError::EmptyFile) => some_empty(data@),
            Err(LengthError::Mismatch) => data@.len() >= 1 && !some_empty(data@)
                && !uniform_cardinality(data@),
        },
{
    let n = data.len();
    if n == 0 {
        return Err(LengthError::NoInput);
    }
    let mut min_len = data[0].len();
    let mut max_len = min_len;
    let mut i: usize = 1;
    while i < n
        invariant
            wf_all(data@),
            n == data@.len(),
            1 <= i <= n,
            exists|j: int| 0 <= j < i && (#[trigger] data@[j])@.dom().len() == min_len,
            exists|j: int| 0 <= j < i && (#[trigger] data@[j])@.dom().len() == max_len,
            forall|j: int| 0 <= j < i ==> min_len <= (#[trigger] data@[j])@.dom().len() <= max_len,
        decreases n - i,
    {
        let l = data[i].len();
        if l < min_len {
            min_len = l;
        }
        if l > max_len {
            max_len = l;
        }
        i += 1;
    }
    if min_len == 0 {
        return Err(LengthError::EmptyFile);
    }
    if min_len != max_len {
        proof {
            let j1 = choose|j: int| 0 <= j < n && (#[trigger] data@[j])@.dom().len() == min_len;
            let j2 = choose|j: int| 0 <= j < n && (#[trigger] data@[j])@.dom().len() == max_len;
            if uniform_cardinality(data@) {
                assert(data@[j1]@.dom().len() == data@[0]@.dom().len());
                assert(data@[j2]@.dom().len() == data@[0]@.dom().len());
            }
        }
        return Err(LengthError::Mismatch);
    }
    proof {
        assert forall|j: int| 0 <= j < n implies (#[trigger] data@[j])@.dom().len()
            == data@[0]@.dom().len() by {
            assert(min_len <= data@[j]@.dom().len() <= max_len);
            assert(min_len <= data@[0]@.dom().len() <= max_len);
        }
    }
    Ok(())
}

/// Whether the two maps have the same key set, whatever their values.
pub fn same_key_set(a: &KeyValueMap, b: &KeyValueMap) -> (r: bool)
    ensures
        r == (a@.dom() == b@.dom()),
{
    let n = a.entries.len();
    let mut i: usize = 0;
    while i < n
        invariant
            n == a.entries@.len(),
            forall|j: int| 0 <= j < i ==> b@.dom().contains((#[trigger] a.entries@[j]).0@),
        decreases n - i,
    {
        if !b.contains_key(&a.entries[i].0) {
            proof {
                lemma_map_of_dom(a.entries@);
                assert(has_key(a.entries@, a.entries@[i as int].0@));
                assert(a@.dom().contains(a.entries@[i as int].0@));
            }
            return false;
        }
        i += 1;
    }
    let m = b.entries.len();
    let mut k: usize = 0;
    while k < m
        invariant
            m == b.entries@.len(),
            forall|j: int| 0 <= j < a.entries@.len()
                ==> b@.dom().contains((#[trigger] a.entries@[j]).0@),
            forall|j: int| 0 <= j < k ==> a@.dom().contains((#[trigger] b.entries@[j]).0@),
        decreases m - k,
    {
        if !a.contains_key(&b.entries[k].0) {
            proof {
                lemma_map_of_dom(b.entries@);
                assert(has_key(b.entries@, b.entries@[k as int].0@));
                assert(b@.dom().contains(b.entries@[k as int].0@));
            }
            return false;
        }
        k += 1;
    }
    proof {
        lemma_map_of_dom(a.entries@);
        lemma_map_of_dom(b.entries@);
        assert forall|key: Seq<char>| #[trigger]
            a@.dom().contains(key) implies b@.dom().contains(key) by {
            let j = choose|j: int| 0 <= j < a.entries@.len() && (#[trigger] a.entries@[j]).0@
                == key;
            assert(b@.dom().contains(a.entries@[j].0@));
        }
        assert forall|key: Seq<char>| #[trigger]
            b@.dom().contains(key) implies a@.dom().contains(key) by {
            let j = choose|j: int| 0 <= j < b.entries@.len() && (#[trigger] b.entries@[j]).0@
                == key;
            assert(a@.dom().contains(b.entries@[j].0@));
        }
        assert(a@.dom() =~= b@.dom());
    }
    true
}

/// Maps sharing one key set have one entry count, so passing the
/// key-equality check implies passing the cheaper count check: the count
/// check is a necessary filter, though never a sufficient one.
pub proof fn lemma_equal_keys_give_uniform_cardinality(maps: Seq<KeyValueMap>)
    requires
        equal_key_sets(maps),
    ensures
        uniform_cardinality(maps),
{
    assert forall|i: int| 0 <= i < maps.len() implies (#[trigger] maps[i])@.dom().len()
        == maps[0]@.dom().len() by {
        assert(maps[i]@.dom() == maps[0]@.dom());
    }
}

/// Whether two map lists share one key set depends on their key sets
/// alone: exchanging every map for one with the same keys and any other
/// values leaves the key-equality verdict unchanged.
pub proof fn lemma_equality_ignores_values(a: Seq<KeyValueMap>, b: Seq<KeyValueMap>)
    requires
        a.len() == b.len(),
        forall|i: int| #![trigger a[i], b[i]] 0 <= i < a.len() ==> a[i]@.dom() == b[i]@.dom(),
    ensures
        equal_key_sets(a) == equal_key_sets(b),
{
    if a.len() > 0 {
        if equal_key_sets(a) {
            assert forall|i: int| 0 <= i < b.len() implies (#[trigger] b[i])@.dom()
                == b[0]@.dom() by {
                assert(a[i]@.dom() == a[0]@.dom());
                assert(a[i]@.dom() == b[i]@.dom());
                assert(a[0]@.dom() == b[0]@.dom());
            }
        }
        if equal_key_sets(b) {
            assert forall|i: int| 0 <= i < a.len() implies (#[trigger] a[i])@.dom()
                == a[0]@.dom() by {
                assert(b[i]@.dom() == b[0]@.dom());
                assert(a[i]@.dom() == b[i]@.dom());
                assert(a[0]@.dom() == b[0]@.dom());
            }
        }
    }
}

/// Accepts exactly when there is at least one map and all maps carry the
/// key set of the first; the values play no part. Fails on the first map
/// whose key set differs.
pub fn check_files_equal(data: Vec<KeyValueMap>) -> (r: Result<(), EqualityError>)
    ensures
        match r {
            Ok(()) => data@.len() >= 1 && equal_key_sets(data@),
            Err(EqualityError::NoInput) => data@.len() == 0,
            Err(EqualityError::KeySetMismatch) => !equal_key_sets(data@),
        },
{
    let n = data.len();
    if n == 0 {
        return Err(EqualityError::NoInput);
    }
    let mut i: usize = 1;
    while i < n
        invariant
            n == data@.len(),
            1 <= i <= n,
            forall|j: int| 0 <= j < i ==> (#[trigger] data@[j])@.dom() == data@[0]@.dom(),
        decreases n - i,
    {
        if !same_key_set(&data[0], &data[i]) {
            proof {
                assert(data@[i as int]@.dom() != data@[0]@.dom());
            }
            return Err(EqualityError::KeySetMismatch);
        }
        i += 1;
    }
    Ok(())
}

} // verus!
