//! The flat string-to-string mapping that one localization file holds.

use vstd::prelude::*;

verus! {

/// Pairwise distinct key views: the pair list denotes each key once.
pub open spec fn distinct_keys(entries: Seq<(String, String)>) -> bool {
    forall|i: int, j: int|
        0 <= i < j < entries.len() ==> (#[trigger] entries[i]).0@ != (#[trigger] entries[j]).0@
}

/// The mathematical map that a pair list stands for; a later entry for a
/// key overrides an earlier one, as a JSON object with a repeated member
/// name does.
pub open spec fn map_of(entries: Seq<(String, String)>) -> Map<Seq<char>, Seq<char>>
    decreases entries.len(),
{
    if entries.len() == 0 {
        Map::empty()
    } else {
        map_of(entries.drop_last()).insert(entries.last().0@, entries.last().1@)
    }
}

/// Some entry of the pair list carries the key.
pub open spec fn has_key(entries: Seq<(String, String)>, k: Seq<char>) -> bool {
    exists|i: int| 0 <= i < entries.len() && (#[trigger] entries[i]).0@ == k
}

/// A key is in the map of a pair list exactly when some entry carries it,
/// and that map's domain is finite.
pub proof fn lemma_map_of_dom(entries: Seq<(String, String)>)
    ensures
        forall|k: Seq<char>| #[trigger] map_of(entries).dom().contains(k) <==> has_key(entries, k),
        map_of(entries).dom().finite(),
    decreases entries.len(),
{
    if entries.len() == 0 {
        assert(map_of(entries).dom() =~= Set::<Seq<char>>::empty());
    } else {
        let prefix = entries.drop_last();
        lemma_map_of_dom(prefix);
        assert forall|k: Seq<char>| #[trigger]
            map_of(entries).dom().contains(k) implies has_key(entries, k) by {
            if k == entries.last().0@ {
                assert((entries[entries.len() - 1]).0@ == k);
            } else {
                let i = choose|i: int| 0 <= i < prefix.len() && (#[trigger] prefix[i]).0@ == k;
                assert((entries[i]).0@ == k);
            }
        }
        assert forall|k: Seq<char>| has_key(entries, k) implies #[trigger]
            map_of(entries).dom().contains(k) by {
            let i = choose|i: int| 0 <= i < entries.len() && (#[trigger] entries[i]).0@ == k;
            if i < entries.len() - 1 {
                assert((prefix[i]).0@ == k);
            }
        }
        assert(map_of(entries).dom() =~= map_of(prefix).dom().insert(entries.last().0@));
    }
}

/// With distinct keys the map of a pair list has exactly one member per
/// entry.
pub proof fn lemma_map_of_len(entries: Seq<(String, String)>)
    requires
        distinct_keys(entries),
    ensures
        map_of(entries).dom().len() == entries.len(),
    decreases entries.len(),
{
    if entries.len() == 0 {
        assert(map_of(entries).dom() =~= Set::<Seq<char>>::empty());
    } else {
        let prefix = entries.drop_last();
        assert(distinct_keys(prefix)) by {
            assert(forall|i: int| 0 <= i < prefix.len() ==> prefix[i] == entries[i]);
        }
        lemma_map_of_len(prefix);
        lemma_map_of_dom(prefix);
        assert(!map_of(prefix).dom().contains(entries.last().0@)) by {
            assert forall|i: int| 0 <= i < prefix.len() implies (#[trigger] prefix[i]).0@
                != entries.last().0@ by {
                assert(entries[i] == prefix[i]);
                assert((entries[entries.len() - 1]).0@ == entries.last().0@);
            }
        }
        assert(map_of(entries).dom() =~= map_of(prefix).dom().insert(entries.last().0@));
    }
}

/// With distinct keys, every entry's value is what the map gives for the
/// entry's key.
pub proof fn lemma_map_of_index(entries: Seq<(String, String)>, i: int)
    requires
        distinct_keys(entries),
        0 <= i < entries.len(),
    ensures
        map_of(entries).dom().contains(entries[i].0@),
        map_of(entries)[entries[i].0@] == entries[i].1@,
    decreases entries.len(),
{
    let prefix = entries.drop_last();
    if i == entries.len() - 1 {
        assert(entries.last() == entries[i]);
    } else {
        assert(distinct_keys(prefix)) by {
            assert(forall|j: int| 0 <= j < prefix.len() ==> prefix[j] == entries[j]);
        }
        assert(prefix[i] == entries[i]);
        lemma_map_of_index(prefix, i);
        assert((entries[i]).0@ != (entries[entries.len() - 1]).0@);
    }
}

/// Overwriting the entry that carries a key is inserting that key anew in
/// the map the list stands for.
pub proof fn lemma_map_of_update(entries: Seq<(String, String)>, i: int, pair: (String, String))
    requires
        distinct_keys(entries),
        0 <= i < entries.len(),
        entries[i].0@ == pair.0@,
    ensures
        map_of(entries.update(i, pair)) == map_of(entries).insert(pair.0@, pair.1@),
    decreases entries.len(),
{
    let updated = entries.update(i, pair);
    if i == entries.len() - 1 {
        assert(updated.drop_last() =~= entries.drop_last());
        assert(updated.last() == pair);
        assert(map_of(entries).insert(pair.0@, pair.1@) =~= map_of(entries.drop_last()).insert(
            pair.0@,
            pair.1@,
        ));
    } else {
        let prefix = entries.drop_last();
        assert(distinct_keys(prefix)) by {
            assert(forall|j: int| 0 <= j < prefix.len() ==> prefix[j] == entries[j]);
        }
        assert(prefix[i] == entries[i]);
        lemma_map_of_update(prefix, i, pair);
        assert(updated.drop_last() =~= prefix.update(i, pair));
        assert(updated.last() == entries.last());
        assert((entries[i]).0@ != (entries[entries.len() - 1]).0@);
        assert(map_of(updated) =~= map_of(entries).insert(pair.0@, pair.1@));
    }
}

/// A flat string-to-string mapping parsed from one localization file.
/// The pair list of a well-formed value carries pairwise distinct keys, so
/// it stands for exactly one mathematical map.
#[derive(Debug)]
pub struct KeyValueMap {
    pub entries: Vec<(String, String)>,
}

impl View for KeyValueMap {
    type V = Map<Seq<char>, Seq<char>>;

    open spec fn view(&self) -> Map<Seq<char>, Seq<char>> {
        map_of(self.entries@)
    }
}

impl KeyValueMap {
    /// The internal invariant: no key occurs in two entries.
    pub open spec fn wf(&self) -> bool {
        distinct_keys(self.entries@)
    }

    /// An empty mapping.
    pub fn new() -> (m: KeyValueMap)
        ensures
            m.wf(),
            m@ == Map::<Seq<char>, Seq<char>>::empty(),
    {
        KeyValueMap { entries: Vec::new() }
    }

    /// The cardinality: how many key/value members the mapping holds.
    pub fn len(&self) -> (n: usize)
        requires
            self.wf(),
        ensures
            n == self@.dom().len(),
    {
        proof {
            lemma_map_of_len(self.entries@);
        }
        self.entries.len()
    }

    /// Whether the key set holds the given key.
    pub fn contains_key(&self, key: &String) -> (b: bool)
        ensures
            b == self@.dom().contains(key@),
    {
        proof {
            lemma_map_of_dom(self.entries@);
        }
        let n = self.entries.len();
        let mut idx: usize = 0;
        while idx < n
            invariant
                n == self.entries@.len(),
                forall|j: int| 0 <= j < idx ==> (#[trigger] self.entries@[j]).0@ != key@,
            decreases n - idx,
        {
            if self.entries[idx].0 == *key {
                proof {
                    lemma_map_of_dom(self.entries@);
                    assert((self.entries@[idx as int]).0@ == key@);
                    assert(has_key(self.entries@, key@));
                }
                return true;
            }
            idx += 1;
        }
        proof {
            assert(!has_key(self.entries@, key@));
        }
        false
    }

    /// The value stored under the given key, if the key set holds it.
    pub fn get(&self, key: &String) -> (r: Option<&String>)
        requires
            self.wf(),
        ensures
            match r {
                Some(v) => self@.dom().contains(key@) && self@[key@] == v@,
                None => !self@.dom().contains(key@),
            },
    {
        proof {
            lemma_map_of_dom(self.entries@);
        }
        let n = self.entries.len();
        let mut idx: usize = 0;
        while idx < n
            invariant
                n == self.entries@.len(),
                distinct_keys(self.entries@),
                forall|j: int| 0 <= j < idx ==> (#[trigger] self.entries@[j]).0@ != key@,
            decreases n - idx,
        {
            if self.entries[idx].0 == *key {
                proof {
                    lemma_map_of_index(self.entries@, idx as int);
                }
                return Some(&self.entries[idx].1);
            }
            idx += 1;
        }
        proof {
            assert(!has_key(self.entries@, key@));
        }
        None
    }

    /// Puts the value under the key, replacing any value stored there.
    pub fn insert(&mut self, key: String, value: String)
        requires
            old(self).wf(),
        ensures
            final(self).wf(),
            final(self)@ == old(self)@.insert(key@, value@),
    {
        let ghost orig = self.entries@;
        let n = self.entries.len();
        let mut idx: usize = 0;
        while idx < n
            invariant
                self.entries@ == orig,
                orig == old(self).entries@,
                n == orig.len(),
                distinct_keys(orig),
                forall|j: int| 0 <= j < idx ==> (#[trigger] orig[j]).0@ != key@,
            decreases n - idx,
        {
            if self.entries[idx].0 == key {
                self.entries.set(idx, (key, value));
                proof {
                    lemma_map_of_update(orig, idx as int, (key, value));
                    assert forall|i: int, j: int|
                        0 <= i < j < self.entries@.len() implies (#[trigger] self.entries@[i]).0@
                        != (#[trigger] self.entries@[j]).0@ by {
                        assert((orig[i]).0@ != (orig[j]).0@);
                    }
                }
                return ;
            }
            idx += 1;
        }
        self.entries.push((key, value));
        proof {
            assert(self.entries@.drop_last() =~= orig);
            assert(self.entries@.last() == (key, value));
            assert forall|i: int, j: int|
                0 <= i < j < self.entries@.len() implies (#[trigger] self.entries@[i]).0@
                != (#[trigger] self.entries@[j]).0@ by {
                if j < orig.len() {
                    assert((orig[i]).0@ != (orig[j]).0@);
                } else {
                    assert((orig[i]).0@ != key@);
                }
            }
        }
    }
}

} // verus!
