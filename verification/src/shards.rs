//! The shards of a configuration, each under its key.

use vstd::prelude::*;
use vstd::set_lib::lemma_subset_equality;
use vstd::std_specs::cmp::PartialEqSpecImpl;
use crate::schema::{Shard, ShardView};
use crate::text::same_text;

verus! {

/// The map that a list of entries writes, a later entry replacing an earlier
/// one of the same key.
pub open spec fn entries_map(entries: Seq<(String, Shard)>) -> Map<Seq<char>, ShardView>
    decreases entries.len(),
{
    if entries.len() == 0 {
        Map::empty()
    } else {
        entries_map(entries.drop_last()).insert(entries.last().0@, entries.last().1@)
    }
}

/// Whether no key occurs twice in `entries`.
pub open spec fn distinct_keys(entries: Seq<(String, Shard)>) -> bool {
    forall|i: int, j: int|
        #![trigger entries[i], entries[j]]
        0 <= i < j < entries.len() ==> entries[i].0@ != entries[j].0@
}

/// Whether some entry of `entries` has the key `key`.
pub open spec fn has_key(entries: Seq<(String, Shard)>, key: Seq<char>) -> bool {
    exists|i: int| 0 <= i < entries.len() && (#[trigger] entries[i]).0@ == key
}

/// Whether `entries` lists `map`: one entry for each key, holding its shard.
pub open spec fn lists(entries: Seq<(String, Shard)>, map: Map<Seq<char>, ShardView>) -> bool {
    &&& distinct_keys(entries)
    &&& map.dom().finite()
    &&& map.len() == entries.len()
    &&& forall|i: int|
        #![trigger entries[i]]
        0 <= i < entries.len() ==> map.contains_key(entries[i].0@) && map[entries[i].0@]
            == entries[i].1@
    &&& forall|key: Seq<char>| #[trigger] map.contains_key(key) ==> has_key(entries, key)
}

/// Entries with distinct keys list the map that they write.
pub proof fn entries_list_their_map(entries: Seq<(String, Shard)>)
    requires
        distinct_keys(entries),
    ensures
        lists(entries, entries_map(entries)),
    decreases entries.len(),
{
    if entries.len() > 0 {
        let front = entries.drop_last();
        entries_list_their_map(front);
        let map = entries_map(entries);
        assert forall|i: int| 0 <= i < entries.len() implies map.contains_key(
            (#[trigger] entries[i]).0@,
        ) && map[entries[i].0@] == entries[i].1@ by {
            if i < front.len() {
                assert(front[i] == entries[i]);
            }
        }
    }
}

/// Two maps that the same entries list are one map.
pub proof fn listed_map_is_unique(
    entries: Seq<(String, Shard)>,
    a: Map<Seq<char>, ShardView>,
    b: Map<Seq<char>, ShardView>,
)
    requires
        lists(entries, a),
        lists(entries, b),
    ensures
        a == b,
{
    assert forall|key: Seq<char>| a.contains_key(key) implies b.contains_key(key) && a[key]
        == b[key] by {}
}

/// The shards of a configuration, each under its key. No key occurs twice.
#[derive(Debug)]
pub struct ShardMap {
    entries: Vec<(String, Shard)>,
}

impl View for ShardMap {
    type V = Map<Seq<char>, ShardView>;

    closed spec fn view(&self) -> Map<Seq<char>, ShardView> {
        entries_map(self.entries@)
    }
}

impl ShardMap {
    #[verifier::type_invariant]
    spec fn well_formed(&self) -> bool {
        distinct_keys(self.entries@)
    }

    /// A map without shards.
    pub fn new() -> (shards: ShardMap)
        ensures
            shards@ == Map::<Seq<char>, ShardView>::empty(),
    {
        ShardMap { entries: Vec::new() }
    }

    /// The number of shards.
    pub fn len(&self) -> (len: usize)
        ensures
            self@.dom().finite(),
            len == self@.len(),
    {
        proof {
            use_type_invariant(self);
            entries_list_their_map(self.entries@);
        }
        self.entries.len()
    }

    /// The shards with their keys, each once.
    pub fn entries(&self) -> (entries: &Vec<(String, Shard)>)
        ensures
            lists(entries@, self@),
    {
        proof {
            use_type_invariant(self);
            entries_list_their_map(self.entries@);
        }
        &self.entries
    }

    fn position(&self, key: &str) -> (position: Option<usize>)
        ensures
            match position {
                Some(i) => i < self.entries.len() && self.entries[i as int].0@ == key@,
                None => !has_key(self.entries@, key@),
            },
    {
        let mut i: usize = 0;
        while i < self.entries.len()
            invariant
                i <= self.entries.len(),
                forall|j: int| 0 <= j < i ==> (#[trigger] self.entries[j]).0@ != key@,
            decreases self.entries.len() - i,
        {
            if same_text(self.entries[i].0.as_str(), key) {
                return Some(i);
            }
            i += 1;
        }
        None
    }

    /// The shard under `key`, if there is one.
    pub fn get(&self, key: &str) -> (shard: Option<&Shard>)
        ensures
            match shard {
                Some(found) => self@.contains_key(key@) && found@ == self@[key@],
                None => !self@.contains_key(key@),
            },
    {
        proof {
            use_type_invariant(self);
            entries_list_their_map(self.entries@);
        }
        match self.position(key) {
            Some(i) => Some(&self.entries[i].1),
            None => None,
        }
    }

    /// Whether there is a shard under `key`.
    pub fn contains_key(&self, key: &str) -> (found: bool)
        ensures
            found == self@.contains_key(key@),
    {
        self.get(key).is_some()
    }

    /// Puts `shard` under `key`, in place of the shard that was there, which is
    /// returned.
    pub fn insert(&mut self, key: String, shard: Shard) -> (previous: Option<Shard>)
        ensures
            final(self)@ == old(self)@.insert(key@, shard@),
            match previous {
                Some(replaced) => old(self)@.contains_key(key@) && replaced@ == old(self)@[key@],
                None => !old(self)@.contains_key(key@),
            },
    {
        proof {
            use_type_invariant(&*self);
            entries_list_their_map(self.entries@);
        }
        let ghost before = self.entries@;
        let ghost entry = (key, shard);
        let position = self.position(key.as_str());
        let mut taken = ShardMap::new();
        core::mem::swap(self, &mut taken);
        let mut entries = taken.entries;
        match position {
            Some(i) => {
                let replaced = entries.remove(i);
                entries.insert(i, (key, shard));
                proof {
                    let after = entries@;
                    entries_list_their_map(after);
                    let wanted = entries_map(before).insert(entry.0@, entry.1@);
                    assert(lists(after, wanted)) by {
                        assert forall|k: Seq<char>| #[trigger]
                            wanted.contains_key(k) implies has_key(after, k) by {
                            let j = choose|j: int|
                                0 <= j < before.len() && (#[trigger] before[j]).0@ == k;
                            assert(after[j].0@ == k);
                        }
                    }
                    listed_map_is_unique(after, entries_map(after), wanted);
                }
                *self = ShardMap { entries };
                Some(replaced.1)
            },
            None => {
                entries.push((key, shard));
                proof {
                    let after = entries@;
                    assert(after.drop_last() =~= before);
                }
                *self = ShardMap { entries };
                None
            },
        }
    }
}

impl Clone for ShardMap {
    fn clone(&self) -> (copy: ShardMap)
        ensures
            copy@ == self@,
    {
        proof {
            use_type_invariant(self);
            entries_list_their_map(self.entries@);
        }
        let mut entries: Vec<(String, Shard)> = Vec::new();
        let mut i: usize = 0;
        while i < self.entries.len()
            invariant
                i <= self.entries.len(),
                entries.len() == i,
                forall|j: int|
                    0 <= j < i ==> (#[trigger] entries[j]).0@ == self.entries[j].0@ && entries[j].1@
                        == self.entries[j].1@,
            decreases self.entries.len() - i,
        {
            let entry = &self.entries[i];
            entries.push((entry.0.clone(), entry.1.clone()));
            i += 1;
        }
        proof {
            let copied = entries@;
            let own = self.entries@;
            entries_list_their_map(copied);
            assert(lists(copied, entries_map(own))) by {
                assert forall|key: Seq<char>| #[trigger]
                    entries_map(own).contains_key(key) implies has_key(copied, key) by {
                    let j = choose|j: int| 0 <= j < own.len() && (#[trigger] own[j]).0@ == key;
                    assert(copied[j].0@ == key);
                }
            }
            listed_map_is_unique(copied, entries_map(copied), entries_map(own));
        }
        ShardMap { entries }
    }
}

impl PartialEq for ShardMap {
    fn eq(&self, other: &ShardMap) -> (equal: bool) {
        if self.len() != other.len() {
            return false;
        }
        let entries = self.entries();
        let mut i: usize = 0;
        while i < entries.len()
            invariant
                i <= entries.len(),
                lists(entries@, self@),
                forall|j: int|
                    0 <= j < i ==> other@.contains_key((#[trigger] entries[j]).0@)
                        && other@[entries[j].0@] == entries[j].1@,
            decreases entries.len() - i,
        {
            let entry = &entries[i];
            match other.get(entry.0.as_str()) {
                Some(shard) => {
                    if !(*shard == entry.1) {
                        return false;
                    }
                },
                None => {
                    return false;
                },
            }
            i += 1;
        }
        proof {
            lemma_subset_equality(self@.dom(), other@.dom());
            assert forall|key: Seq<char>| self@.contains_key(key) implies self@[key]
                == other@[key] by {}
            assert(self@ =~= other@);
        }
        true
    }
}

impl PartialEqSpecImpl for ShardMap {
    open spec fn obeys_eq_spec() -> bool {
        true
    }

    open spec fn eq_spec(&self, other: &ShardMap) -> bool {
        self@ == other@
    }
}

} // verus!
