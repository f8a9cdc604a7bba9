//! The configuration bag: a typed key-value store shared, one caller at a
//! time, by every hook invocation and every retry decision of an execution.
//!
//! Keys are type identities (as in [`crate::payload::Payload::tag`]); an
//! insert with an existing key overwrites. The view is the map from key to
//! the most recently inserted value.
use vstd::prelude::*;

verus! {

/// Map described by a sequence of insertions, later entries overwriting
/// earlier ones.
pub open spec fn bag_map_of(s: Seq<(u64, u64)>) -> Map<u64, u64>
    decreases s.len(),
{
    if s.len() == 0 {
        Map::empty()
    } else {
        bag_map_of(s.drop_last()).insert(s.last().0, s.last().1)
    }
}

/// The value under `key`, with 0 standing for an absent key.
pub open spec fn bag_lookup(m: Map<u64, u64>, key: u64) -> u64 {
    if m.contains_key(key) {
        m[key]
    } else {
        0
    }
}

/// Last value inserted under `key`, if any.
pub open spec fn last_entry(s: Seq<(u64, u64)>, key: u64) -> Option<u64>
    decreases s.len(),
{
    if s.len() == 0 {
        None
    } else if s.last().0 == key {
        Some(s.last().1)
    } else {
        last_entry(s.drop_last(), key)
    }
}

proof fn lemma_last_entry_is_map(s: Seq<(u64, u64)>, key: u64)
    ensures
        bag_map_of(s).contains_key(key) <==> last_entry(s, key) is Some,
        last_entry(s, key) is Some ==> bag_map_of(s)[key] == last_entry(s, key)->0,
    decreases s.len(),
{
    if s.len() > 0 {
        lemma_last_entry_is_map(s.drop_last(), key);
    }
}

/// The typed store threaded through every hook call and retry decision of
/// one execution.
pub struct ConfigBag {
    entries: Vec<(u64, u64)>,
}

impl View for ConfigBag {
    type V = Map<u64, u64>;

    closed spec fn view(&self) -> Map<u64, u64> {
        bag_map_of(self.entries@)
    }
}

impl ConfigBag {
    /// An empty bag.
    pub fn new() -> (r: ConfigBag)
        ensures
            r@ == Map::<u64, u64>::empty(),
    {
        ConfigBag { entries: Vec::new() }
    }

    /// Inserts `value` under `key`, overwriting any earlier value.
    pub fn insert(&mut self, key: u64, value: u64)
        ensures
            final(self)@ == old(self)@.insert(key, value),
    {
        self.entries.push((key, value));
        proof {
            assert(self.entries@.drop_last() =~= old(self).entries@);
        }
    }

    /// The value under `key`, if one was inserted.
    pub fn get(&self, key: u64) -> (r: Option<u64>)
        ensures
            r == (if self@.contains_key(key) {
                Some(self@[key])
            } else {
                None::<u64>
            }),
    {
        let mut i: usize = 0;
        let mut res: Option<u64> = None;
        while i < self.entries.len()
            invariant
                i <= self.entries@.len(),
                res == last_entry(self.entries@.take(i as int), key),
            decreases self.entries@.len() - i,
        {
            proof {
                assert(self.entries@.take(i + 1 as int).drop_last() =~= self.entries@.take(
                    i as int,
                ));
                assert(self.entries@.take(i + 1 as int).last() == self.entries@[i as int]);
            }
            let (k, v) = self.entries[i];
            if k == key {
                res = Some(v);
            }
            i = i + 1;
        }
        proof {
            assert(self.entries@.take(self.entries@.len() as int) =~= self.entries@);
            lemma_last_entry_is_map(self.entries@, key);
        }
        res
    }

    /// The value under `key`, with 0 standing for an absent key.
    pub fn get_or_zero(&self, key: u64) -> (r: u64)
        ensures
            r == bag_lookup(self@, key),
    {
        match self.get(key) {
            Some(v) => v,
            None => 0,
        }
    }

    /// Whether a value was inserted under `key`.
    pub fn contains_key(&self, key: u64) -> (r: bool)
        ensures
            r == self@.contains_key(key),
    {
        self.get(key).is_some()
    }
}

} // verus!
