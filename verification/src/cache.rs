//! The cache store: an opaque key to raw encoded bytes. This backend keeps
//! its entries in memory; a later write under the same key wins, and a read
//! sees exactly what the latest write put there.

use vstd::prelude::*;
use vstd::slice::slice_to_vec;
use vstd::string::StringExecFns;

verus! {

/// Key-to-bytes store for processed images.
pub struct ImageCache {
    entries: Vec<(String, Vec<u8>)>,
}

/// The bytes stored under `key`, taking the latest write.
pub open spec fn entry_lookup(s: Seq<(String, Vec<u8>)>, key: Seq<char>) -> Option<Seq<u8>>
    decreases s.len(),
{
    if s.len() == 0 {
        None
    } else if s.last().0@ == key {
        Some(s.last().1@)
    } else {
        entry_lookup(s.drop_last(), key)
    }
}

/// The entry list folded into a map; later entries override earlier ones.
pub open spec fn entries_map(s: Seq<(String, Vec<u8>)>) -> Map<Seq<char>, Seq<u8>>
    decreases s.len(),
{
    if s.len() == 0 {
        Map::empty()
    } else {
        entries_map(s.drop_last()).insert(s.last().0@, s.last().1@)
    }
}

proof fn lemma_lookup_matches_map(s: Seq<(String, Vec<u8>)>, key: Seq<char>)
    ensures
        entry_lookup(s, key) is Some <==> entries_map(s).contains_key(key),
        entry_lookup(s, key) matches Some(v) ==> entries_map(s)[key] == v,
    decreases s.len(),
{
    if s.len() > 0 {
        lemma_lookup_matches_map(s.drop_last(), key);
    }
}

impl View for ImageCache {
    type V = Map<Seq<char>, Seq<u8>>;

    closed spec fn view(&self) -> Map<Seq<char>, Seq<u8>> {
        entries_map(self.entries@)
    }
}

impl ImageCache {
    /// A store holding nothing.
    pub fn new() -> (r: ImageCache)
        ensures
            r@ == Map::<Seq<char>, Seq<u8>>::empty(),
    {
        ImageCache { entries: Vec::new() }
    }

    /// Returns the bytes stored under `key`, or `None` when the store holds
    /// no entry for it.
    pub fn get(&self, key: &str) -> (r: Option<Vec<u8>>)
        ensures
            match r {
                Some(v) => self@.contains_key(key@) && v@ == self@[key@],
                None => !self@.contains_key(key@),
            },
    {
        let needle = String::from_str(key);
        let mut i: usize = self.entries.len();
        proof {
            assert(self.entries@.take(i as int) =~= self.entries@);
        }
        while i > 0
            invariant
                i <= self.entries.len(),
                needle@ == key@,
                entry_lookup(self.entries@, key@) == entry_lookup(
                    self.entries@.take(i as int),
                    key@,
                ),
            decreases i,
        {
            i = i - 1;
            proof {
                assert(self.entries@.take(i as int + 1).last() == self.entries@[i as int]);
                assert(self.entries@.take(i as int + 1).drop_last() =~= self.entries@.take(
                    i as int,
                ));
            }
            let pair = &self.entries[i];
            if pair.0 == needle {
                proof {
                    lemma_lookup_matches_map(self.entries@, key@);
                }
                return Some(slice_to_vec(pair.1.as_slice()));
            }
        }
        proof {
            lemma_lookup_matches_map(self.entries@, key@);
        }
        None
    }

    /// Stores `data` under `key`, replacing whatever the store held there.
    pub fn put(&mut self, key: String, data: Vec<u8>)
        ensures
            final(self)@ == old(self)@.insert(key@, data@),
    {
        let ghost k = key@;
        let ghost d = data@;
        self.entries.push((key, data));
        proof {
            assert(self.entries@.drop_last() =~= old(self).entries@);
            assert(self.entries@.last().0@ == k && self.entries@.last().1@ == d);
        }
    }
}

/// Round-trip law: after storing bytes under a key, a lookup of that key
/// yields exactly those bytes, and every other key is left untouched.
pub proof fn lemma_cache_round_trip(
    m: Map<Seq<char>, Seq<u8>>,
    key: Seq<char>,
    data: Seq<u8>,
)
    ensures
        m.insert(key, data).contains_key(key),
        m.insert(key, data)[key] == data,
        forall|other: Seq<char>|
            other != key && m.contains_key(other) ==> #[trigger] m.insert(key, data)[other]
                == m[other],
{
}

} // verus!
