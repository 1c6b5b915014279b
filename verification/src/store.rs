//! The immutable in-memory asset bundle: an exact-path key-value store.

use vstd::prelude::*;
use crate::strutil::str_eq;

verus! {

/// One embedded file: its root-relative path and its raw bytes.
struct Asset {
    path: String,
    data: Vec<u8>,
}

/// The mapping an entry sequence denotes; a later entry for the same path
/// shadows an earlier one.
spec fn map_of(s: Seq<Asset>) -> Map<Seq<char>, Seq<u8>>
    decreases s.len(),
{
    if s.len() == 0 {
        Map::empty()
    } else {
        map_of(s.drop_last()).insert(s.last().path@, s.last().data@)
    }
}

/// A read-only set of assets, populated once at startup and then only queried.
pub struct AssetStore {
    entries: Vec<Asset>,
}

impl View for AssetStore {
    type V = Map<Seq<char>, Seq<u8>>;

    closed spec fn view(&self) -> Map<Seq<char>, Seq<u8>> {
        map_of(self.entries@)
    }
}

proof fn lemma_map_of_found(s: Seq<Asset>, key: Seq<char>, i: int)
    requires
        0 <= i < s.len(),
        s[i].path@ == key,
        forall|j: int| i < j < s.len() ==> s[j].path@ != key,
    ensures
        map_of(s).contains_key(key),
        map_of(s)[key] == s[i].data@,
    decreases s.len(),
{
    if i < s.len() - 1 {
        lemma_map_of_found(s.drop_last(), key, i);
    }
}

proof fn lemma_map_of_absent(s: Seq<Asset>, key: Seq<char>)
    requires
        forall|j: int| 0 <= j < s.len() ==> s[j].path@ != key,
    ensures
        !map_of(s).contains_key(key),
    decreases s.len(),
{
    if s.len() > 0 {
        lemma_map_of_absent(s.drop_last(), key);
    }
}

impl AssetStore {
    /// An empty bundle.
    pub fn new() -> (r: AssetStore)
        ensures
            r@ == Map::<Seq<char>, Seq<u8>>::empty(),
    {
        AssetStore { entries: Vec::new() }
    }

    /// Adds one asset; an asset already stored under the same path is shadowed.
    pub fn insert(&mut self, path: String, data: Vec<u8>)
        ensures
            final(self)@ == old(self)@.insert(path@, data@),
    {
        let ghost before = self.entries@;
        let ghost p = path@;
        let ghost d = data@;
        self.entries.push(Asset { path, data });
        proof {
            assert(self.entries@.drop_last() =~= before);
            assert(self.entries@.last().path@ == p);
            assert(self.entries@.last().data@ == d);
        }
    }

    /// Looks an asset up by its exact path.
    pub fn get(&self, key: &str) -> (r: Option<&Vec<u8>>)
        ensures
            match r {
                Some(d) => self@.contains_key(key@) && d@ == self@[key@],
                None => !self@.contains_key(key@),
            },
    {
        let n: usize = self.entries.len();
        let mut i: usize = n;
        while i > 0
            invariant
                i <= n,
                n == self.entries@.len(),
                forall|j: int| i <= j < n ==> self.entries@[j].path@ != key@,
            decreases i,
        {
            let k: usize = i - 1;
            if str_eq(self.entries[k].path.as_str(), key) {
                proof {
                    lemma_map_of_found(self.entries@, key@, k as int);
                }
                return Some(&self.entries[k].data);
            }
            i = k;
        }
        proof {
            lemma_map_of_absent(self.entries@, key@);
        }
        None
    }
}

} // verus!
