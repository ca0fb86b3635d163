//! The supported-chains table a provider owns: chain identifier to
//! vendor-specific routing datum (a subdomain, a full URL, or another
//! address fragment).
//!
//! The table is populated at provider construction and read-only
//! afterwards. Keys are stored in lowercased form; lookups normalize the
//! queried identifier, so a mixed-case chain identifier routes exactly as
//! its lowercase form does.

use vstd::prelude::*;

use crate::chain::{eq_ignore_case, is_normalized, lower_seq};

verus! {

/// First-match lookup in an association list of (key, routing datum).
pub open spec fn spec_lookup(t: Seq<(Seq<char>, Seq<char>)>, key: Seq<char>) -> Option<
    Seq<char>,
>
    decreases t.len(),
{
    if t.len() == 0 {
        None
    } else if t[0].0 == key {
        Some(t[0].1)
    } else {
        spec_lookup(t.drop_first(), key)
    }
}

/// A provider's mapping from lowercased chain identifier to routing datum.
#[derive(Debug)]
pub struct ChainTable {
    entries: Vec<(String, String)>,
}

impl View for ChainTable {
    type V = Seq<(Seq<char>, Seq<char>)>;

    closed spec fn view(&self) -> Seq<(Seq<char>, Seq<char>)> {
        self.entries@.map_values(|e: (String, String)| (e.0@, e.1@))
    }
}

impl ChainTable {
    /// Well-formedness: keys are stored lowercased and are unique.
    pub open spec fn wf(&self) -> bool {
        &&& forall|i: int| 0 <= i < self@.len() ==> lower_seq(#[trigger] self@[i].0) == self@[i].0
        &&& forall|i: int, j: int|
            0 <= i < self@.len() && 0 <= j < self@.len() && i != j ==> #[trigger] self@[i].0
                != #[trigger] self@[j].0
    }

    pub fn new() -> (t: ChainTable)
        ensures
            t@ == Seq::<(Seq<char>, Seq<char>)>::empty(),
            t.wf(),
    {
        let t = ChainTable { entries: Vec::new() };
        proof {
            assert(t@ =~= Seq::<(Seq<char>, Seq<char>)>::empty());
        }
        t
    }

    /// Adds one chain mapping. Accepts the entry only when the key is
    /// already lowercased and not yet present, keeping the table
    /// well-formed; on refusal the table is unchanged.
    pub fn insert(&mut self, key: String, value: String) -> (ok: bool)
        requires
            old(self).wf(),
        ensures
            final(self).wf(),
            ok == (lower_seq(key@) == key@ && spec_lookup(old(self)@, key@) is None),
            ok ==> final(self)@ == old(self)@.push((key@, value@)),
            !ok ==> final(self)@ == old(self)@,
    {
        if !is_normalized(key.as_str()) {
            return false;
        }
        let mut i: usize = 0;
        let n = self.entries.len();
        while i < n
            invariant
                self == old(self),
                self.wf(),
                n == self@.len(),
                forall|j: int| 0 <= j < i ==> self@[j].0 != key@,
            decreases n - i,
        {
            if self.entries[i].0 == key {
                proof {
                    lemma_lookup_found(self@, key@, i as int);
                }
                return false;
            }
            i += 1;
        }
        proof {
            lemma_lookup_absent(self@, key@);
        }
        let ghost pre = self@;
        self.entries.push((key, value));
        proof {
            assert(self@ =~= pre.push((key@, value@)));
        }
        true
    }

    /// Looks up the routing datum for a chain identifier, normalizing the
    /// identifier to lowercase before comparison.
    pub fn lookup(&self, chain_id: &str) -> (r: Option<&String>)
        requires
            self.wf(),
        ensures
            match r {
                Some(v) => spec_lookup(self@, lower_seq(chain_id@)) == Some(v@),
                None => spec_lookup(self@, lower_seq(chain_id@)) is None,
            },
    {
        let mut i: usize = 0;
        let n = self.entries.len();
        while i < n
            invariant
                self.wf(),
                n == self@.len(),
                forall|j: int| 0 <= j < i ==> self@[j].0 != lower_seq(chain_id@),
            decreases n - i,
        {
            if eq_ignore_case(self.entries[i].0.as_str(), chain_id) {
                proof {
                    assert(lower_seq(self@[i as int].0) == self@[i as int].0);
                    lemma_lookup_found(self@, lower_seq(chain_id@), i as int);
                }
                return Some(&self.entries[i].1);
            }
            i += 1;
        }
        proof {
            lemma_lookup_absent(self@, lower_seq(chain_id@));
        }
        None
    }

    /// Whether the table has an entry for this (normalized) identifier.
    pub fn contains(&self, chain_id: &str) -> (r: bool)
        requires
            self.wf(),
        ensures
            r == (spec_lookup(self@, lower_seq(chain_id@)) is Some),
    {
        self.lookup(chain_id).is_some()
    }

    /// All supported chain identifiers, in insertion order.
    pub fn keys(&self) -> (r: Vec<String>)
        ensures
            r@.map_values(|s: String| s@) == self@.map_values(|e: (Seq<char>, Seq<char>)| e.0),
    {
        let mut r: Vec<String> = Vec::new();
        let n = self.entries.len();
        for i in 0..n
            invariant
                n == self@.len(),
                r@.len() == i,
                forall|j: int| 0 <= j < i ==> #[trigger] r@[j]@ == self@[j].0,
        {
            r.push(self.entries[i].0.clone());
        }
        proof {
            assert(r@.map_values(|s: String| s@) =~= self@.map_values(
                |e: (Seq<char>, Seq<char>)| e.0,
            ));
        }
        r
    }
}

/// If the keys before index `i` all differ from `key` and the key at `i`
/// matches, first-match lookup returns the datum at `i`.
proof fn lemma_lookup_found(t: Seq<(Seq<char>, Seq<char>)>, key: Seq<char>, i: int)
    requires
        0 <= i < t.len(),
        t[i].0 == key,
        forall|j: int| 0 <= j < i ==> t[j].0 != key,
    ensures
        spec_lookup(t, key) == Some(t[i].1),
    decreases i,
{
    if i > 0 {
        lemma_lookup_found(t.drop_first(), key, i - 1);
    }
}

/// If no key matches, first-match lookup returns nothing.
proof fn lemma_lookup_absent(t: Seq<(Seq<char>, Seq<char>)>, key: Seq<char>)
    requires
        forall|j: int| 0 <= j < t.len() ==> t[j].0 != key,
    ensures
        spec_lookup(t, key) is None,
    decreases t.len(),
{
    if t.len() > 0 {
        lemma_lookup_absent(t.drop_first(), key);
    }
}

} // verus!
