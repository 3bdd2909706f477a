//! The device registry is keyed by device-id strings. `StrMap` is the
//! string-to-value association the engine uses: an association vector with
//! unique keys (compared by character content), read through a first-match
//! lookup.

use vstd::prelude::*;

verus! {

/// Compares two string slices by character content.
pub fn str_eq(a: &str, b: &str) -> (r: bool)
    ensures
        r == (a@ == b@),
{
    a.to_owned() == b.to_owned()
}

/// First entry of `entries` whose key reads `id`, if any.
pub open spec fn spec_str_get<T>(entries: Seq<(String, T)>, id: Seq<char>) -> Option<T>
    decreases entries.len(),
{
    if entries.len() == 0 {
        None
    } else if entries[0].0@ == id {
        Some(entries[0].1)
    } else {
        spec_str_get(entries.skip(1), id)
    }
}

/// No two entries share a key.
pub open spec fn spec_unique_keys<T>(entries: Seq<(String, T)>) -> bool {
    forall|i: int, j: int|
        0 <= i < j < entries.len() ==> (#[trigger] entries[i]).0@ != (#[trigger] entries[j]).0@
}

/// A key present at index `i` is what lookup returns, provided keys are
/// unique.
pub proof fn lemma_str_get_witness<T>(entries: Seq<(String, T)>, i: int)
    requires
        spec_unique_keys(entries),
        0 <= i < entries.len(),
    ensures
        spec_str_get(entries, entries[i].0@) == Some(entries[i].1),
    decreases entries.len(),
{
    if i > 0 {
        assert(entries[0].0@ != entries[i].0@);
        assert(entries.skip(1)[i - 1] == entries[i]);
        assert(spec_unique_keys(entries.skip(1))) by {
            assert forall|a: int, b: int|
                0 <= a < b < entries.skip(1).len() implies (#[trigger] entries.skip(1)[a]).0@ != (
            #[trigger] entries.skip(1)[b]).0@ by {
                assert(entries.skip(1)[a] == entries[a + 1]);
                assert(entries.skip(1)[b] == entries[b + 1]);
            }
        }
        lemma_str_get_witness(entries.skip(1), i - 1);
    }
}

/// A key present at no index is absent from lookup.
pub proof fn lemma_str_get_absent<T>(entries: Seq<(String, T)>, id: Seq<char>)
    requires
        forall|i: int| 0 <= i < entries.len() ==> (#[trigger] entries[i]).0@ != id,
    ensures
        spec_str_get(entries, id) is None,
    decreases entries.len(),
{
    if entries.len() > 0 {
        assert forall|i: int| 0 <= i < entries.skip(1).len() implies (#[trigger] entries.skip(1)[i]).0@
            != id by {
            assert(entries.skip(1)[i] == entries[i + 1]);
        }
        lemma_str_get_absent(entries.skip(1), id);
    }
}

/// Two sequences with the same keys, differing only at index `i`, look up
/// alike at every other key.
pub proof fn lemma_str_same_keys_same_get<T>(
    olde: Seq<(String, T)>,
    newe: Seq<(String, T)>,
    i: int,
    j: Seq<char>,
)
    requires
        spec_unique_keys(olde),
        spec_unique_keys(newe),
        olde.len() == newe.len(),
        0 <= i < olde.len(),
        forall|k: int| 0 <= k < olde.len() ==> (#[trigger] olde[k]).0@ == newe[k].0@,
        forall|k: int| 0 <= k < olde.len() && k != i ==> #[trigger] olde[k] == newe[k],
        j != olde[i].0@,
    ensures
        spec_str_get(olde, j) == spec_str_get(newe, j),
{
    if exists|k: int| 0 <= k < olde.len() && (#[trigger] olde[k]).0@ == j {
        let k = choose|k: int| 0 <= k < olde.len() && (#[trigger] olde[k]).0@ == j;
        lemma_str_get_witness(olde, k);
        lemma_str_get_witness(newe, k);
    } else {
        lemma_str_get_absent(olde, j);
        assert forall|k: int| 0 <= k < newe.len() implies (#[trigger] newe[k]).0@ != j by {
            assert(olde[k].0@ == newe[k].0@);
        }
        lemma_str_get_absent(newe, j);
    }
}

/// Appending an entry under a fresh key leaves lookups at other keys
/// unchanged.
pub proof fn lemma_str_push_preserves_get<T>(olde: Seq<(String, T)>, e: (String, T), j: Seq<char>)
    requires
        spec_unique_keys(olde),
        spec_unique_keys(olde.push(e)),
        j != e.0@,
    ensures
        spec_str_get(olde.push(e), j) == spec_str_get(olde, j),
{
    let newe = olde.push(e);
    if exists|k: int| 0 <= k < olde.len() && (#[trigger] olde[k]).0@ == j {
        let k = choose|k: int| 0 <= k < olde.len() && (#[trigger] olde[k]).0@ == j;
        lemma_str_get_witness(olde, k);
        assert(newe[k] == olde[k]);
        lemma_str_get_witness(newe, k);
    } else {
        lemma_str_get_absent(olde, j);
        assert forall|k: int| 0 <= k < newe.len() implies (#[trigger] newe[k]).0@ != j by {
            if k < olde.len() {
                assert(newe[k] == olde[k]);
            } else {
                assert(newe[k] == e);
            }
        }
        lemma_str_get_absent(newe, j);
    }
}

/// A map from device-id string to value, with unique keys.
#[derive(Debug)]
pub struct StrMap<T> {
    pub entries: Vec<(String, T)>,
}

impl<T> StrMap<T> {
    /// The map is well formed when its keys are unique.
    pub open spec fn wf(&self) -> bool {
        spec_unique_keys(self.entries@)
    }

    /// What the map associates with the key reading `id`.
    pub open spec fn spec_get(&self, id: Seq<char>) -> Option<T> {
        spec_str_get(self.entries@, id)
    }

    pub open spec fn spec_contains(&self, id: Seq<char>) -> bool {
        self.spec_get(id) is Some
    }

    pub fn new() -> (r: Self)
        ensures
            r.wf(),
            r.entries@.len() == 0,
            forall|id: Seq<char>| r.spec_get(id) is None,
    {
        let r = StrMap { entries: Vec::new() };
        proof {
            assert forall|id: Seq<char>| r.spec_get(id) is None by {
                lemma_str_get_absent(r.entries@, id);
            }
        }
        r
    }

    pub fn len(&self) -> (r: usize)
        ensures
            r == self.entries@.len(),
    {
        self.entries.len()
    }

    /// Index of the entry whose key reads `id`, if present.
    pub fn index_of(&self, id: &str) -> (r: Option<usize>)
        requires
            self.wf(),
        ensures
            match r {
                Some(i) => i < self.entries@.len() && self.entries@[i as int].0@ == id@
                    && self.spec_get(id@) == Some(self.entries@[i as int].1),
                None => self.spec_get(id@) is None,
            },
    {
        let n = self.entries.len();
        let mut i: usize = 0;
        while i < n
            invariant
                i <= n,
                n == self.entries@.len(),
                self.wf(),
                forall|j: int| 0 <= j < i ==> (#[trigger] self.entries@[j]).0@ != id@,
            decreases n - i,
        {
            if str_eq(self.entries[i].0.as_str(), id) {
                proof {
                    lemma_str_get_witness(self.entries@, i as int);
                }
                return Some(i);
            }
            i = i + 1;
        }
        proof {
            lemma_str_get_absent(self.entries@, id@);
        }
        None
    }

    /// Appends an entry for a key not yet present.
    pub fn push_new(&mut self, id: String, v: T)
        requires
            old(self).wf(),
            old(self).spec_get(id@) is None,
        ensures
            final(self).wf(),
            final(self).spec_get(id@) == Some(v),
            forall|j: Seq<char>| j != id@ ==> final(self).spec_get(j) == old(self).spec_get(j),
            final(self).entries@ == old(self).entries@.push((id, v)),
    {
        proof {
            let olde = self.entries@;
            assert(forall|i: int| 0 <= i < olde.len() ==> (#[trigger] olde[i]).0@ != id@) by {
                if exists|i: int| 0 <= i < olde.len() && (#[trigger] olde[i]).0@ == id@ {
                    let i = choose|i: int| 0 <= i < olde.len() && (#[trigger] olde[i]).0@ == id@;
                    lemma_str_get_witness(olde, i);
                }
            }
        }
        let ghost olde = self.entries@;
        let ghost e = (id, v);
        self.entries.push((id, v));
        proof {
            let newe = self.entries@;
            assert forall|a: int, b: int| 0 <= a < b < newe.len() implies (#[trigger] newe[a]).0@ != (
            #[trigger] newe[b]).0@ by {
                if b == newe.len() - 1 {
                    assert(newe[a] == olde[a]);
                }
            }
            lemma_str_get_witness(newe, newe.len() - 1);
            assert forall|j: Seq<char>| j != e.0@ implies final(self).spec_get(j) == spec_str_get(
                olde,
                j,
            ) by {
                lemma_str_push_preserves_get(olde, e, j);
            }
        }
    }
}

} // verus!
