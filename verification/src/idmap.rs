//! Rule instances are keyed by their stable numeric rule id. `IdMap` is the
//! id-to-instance map the engine uses: an association vector with unique
//! ids, read through a first-match lookup.

use vstd::prelude::*;

verus! {

/// First entry of `entries` with key `id`, if any.
pub open spec fn spec_assoc_get<T>(entries: Seq<(u64, T)>, id: u64) -> Option<T>
    decreases entries.len(),
{
    if entries.len() == 0 {
        None
    } else if entries[0].0 == id {
        Some(entries[0].1)
    } else {
        spec_assoc_get(entries.skip(1), id)
    }
}

/// No two entries share a key.
pub open spec fn spec_unique_ids<T>(entries: Seq<(u64, T)>) -> bool {
    forall|i: int, j: int|
        0 <= i < j < entries.len() ==> (#[trigger] entries[i]).0 != (#[trigger] entries[j]).0
}

/// A key present at index `i` is what lookup returns, provided keys are
/// unique.
pub proof fn lemma_assoc_get_witness<T>(entries: Seq<(u64, T)>, i: int)
    requires
        spec_unique_ids(entries),
        0 <= i < entries.len(),
    ensures
        spec_assoc_get(entries, entries[i].0) == Some(entries[i].1),
    decreases entries.len(),
{
    if i > 0 {
        assert(entries[0].0 != entries[i].0);
        assert(entries.skip(1)[i - 1] == entries[i]);
        assert(spec_unique_ids(entries.skip(1))) by {
            assert forall|a: int, b: int|
                0 <= a < b < entries.skip(1).len() implies (#[trigger] entries.skip(1)[a]).0 != (
            #[trigger] entries.skip(1)[b]).0 by {
                assert(entries.skip(1)[a] == entries[a + 1]);
                assert(entries.skip(1)[b] == entries[b + 1]);
            }
        }
        lemma_assoc_get_witness(entries.skip(1), i - 1);
    }
}

/// A key present at no index is absent from lookup.
pub proof fn lemma_assoc_get_absent<T>(entries: Seq<(u64, T)>, id: u64)
    requires
        forall|i: int| 0 <= i < entries.len() ==> (#[trigger] entries[i]).0 != id,
    ensures
        spec_assoc_get(entries, id) is None,
    decreases entries.len(),
{
    if entries.len() > 0 {
        assert forall|i: int| 0 <= i < entries.skip(1).len() implies (#[trigger] entries.skip(1)[i]).0
            != id by {
            assert(entries.skip(1)[i] == entries[i + 1]);
        }
        lemma_assoc_get_absent(entries.skip(1), id);
    }
}

/// A present key has a witness index holding its value.
pub proof fn lemma_assoc_get_some_witness<T>(entries: Seq<(u64, T)>, id: u64)
    requires
        spec_assoc_get(entries, id) is Some,
    ensures
        exists|k: int|
            0 <= k < entries.len() && (#[trigger] entries[k]).0 == id && entries[k].1
                == spec_assoc_get(entries, id)->Some_0,
    decreases entries.len(),
{
    assert(entries.len() > 0);
    if entries[0].0 == id {
        assert(entries[0].0 == id && entries[0].1 == spec_assoc_get(entries, id)->Some_0);
    } else {
        lemma_assoc_get_some_witness(entries.skip(1), id);
        let k = choose|k: int|
            0 <= k < entries.skip(1).len() && (#[trigger] entries.skip(1)[k]).0 == id
                && entries.skip(1)[k].1 == spec_assoc_get(entries.skip(1), id)->Some_0;
        assert(entries[k + 1] == entries.skip(1)[k]);
    }
}

/// When every entry's value is rewritten in place by `f` of its key and old
/// value, lookups are rewritten the same way.
pub proof fn lemma_mapped_entries_get<T>(
    olde: Seq<(u64, T)>,
    newe: Seq<(u64, T)>,
    f: spec_fn(u64, T) -> T,
    id: u64,
)
    requires
        spec_unique_ids(olde),
        olde.len() == newe.len(),
        forall|k: int| 0 <= k < olde.len() ==> #[trigger] newe[k] == (olde[k].0, f(olde[k].0, olde[k].1)),
    ensures
        spec_unique_ids(newe),
        spec_assoc_get(newe, id) == match spec_assoc_get(olde, id) {
            Some(v) => Some(f(id, v)),
            None => None::<T>,
        },
{
    assert forall|a: int, b: int| 0 <= a < b < newe.len() implies (#[trigger] newe[a]).0 != (
    #[trigger] newe[b]).0 by {
        assert(newe[a] == (olde[a].0, f(olde[a].0, olde[a].1)));
        assert(newe[b] == (olde[b].0, f(olde[b].0, olde[b].1)));
    }
    if spec_assoc_get(olde, id) is Some {
        lemma_assoc_get_some_witness(olde, id);
        let k = choose|k: int|
            0 <= k < olde.len() && (#[trigger] olde[k]).0 == id && olde[k].1 == spec_assoc_get(
                olde,
                id,
            )->Some_0;
        lemma_assoc_get_witness(olde, k);
        assert(newe[k] == (id, f(id, olde[k].1)));
        lemma_assoc_get_witness(newe, k);
    } else {
        assert forall|k: int| 0 <= k < olde.len() implies (#[trigger] olde[k]).0 != id by {
            if olde[k].0 == id {
                lemma_assoc_get_witness(olde, k);
            }
        }
        assert forall|k: int| 0 <= k < newe.len() implies (#[trigger] newe[k]).0 != id by {
            assert(newe[k] == (olde[k].0, f(olde[k].0, olde[k].1)));
            assert(olde[k].0 != id);
        }
        lemma_assoc_get_absent(olde, id);
        lemma_assoc_get_absent(newe, id);
    }
}

/// Two sequences with the same keys, differing only at index `i`, look
/// up alike at every other key.
pub proof fn lemma_same_ids_same_get<T>(olde: Seq<(u64, T)>, newe: Seq<(u64, T)>, i: int, j: u64)
    requires
        spec_unique_ids(olde),
        spec_unique_ids(newe),
        olde.len() == newe.len(),
        0 <= i < olde.len(),
        forall|k: int| 0 <= k < olde.len() ==> (#[trigger] olde[k]).0 == newe[k].0,
        forall|k: int| 0 <= k < olde.len() && k != i ==> #[trigger] olde[k] == newe[k],
        j != olde[i].0,
    ensures
        spec_assoc_get(olde, j) == spec_assoc_get(newe, j),
{
    if exists|k: int| 0 <= k < olde.len() && (#[trigger] olde[k]).0 == j {
        let k = choose|k: int| 0 <= k < olde.len() && (#[trigger] olde[k]).0 == j;
        lemma_assoc_get_witness(olde, k);
        lemma_assoc_get_witness(newe, k);
    } else {
        lemma_assoc_get_absent(olde, j);
        assert forall|k: int| 0 <= k < newe.len() implies (#[trigger] newe[k]).0 != j by {
            assert(olde[k].0 == newe[k].0);
        }
        lemma_assoc_get_absent(newe, j);
    }
}

/// Appending an entry leaves lookups at other keys unchanged.
pub proof fn lemma_assoc_push_preserves_get<T>(olde: Seq<(u64, T)>, id: u64, v: T, j: u64)
    requires
        spec_unique_ids(olde),
        spec_unique_ids(olde.push((id, v))),
        j != id,
    ensures
        spec_assoc_get(olde.push((id, v)), j) == spec_assoc_get(olde, j),
{
    let newe = olde.push((id, v));
    if exists|k: int| 0 <= k < olde.len() && (#[trigger] olde[k]).0 == j {
        let k = choose|k: int| 0 <= k < olde.len() && (#[trigger] olde[k]).0 == j;
        lemma_assoc_get_witness(olde, k);
        assert(newe[k] == olde[k]);
        lemma_assoc_get_witness(newe, k);
    } else {
        lemma_assoc_get_absent(olde, j);
        assert forall|k: int| 0 <= k < newe.len() implies (#[trigger] newe[k]).0 != j by {
            if k < olde.len() {
                assert(newe[k] == olde[k]);
            } else {
                assert(newe[k] == (id, v));
            }
        }
        lemma_assoc_get_absent(newe, j);
    }
}

/// Removing the entry at index `i` leaves lookups at other keys
/// unchanged.
pub proof fn lemma_assoc_remove_preserves_get<T>(olde: Seq<(u64, T)>, newe: Seq<(u64, T)>, i: int, j: u64)
    requires
        spec_unique_ids(olde),
        spec_unique_ids(newe),
        0 <= i < olde.len(),
        newe == olde.remove(i),
        j != olde[i].0,
    ensures
        spec_assoc_get(olde, j) == spec_assoc_get(newe, j),
{
    if exists|k: int| 0 <= k < olde.len() && (#[trigger] olde[k]).0 == j {
        let k = choose|k: int| 0 <= k < olde.len() && (#[trigger] olde[k]).0 == j;
        lemma_assoc_get_witness(olde, k);
        let k1 = if k < i { k } else { k - 1 };
        assert(newe[k1] == olde[k]);
        lemma_assoc_get_witness(newe, k1);
    } else {
        lemma_assoc_get_absent(olde, j);
        assert forall|k: int| 0 <= k < newe.len() implies (#[trigger] newe[k]).0 != j by {
            let k0 = if k < i { k } else { k + 1 };
            assert(newe[k] == olde[k0]);
        }
        lemma_assoc_get_absent(newe, j);
    }
}

/// A prefix of a unique-key sequence has unique keys.
pub proof fn lemma_unique_take<T>(entries: Seq<(u64, T)>, i: int)
    requires
        spec_unique_ids(entries),
        0 <= i <= entries.len(),
    ensures
        spec_unique_ids(entries.take(i)),
{
    assert forall|a: int, b: int| 0 <= a < b < entries.take(i).len() implies (
    #[trigger] entries.take(i)[a]).0 != (#[trigger] entries.take(i)[b]).0 by {
        assert(entries.take(i)[a] == entries[a]);
        assert(entries.take(i)[b] == entries[b]);
    }
}

/// A map from rule id to rule instance, with unique ids.
#[derive(Clone, Debug)]
pub struct IdMap<T> {
    pub entries: Vec<(u64, T)>,
}

impl<T: Copy> IdMap<T> {
    /// The map is well formed when its ids are unique.
    pub open spec fn wf(&self) -> bool {
        spec_unique_ids(self.entries@)
    }

    /// What the map associates with `id`.
    pub open spec fn spec_get(&self, id: u64) -> Option<T> {
        spec_assoc_get(self.entries@, id)
    }

    pub open spec fn spec_contains(&self, id: u64) -> bool {
        self.spec_get(id) is Some
    }

    pub fn new() -> (r: Self)
        ensures
            r.wf(),
            r.entries@.len() == 0,
            forall|id: u64| r.spec_get(id) is None,
    {
        let r = IdMap { entries: Vec::new() };
        proof {
            assert forall|id: u64| r.spec_get(id) is None by {
                lemma_assoc_get_absent(r.entries@, id);
            }
        }
        r
    }

    pub fn len(&self) -> (r: usize)
        ensures
            r == self.entries@.len(),
    {
        self.entries.len()
    }

    pub fn is_empty(&self) -> (r: bool)
        ensures
            r == (self.entries@.len() == 0),
    {
        self.entries.len() == 0
    }

    /// Index of the entry keyed `id`, if present.
    fn index_of(&self, id: u64) -> (r: Option<usize>)
        requires
            self.wf(),
        ensures
            match r {
                Some(i) => i < self.entries@.len() && self.entries@[i as int].0 == id
                    && self.spec_get(id) == Some(self.entries@[i as int].1),
                None => self.spec_get(id) is None,
            },
    {
        let n = self.entries.len();
        let mut i: usize = 0;
        while i < n
            invariant
                i <= n,
                n == self.entries@.len(),
                self.wf(),
                forall|j: int| 0 <= j < i ==> (#[trigger] self.entries@[j]).0 != id,
            decreases n - i,
        {
            if self.entries[i].0 == id {
                proof {
                    lemma_assoc_get_witness(self.entries@, i as int);
                }
                return Some(i);
            }
            i = i + 1;
        }
        proof {
            lemma_assoc_get_absent(self.entries@, id);
        }
        None
    }

    pub fn get(&self, id: u64) -> (r: Option<T>)
        requires
            self.wf(),
        ensures
            r == self.spec_get(id),
    {
        match self.index_of(id) {
            Some(i) => Some(self.entries[i].1),
            None => None,
        }
    }

    /// Inserts or overwrites the entry for `id`.
    pub fn insert(&mut self, id: u64, v: T)
        requires
            old(self).wf(),
        ensures
            final(self).wf(),
            final(self).spec_get(id) == Some(v),
            forall|j: u64| j != id ==> final(self).spec_get(j) == old(self).spec_get(j),
            final(self).entries@.len() <= old(self).entries@.len() + 1,
    {
        let idx = self.index_of(id);
        match idx {
            Some(i) => {
                self.entries[i] = (id, v);
                proof {
                    let newe = self.entries@;
                    let olde = old(self).entries@;
                    assert forall|k: int| 0 <= k < newe.len() implies (#[trigger] newe[k]).0
                        == olde[k].0 by {}
                    assert(self.wf());
                    lemma_assoc_get_witness(newe, i as int);
                    assert forall|j: u64| j != id implies final(self).spec_get(j) == old(
                        self,
                    ).spec_get(j) by {
                        lemma_same_ids_same_get(olde, newe, i as int, j);
                    }
                }
            },
            None => {
                self.entries.push((id, v));
                proof {
                    let newe = self.entries@;
                    let olde = old(self).entries@;
                    assert(forall|i: int|
                        0 <= i < olde.len() ==> (#[trigger] olde[i]).0 != id) by {
                        if exists|i: int| 0 <= i < olde.len() && (#[trigger] olde[i]).0 == id {
                            let i = choose|i: int|
                                0 <= i < olde.len() && (#[trigger] olde[i]).0 == id;
                            lemma_assoc_get_witness(olde, i);
                        }
                    }
                    assert forall|a: int, b: int| 0 <= a < b < newe.len() implies (
                    #[trigger] newe[a]).0 != (#[trigger] newe[b]).0 by {
                        if b == newe.len() - 1 {
                            assert(newe[a] == olde[a]);
                        }
                    }
                    lemma_assoc_get_witness(newe, newe.len() - 1);
                    assert forall|j: u64| j != id implies final(self).spec_get(j) == old(
                        self,
                    ).spec_get(j) by {
                        lemma_assoc_push_preserves_get(olde, id, v, j);
                    }
                }
            },
        }
    }

    /// Inserts every entry of `other` into this map, overwriting by id.
    pub fn merge_from(&mut self, other: &IdMap<T>)
        requires
            old(self).wf(),
            other.wf(),
        ensures
            final(self).wf(),
            forall|id: u64|
                #[trigger] final(self).spec_get(id) == match other.spec_get(id) {
                    Some(v) => Some(v),
                    None => old(self).spec_get(id),
                },
    {
        let n = other.entries.len();
        let mut i: usize = 0;
        while i < n
            invariant
                i <= n,
                n == other.entries@.len(),
                other.wf(),
                self.wf(),
                forall|id: u64|
                    #[trigger] self.spec_get(id) == match spec_assoc_get(
                        other.entries@.take(i as int),
                        id,
                    ) {
                        Some(v) => Some(v),
                        None => old(self).spec_get(id),
                    },
            decreases n - i,
        {
            let (id, v) = other.entries[i];
            self.insert(id, v);
            proof {
                lemma_unique_take(other.entries@, i + 1);
                lemma_unique_take(other.entries@, i as int);
                assert(other.entries@.take(i + 1) =~= other.entries@.take(i as int).push(
                    other.entries@[i as int],
                ));
                lemma_assoc_get_witness(other.entries@.take(i + 1), i as int);
                assert forall|j: u64|
                    #[trigger] self.spec_get(j) == match spec_assoc_get(
                        other.entries@.take(i + 1),
                        j,
                    ) {
                        Some(v2) => Some(v2),
                        None => old(self).spec_get(j),
                    } by {
                    if j != id {
                        lemma_assoc_push_preserves_get(
                            other.entries@.take(i as int),
                            other.entries@[i as int].0,
                            other.entries@[i as int].1,
                            j,
                        );
                    }
                }
            }
            i = i + 1;
        }
        proof {
            assert(other.entries@.take(n as int) =~= other.entries@);
        }
    }

    /// Removes the entry for `id`, if present.
    pub fn remove(&mut self, id: u64)
        requires
            old(self).wf(),
        ensures
            final(self).wf(),
            final(self).spec_get(id) is None,
            forall|j: u64| j != id ==> final(self).spec_get(j) == old(self).spec_get(j),
            final(self).entries@.len() <= old(self).entries@.len(),
    {
        let idx = self.index_of(id);
        if let Some(i) = idx {
            self.entries.remove(i);
            proof {
                let newe = self.entries@;
                let olde = old(self).entries@;
                assert forall|a: int, b: int| 0 <= a < b < newe.len() implies (#[trigger] newe[a]).0
                    != (#[trigger] newe[b]).0 by {
                    let a0 = if a < i { a } else { a + 1 };
                    let b0 = if b < i { b } else { b + 1 };
                    assert(newe[a] == olde[a0]);
                    assert(newe[b] == olde[b0]);
                }
                assert forall|k: int| 0 <= k < newe.len() implies (#[trigger] newe[k]).0 != id by {
                    let k0 = if k < i { k } else { k + 1 };
                    assert(newe[k] == olde[k0]);
                }
                lemma_assoc_get_absent(newe, id);
                assert forall|j: u64| j != id implies final(self).spec_get(j) == old(
                    self,
                ).spec_get(j) by {
                    lemma_assoc_remove_preserves_get(olde, newe, i as int, j);
                }
            }
        }
    }

}

} // verus!
