//! The registry storage: a keyed store from [`Fingerprint`] to [`Claim`]
//! with unique keys, viewed in specifications as a finite
//! `Map<Fingerprint, Claim>`. A fingerprint is in the map exactly while an
//! actor holds an active claim on it; an absent fingerprint is unclaimed.

use vstd::prelude::*;

use crate::types::Claim;
use crate::types::Fingerprint;

verus! {

/// The mapping denoted by a sequence of key/value entries, later entries
/// taking precedence. With unique keys the precedence never matters.
spec fn entries_map(s: Seq<(Fingerprint, Claim)>) -> Map<Fingerprint, Claim>
    decreases s.len(),
{
    if s.len() == 0 {
        Map::empty()
    } else {
        entries_map(s.drop_last()).insert(s.last().0, s.last().1)
    }
}

/// No fingerprint occurs twice among the entries.
spec fn unique_keys(s: Seq<(Fingerprint, Claim)>) -> bool {
    forall|i: int, j: int| 0 <= i < j < s.len() ==> s[i].0 != s[j].0
}

/// The denoted map holds a key exactly when some entry carries it.
proof fn lemma_entries_map_contains(s: Seq<(Fingerprint, Claim)>, f: Fingerprint)
    ensures
        entries_map(s).contains_key(f) <==> (exists|i: int|
            0 <= i < s.len() && #[trigger] s[i].0 == f),
    decreases s.len(),
{
    if s.len() > 0 {
        lemma_entries_map_contains(s.drop_last(), f);
        if s.last().0 == f {
            assert(s[s.len() - 1].0 == f);
        } else {
            assert forall|i: int| 0 <= i < s.len() && #[trigger] s[i].0 == f implies
                entries_map(s).contains_key(f) by {
                assert(i != s.len() - 1);
                assert(s.drop_last()[i].0 == f);
            };
            if entries_map(s).contains_key(f) {
                let i = choose|i: int|
                    0 <= i < s.drop_last().len() && #[trigger] s.drop_last()[i].0 == f;
                assert(s[i].0 == f);
            }
        }
    }
}

/// With unique keys, the denoted map sends each entry's key to that entry's
/// value.
proof fn lemma_entries_map_index(s: Seq<(Fingerprint, Claim)>, i: int)
    requires
        unique_keys(s),
        0 <= i < s.len(),
    ensures
        entries_map(s).contains_key(s[i].0),
        entries_map(s)[s[i].0] == s[i].1,
    decreases s.len(),
{
    if i < s.len() - 1 {
        let dl = s.drop_last();
        assert(forall|j: int| 0 <= j < dl.len() ==> dl[j] == s[j]);
        lemma_entries_map_index(dl, i);
        assert(s[i].0 != s.last().0);
    }
}

/// Removing the entry at one index removes exactly that entry's key from the
/// denoted map.
proof fn lemma_entries_map_remove(s: Seq<(Fingerprint, Claim)>, i: int)
    requires
        unique_keys(s),
        0 <= i < s.len(),
    ensures
        entries_map(s.remove(i)) == entries_map(s).remove(s[i].0),
    decreases s.len(),
{
    let k = s[i].0;
    if i == s.len() - 1 {
        assert(s.remove(i) =~= s.drop_last());
        lemma_entries_map_contains(s.drop_last(), k);
        assert forall|j: int| 0 <= j < s.drop_last().len() implies
            #[trigger] s.drop_last()[j].0 != k by {
            assert(s.drop_last()[j] == s[j]);
        };
        assert(entries_map(s).remove(k) =~= entries_map(s.drop_last()));
    } else {
        let dl = s.drop_last();
        assert(forall|j: int| 0 <= j < dl.len() ==> dl[j] == s[j]);
        lemma_entries_map_remove(dl, i);
        assert(s.remove(i).last() == s.last());
        assert(s.remove(i).drop_last() =~= dl.remove(i));
        assert(s.last().0 != k);
        assert(entries_map(dl).remove(k).insert(s.last().0, s.last().1) =~= entries_map(
            dl,
        ).insert(s.last().0, s.last().1).remove(k));
        assert(entries_map(s.remove(i)) =~= entries_map(s).remove(k));
    }
}

/// Removing an entry keeps the remaining keys unique.
proof fn lemma_unique_keys_remove(s: Seq<(Fingerprint, Claim)>, i: int)
    requires
        unique_keys(s),
        0 <= i < s.len(),
    ensures
        unique_keys(s.remove(i)),
{
    assert forall|j: int, k: int| 0 <= j < k < s.remove(i).len() implies
        s.remove(i)[j].0 != s.remove(i)[k].0 by {
        let j0: int = if j < i { j } else { j + 1 };
        let k0: int = if k < i { k } else { k + 1 };
        assert(s.remove(i)[j] == s[j0]);
        assert(s.remove(i)[k] == s[k0]);
    };
}

/// With unique keys the denoted map is finite and has exactly one key per
/// entry.
proof fn lemma_entries_map_len(s: Seq<(Fingerprint, Claim)>)
    requires
        unique_keys(s),
    ensures
        entries_map(s).dom().finite(),
        entries_map(s).dom().len() == s.len(),
    decreases s.len(),
{
    if s.len() == 0 {
        assert(entries_map(s).dom() =~= Set::<Fingerprint>::empty());
    } else {
        let dl = s.drop_last();
        assert(forall|j: int| 0 <= j < dl.len() ==> dl[j] == s[j]);
        lemma_entries_map_len(dl);
        lemma_entries_map_contains(dl, s.last().0);
        assert forall|j: int| 0 <= j < dl.len() implies #[trigger] dl[j].0 != s.last().0 by {
            assert(dl[j] == s[j]);
        };
        assert(!entries_map(dl).contains_key(s.last().0));
        assert(entries_map(s).dom() =~= entries_map(dl).dom().insert(s.last().0));
    }
}

/// The claim registry: the single persisted table, exclusively owned and
/// mutated by the transitions in [`crate::pallet`].
pub struct Registry {
    entries: Vec<(Fingerprint, Claim)>,
}

impl View for Registry {
    type V = Map<Fingerprint, Claim>;

    closed spec fn view(&self) -> Map<Fingerprint, Claim> {
        entries_map(self.entries@)
    }
}

impl Registry {
    /// Well-formedness: no fingerprint is stored twice. Established by
    /// [`Registry::new`] and preserved by every operation.
    pub closed spec fn wf(&self) -> bool {
        unique_keys(self.entries@)
    }

    /// An empty registry: no fingerprint has ever been claimed.
    pub fn new() -> (r: Registry)
        ensures
            r.wf(),
            r@ == Map::<Fingerprint, Claim>::empty(),
    {
        Registry { entries: Vec::new() }
    }

    /// The index of the entry holding `f`, if one does.
    fn find_index(&self, f: Fingerprint) -> (r: Option<usize>)
        ensures
            (match r {
                Option::Some(i) => (i as int) < self.entries@.len() && self.entries@[i as int].0
                    == f,
                Option::None => forall|i: int|
                    0 <= i < self.entries@.len() ==> #[trigger] self.entries@[i].0 != f,
            }),
    {
        let n: usize = self.entries.len();
        let mut i: usize = 0;
        while i < n
            invariant
                n == self.entries@.len(),
                i <= n,
                forall|j: int| 0 <= j < i ==> #[trigger] self.entries@[j].0 != f,
            decreases n - i,
        {
            if self.entries[i].0 == f {
                return Option::Some(i);
            }
            i = i + 1;
        }
        Option::None
    }

    /// Whether an active claim on `f` is stored.
    pub fn contains_key(&self, f: Fingerprint) -> (r: bool)
        ensures
            r == self@.contains_key(f),
    {
        proof {
            lemma_entries_map_contains(self.entries@, f);
        }
        match self.find_index(f) {
            Option::Some(_) => true,
            Option::None => false,
        }
    }

    /// The claim stored for `f`, if `f` is claimed.
    pub fn get(&self, f: Fingerprint) -> (r: Option<Claim>)
        requires
            self.wf(),
        ensures
            (match r {
                Option::Some(c) => self@.contains_key(f) && self@[f] == c,
                Option::None => !self@.contains_key(f),
            }),
    {
        proof {
            lemma_entries_map_contains(self.entries@, f);
        }
        match self.find_index(f) {
            Option::Some(i) => {
                proof {
                    lemma_entries_map_index(self.entries@, i as int);
                }
                Option::Some(self.entries[i].1)
            },
            Option::None => Option::None,
        }
    }

    /// Store `c` under the unclaimed fingerprint `f`.
    pub fn insert(&mut self, f: Fingerprint, c: Claim)
        requires
            old(self).wf(),
            !old(self)@.contains_key(f),
        ensures
            final(self).wf(),
            final(self)@ == old(self)@.insert(f, c),
    {
        proof {
            lemma_entries_map_contains(self.entries@, f);
        }
        self.entries.push((f, c));
        proof {
            let s = self.entries@;
            assert(s.drop_last() =~= old(self).entries@);
            assert forall|i: int, j: int| 0 <= i < j < s.len() implies s[i].0 != s[j].0 by {
                if j == s.len() - 1 {
                    assert(old(self).entries@[i].0 != f);
                }
            };
        }
    }

    /// Drop the claim on `f`; if `f` is unclaimed this changes nothing.
    pub fn remove(&mut self, f: Fingerprint)
        requires
            old(self).wf(),
        ensures
            final(self).wf(),
            final(self)@ == old(self)@.remove(f),
    {
        proof {
            lemma_entries_map_contains(self.entries@, f);
        }
        match self.find_index(f) {
            Option::Some(i) => {
                proof {
                    lemma_entries_map_remove(self.entries@, i as int);
                    lemma_unique_keys_remove(self.entries@, i as int);
                }
                self.entries.remove(i);
                proof {
                    assert(self.entries@ =~= old(self).entries@.remove(i as int));
                }
            },
            Option::None => {
                proof {
                    assert(old(self)@.remove(f) =~= old(self)@);
                }
            },
        }
    }

    /// How many fingerprints currently carry an active claim.
    pub fn len(&self) -> (r: usize)
        requires
            self.wf(),
        ensures
            r as nat == self@.dom().len(),
    {
        proof {
            lemma_entries_map_len(self.entries@);
        }
        self.entries.len()
    }
}

} // verus!
