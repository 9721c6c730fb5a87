//! The delegate broadcast resolver: records of publishes whose op data
//! has not yet arrived, keyed by (space, content address), each holding
//! the sharding parameters needed to resume the delegated broadcast
//! once the data lands.

use vstd::prelude::*;

use crate::types::{KitsuneAgent, KitsuneBasis, KitsuneOpHash, KitsuneSpace};

verus! {

/// A publish whose data has not yet arrived: the delegation parameters
/// to resume with, keyed by the space and the first missing hash.
#[derive(Debug, Clone, PartialEq, Eq)]
pub struct PendingDelegate {
    /// The space the publish belongs to.
    pub space: KitsuneSpace,
    /// The first hash whose data was missing.
    pub op_hash: KitsuneOpHash,
    /// The basis coordinate of the neighborhood.
    pub basis: KitsuneBasis,
    /// The agent the publish was addressed to.
    pub to_agent: KitsuneAgent,
    /// Which slice of the neighborhood this node re-delegates to.
    pub mod_idx: u32,
    /// How many slices the neighborhood is divided into.
    pub mod_cnt: u32,
}

impl PendingDelegate {
    /// Whether this record is keyed by the given (space, hash) pair.
    pub open spec fn spec_matches(&self, ksp: Seq<u8>, kop: Seq<u8>) -> bool {
        self.space.spec_bytes() == ksp && self.op_hash.spec_bytes() == kop
    }
}

/// Whether two records share a key.
pub open spec fn same_delegate_key(a: PendingDelegate, b: PendingDelegate) -> bool {
    a.space.spec_bytes() == b.space.spec_bytes() && a.op_hash.spec_bytes()
        == b.op_hash.spec_bytes()
}

/// The first record stored under a key, scanning left to right.
pub open spec fn delegate_of(entries: Seq<PendingDelegate>, ksp: Seq<u8>, kop: Seq<u8>) -> Option<
    PendingDelegate,
>
    decreases entries.len(),
{
    if entries.len() == 0 {
        None
    } else if entries[0].spec_matches(ksp, kop) {
        Some(entries[0])
    } else {
        delegate_of(entries.skip(1), ksp, kop)
    }
}

/// The records after the first one of a key is removed.
pub open spec fn remove_delegate(entries: Seq<PendingDelegate>, ksp: Seq<u8>, kop: Seq<u8>) -> Seq<
    PendingDelegate,
>
    decreases entries.len(),
{
    if entries.len() == 0 {
        entries
    } else if entries[0].spec_matches(ksp, kop) {
        entries.skip(1)
    } else {
        seq![entries[0]] + remove_delegate(entries.skip(1), ksp, kop)
    }
}

/// Every record of d's key replaced by d; every other record
/// untouched.
pub open spec fn replace_delegates(entries: Seq<PendingDelegate>, d: PendingDelegate) -> Seq<
    PendingDelegate,
> {
    entries.map_values(
        |e: PendingDelegate|
            if same_delegate_key(e, d) {
                d
            } else {
                e
            },
    )
}

/// The records after a new delegation is stored: the latest publish
/// wins when the key is already present, else the record is appended.
pub open spec fn insert_delegate(entries: Seq<PendingDelegate>, d: PendingDelegate) -> Seq<
    PendingDelegate,
> {
    if delegate_of(entries, d.space.spec_bytes(), d.op_hash.spec_bytes()) is Some {
        replace_delegates(entries, d)
    } else {
        entries.push(d)
    }
}

/// Well-formed store: no key appears twice.
pub open spec fn wf_delegates(entries: Seq<PendingDelegate>) -> bool {
    forall|i: int, j: int|
        0 <= i < j < entries.len() ==> !same_delegate_key(
            #[trigger] entries[i],
            #[trigger] entries[j],
        )
}

/// Appending serves a new key and leaves present keys alone.
pub proof fn lemma_delegate_of_push(
    entries: Seq<PendingDelegate>,
    d: PendingDelegate,
    ksp: Seq<u8>,
    kop: Seq<u8>,
)
    ensures
        delegate_of(entries.push(d), ksp, kop) == (if delegate_of(entries, ksp, kop) is Some {
            delegate_of(entries, ksp, kop)
        } else if d.spec_matches(ksp, kop) {
            Some(d)
        } else {
            None::<PendingDelegate>
        }),
    decreases entries.len(),
{
    if entries.len() == 0 {
        assert(entries.push(d).skip(1) =~= entries);
    } else {
        assert(entries.push(d).skip(1) =~= entries.skip(1).push(d));
        lemma_delegate_of_push(entries.skip(1), d, ksp, kop);
    }
}

/// A key is unserved exactly when no record holds it.
pub proof fn lemma_delegate_of_none(entries: Seq<PendingDelegate>, ksp: Seq<u8>, kop: Seq<u8>)
    ensures
        delegate_of(entries, ksp, kop) is None <==> forall|i: int|
            0 <= i < entries.len() ==> !(#[trigger] entries[i]).spec_matches(ksp, kop),
    decreases entries.len(),
{
    if entries.len() > 0 {
        lemma_delegate_of_none(entries.skip(1), ksp, kop);
        assert(forall|i: int|
            1 <= i < entries.len() ==> entries.skip(1)[i - 1] == #[trigger] entries[i]);
    }
}

/// A match at index i, with no earlier match, is the served record.
pub proof fn lemma_delegate_of_first_match(
    entries: Seq<PendingDelegate>,
    ksp: Seq<u8>,
    kop: Seq<u8>,
    i: int,
)
    requires
        0 <= i < entries.len(),
        entries[i].spec_matches(ksp, kop),
        forall|j: int| 0 <= j < i ==> !(#[trigger] entries[j]).spec_matches(ksp, kop),
    ensures
        delegate_of(entries, ksp, kop) == Some(entries[i]),
    decreases i,
{
    if i > 0 {
        lemma_delegate_of_first_match(entries.skip(1), ksp, kop, i - 1);
    }
}

/// Storing a delegation serves it under its key and every other key as
/// before, and keeps the store free of duplicates.
pub proof fn lemma_delegate_of_insert(entries: Seq<PendingDelegate>, d: PendingDelegate)
    requires
        wf_delegates(entries),
    ensures
        delegate_of(
            insert_delegate(entries, d),
            d.space.spec_bytes(),
            d.op_hash.spec_bytes(),
        ) == Some(d),
        forall|ksp2: Seq<u8>, kop2: Seq<u8>|
            !(ksp2 == d.space.spec_bytes() && kop2 == d.op_hash.spec_bytes()) ==> #[trigger] delegate_of(
                insert_delegate(entries, d),
                ksp2,
                kop2,
            ) == delegate_of(entries, ksp2, kop2),
        wf_delegates(insert_delegate(entries, d)),
    decreases entries.len(),
{
    let ksp = d.space.spec_bytes();
    let kop = d.op_hash.spec_bytes();
    let out = insert_delegate(entries, d);
    if delegate_of(entries, ksp, kop) is Some {
        lemma_delegate_replace(entries, d, ksp, kop);
    } else {
        lemma_delegate_of_push(entries, d, ksp, kop);
        lemma_delegate_of_none(entries, ksp, kop);
        assert forall|ksp2: Seq<u8>, kop2: Seq<u8>| !(ksp2 == ksp && kop2 == kop) implies
            #[trigger] delegate_of(out, ksp2, kop2) == delegate_of(entries, ksp2, kop2) by {
            lemma_delegate_of_push(entries, d, ksp2, kop2);
            if delegate_of(entries, ksp2, kop2) is None && d.spec_matches(ksp2, kop2) {
                assert(ksp2 == ksp && kop2 == kop);
            }
        }
        assert forall|i: int, j: int| 0 <= i < j < out.len() implies !same_delegate_key(
            #[trigger] out[i],
            #[trigger] out[j],
        ) by {
            if j == entries.len() {
                assert(out[i] == entries[i]);
                assert(out[j] == d);
            } else {
                assert(out[i] == entries[i]);
                assert(out[j] == entries[j]);
            }
        }
    }
}

/// Replacing every record of a key serves the replacement under that
/// key and every other key as before.
proof fn lemma_delegate_replace(
    entries: Seq<PendingDelegate>,
    d: PendingDelegate,
    ksp: Seq<u8>,
    kop: Seq<u8>,
)
    requires
        ksp == d.space.spec_bytes(),
        kop == d.op_hash.spec_bytes(),
    ensures
        ({
            let mapped = replace_delegates(entries, d);
            &&& mapped.len() == entries.len()
            &&& delegate_of(mapped, ksp, kop) == (match delegate_of(entries, ksp, kop) {
                Some(_) => Some(d),
                None => None::<PendingDelegate>,
            })
            &&& forall|ksp2: Seq<u8>, kop2: Seq<u8>|
                !(ksp2 == ksp && kop2 == kop) ==> #[trigger] delegate_of(mapped, ksp2, kop2)
                    == delegate_of(entries, ksp2, kop2)
            &&& forall|i: int|
                0 <= i < entries.len() ==> same_delegate_key(#[trigger] mapped[i], entries[i])
            &&& wf_delegates(entries) ==> wf_delegates(mapped)
        }),
    decreases entries.len(),
{
    let mapped = replace_delegates(entries, d);
    if entries.len() == 0 {
        assert(mapped =~= entries);
    } else {
        assert(mapped.skip(1) =~= replace_delegates(entries.skip(1), d));
        lemma_delegate_replace(entries.skip(1), d, ksp, kop);
        assert(mapped[0] == (if same_delegate_key(entries[0], d) {
            d
        } else {
            entries[0]
        }));
        assert(same_delegate_key(mapped[0], entries[0]));
        assert forall|ksp2: Seq<u8>, kop2: Seq<u8>| !(ksp2 == ksp && kop2 == kop) implies
            #[trigger] delegate_of(mapped, ksp2, kop2) == delegate_of(entries, ksp2, kop2) by {
            assert(delegate_of(mapped.skip(1), ksp2, kop2) == delegate_of(
                entries.skip(1),
                ksp2,
                kop2,
            ));
        }
        if wf_delegates(entries) {
            assert(forall|i: int|
                1 <= i < entries.len() ==> entries.skip(1)[i - 1] == #[trigger] entries[i]);
            assert(forall|i: int|
                1 <= i < mapped.len() ==> mapped.skip(1)[i - 1] == #[trigger] mapped[i]);
            assert(wf_delegates(entries.skip(1)));
            assert forall|i: int, j: int| 0 <= i < j < mapped.len() implies !same_delegate_key(
                #[trigger] mapped[i],
                #[trigger] mapped[j],
            ) by {
                assert(same_delegate_key(mapped[i], entries[i]));
                assert(same_delegate_key(mapped[j], entries[j]));
            }
        }
    }
}

/// Removing a key's record unserves the key and leaves every other key
/// as before.
pub proof fn lemma_delegate_of_remove(entries: Seq<PendingDelegate>, ksp: Seq<u8>, kop: Seq<u8>)
    requires
        wf_delegates(entries),
    ensures
        delegate_of(remove_delegate(entries, ksp, kop), ksp, kop) is None,
        forall|ksp2: Seq<u8>, kop2: Seq<u8>|
            !(ksp2 == ksp && kop2 == kop) ==> #[trigger] delegate_of(
                remove_delegate(entries, ksp, kop),
                ksp2,
                kop2,
            ) == delegate_of(entries, ksp2, kop2),
        forall|i: int|
            0 <= i < remove_delegate(entries, ksp, kop).len() ==> exists|j: int|
                0 <= j < entries.len() && #[trigger] remove_delegate(entries, ksp, kop)[i]
                    == entries[j],
        wf_delegates(remove_delegate(entries, ksp, kop)),
    decreases entries.len(),
{
    let whole = remove_delegate(entries, ksp, kop);
    if entries.len() == 0 {
    } else if entries[0].spec_matches(ksp, kop) {
        assert(whole == entries.skip(1));
        assert(forall|i: int|
            0 <= i < entries.skip(1).len() ==> entries.skip(1)[i] == #[trigger] entries[i + 1]);
        lemma_delegate_of_none(entries.skip(1), ksp, kop);
    } else {
        let tail = remove_delegate(entries.skip(1), ksp, kop);
        assert(forall|i: int|
            0 <= i < entries.skip(1).len() ==> entries.skip(1)[i] == #[trigger] entries[i + 1]);
        lemma_delegate_of_remove(entries.skip(1), ksp, kop);
        assert(whole == seq![entries[0]] + tail);
        assert(whole[0] == entries[0]);
        assert(whole.skip(1) =~= tail);
        assert forall|ksp2: Seq<u8>, kop2: Seq<u8>| !(ksp2 == ksp && kop2 == kop) implies
            #[trigger] delegate_of(whole, ksp2, kop2) == delegate_of(entries, ksp2, kop2) by {
            assert(delegate_of(whole.skip(1), ksp2, kop2) == delegate_of(
                entries.skip(1),
                ksp2,
                kop2,
            ));
        }
        assert(delegate_of(whole, ksp, kop) is None) by {
            assert(delegate_of(whole.skip(1), ksp, kop) == delegate_of(tail, ksp, kop));
        }
        assert forall|i: int|
            0 <= i < whole.len() implies exists|j: int|
                0 <= j < entries.len() && #[trigger] whole[i] == entries[j] by {
            if i == 0 {
                assert(whole[0] == entries[0]);
            } else {
                assert(whole[i] == tail[i - 1]);
                let m = choose|m: int|
                    0 <= m < entries.skip(1).len() && tail[i - 1] == entries.skip(1)[m];
                assert(whole[i] == entries[m + 1]);
            }
        }
        assert(wf_delegates(whole)) by {
            assert forall|i: int, j: int| 0 <= i < j < whole.len() implies !same_delegate_key(
                #[trigger] whole[i],
                #[trigger] whole[j],
            ) by {
                if i == 0 {
                    assert(whole[j] == tail[j - 1]);
                    let m = choose|m: int|
                        0 <= m < entries.skip(1).len() && tail[j - 1] == entries.skip(1)[m];
                    assert(whole[j] == entries[m + 1]);
                } else {
                    assert(whole[i] == tail[i - 1]);
                    assert(whole[j] == tail[j - 1]);
                }
            }
        }
    }
}

/// An absent key's removal changes nothing.
pub proof fn lemma_remove_delegate_absent(entries: Seq<PendingDelegate>, ksp: Seq<u8>, kop: Seq<u8>)
    requires
        delegate_of(entries, ksp, kop) is None,
    ensures
        remove_delegate(entries, ksp, kop) =~= entries,
    decreases entries.len(),
{
    if entries.len() > 0 {
        lemma_remove_delegate_absent(entries.skip(1), ksp, kop);
        assert(remove_delegate(entries, ksp, kop) =~= seq![entries[0]] + entries.skip(1));
        assert(seq![entries[0]] + entries.skip(1) =~= entries);
    }
}

/// Law: a delegation stored for (space, hash) is handed out exactly
/// once. Resolving that key returns the stored parameters and removes
/// the record, so a second resolve returns nothing; resolving any other
/// key is a no-op on this record and returns whatever was stored for
/// that other key before.
pub proof fn lemma_delegate_resolved_once(entries: Seq<PendingDelegate>, d: PendingDelegate)
    requires
        wf_delegates(entries),
    ensures
        ({
            let stored = insert_delegate(entries, d);
            let ksp = d.space.spec_bytes();
            let kop = d.op_hash.spec_bytes();
            let resolved = remove_delegate(stored, ksp, kop);
            &&& delegate_of(stored, ksp, kop) == Some(d)
            &&& delegate_of(resolved, ksp, kop) is None
            &&& forall|ksp2: Seq<u8>, kop2: Seq<u8>|
                !(ksp2 == ksp && kop2 == kop) ==> #[trigger] delegate_of(resolved, ksp2, kop2)
                    == delegate_of(entries, ksp2, kop2)
            &&& forall|ksp2: Seq<u8>, kop2: Seq<u8>|
                !(ksp2 == ksp && kop2 == kop) && delegate_of(stored, ksp2, kop2) is None
                    ==> #[trigger] remove_delegate(stored, ksp2, kop2) =~= stored
        }),
{
    let stored = insert_delegate(entries, d);
    let ksp = d.space.spec_bytes();
    let kop = d.op_hash.spec_bytes();
    lemma_delegate_of_insert(entries, d);
    lemma_delegate_of_remove(stored, ksp, kop);
    assert forall|ksp2: Seq<u8>, kop2: Seq<u8>|
        !(ksp2 == ksp && kop2 == kop) && delegate_of(stored, ksp2, kop2) is None implies
        #[trigger] remove_delegate(stored, ksp2, kop2) =~= stored by {
        lemma_remove_delegate_absent(stored, ksp2, kop2);
    }
}

/// The store of pending delegations.
#[derive(Debug, Clone, PartialEq, Eq)]
pub struct DelegateStore {
    entries: Vec<PendingDelegate>,
}

impl DelegateStore {
    /// The stored records.
    pub closed spec fn spec_entries(&self) -> Seq<PendingDelegate> {
        self.entries@
    }

    /// The record stored under a key, if any.
    pub open spec fn spec_delegate(&self, ksp: Seq<u8>, kop: Seq<u8>) -> Option<PendingDelegate> {
        delegate_of(self.spec_entries(), ksp, kop)
    }

    /// Store invariant: no key is stored twice.
    pub open spec fn wf(&self) -> bool {
        wf_delegates(self.spec_entries())
    }

    /// An empty store.
    pub fn new() -> (r: Self)
        ensures
            r.wf(),
            r.spec_entries().len() == 0,
    {
        DelegateStore { entries: Vec::new() }
    }

    /// How many delegations are pending.
    pub fn len(&self) -> (r: usize)
        ensures
            r == self.spec_entries().len(),
    {
        self.entries.len()
    }

    /// Find the index of the record stored under a key.
    fn find_idx(&self, space: &KitsuneSpace, op_hash: &KitsuneOpHash) -> (r: Option<usize>)
        ensures
            r matches Some(i) ==> i < self.spec_entries().len() && self.spec_entries()[
                i as int
            ].spec_matches(space.spec_bytes(), op_hash.spec_bytes()) && (forall|j: int|
                0 <= j < i ==> !(#[trigger] self.spec_entries()[j]).spec_matches(
                    space.spec_bytes(),
                    op_hash.spec_bytes(),
                )) && self.spec_delegate(space.spec_bytes(), op_hash.spec_bytes()) == Some(
                self.spec_entries()[i as int],
            ),
            r is None ==> self.spec_delegate(space.spec_bytes(), op_hash.spec_bytes()) is None,
    {
        let n = self.entries.len();
        let mut i: usize = 0;
        while i < n
            invariant
                n == self.spec_entries().len(),
                0 <= i <= n,
                forall|j: int|
                    0 <= j < i ==> !(#[trigger] self.spec_entries()[j]).spec_matches(
                        space.spec_bytes(),
                        op_hash.spec_bytes(),
                    ),
            decreases n - i,
        {
            let space_eq = crate::byte_ops::vec_eq(&self.entries[i].space.0, &space.0);
            let hash_eq = crate::byte_ops::vec_eq(&self.entries[i].op_hash.0, &op_hash.0);
            if space_eq && hash_eq {
                proof {
                    lemma_delegate_of_first_match(
                        self.spec_entries(),
                        space.spec_bytes(),
                        op_hash.spec_bytes(),
                        i as int,
                    );
                }
                return Some(i);
            }
            i += 1;
        }
        proof {
            lemma_delegate_of_none(self.spec_entries(), space.spec_bytes(), op_hash.spec_bytes());
        }
        None
    }

    /// Store a delegation for its (space, first missing hash) key; a
    /// later publish for the same key replaces the parameters.
    pub fn insert(&mut self, d: PendingDelegate)
        requires
            old(self).wf(),
        ensures
            final(self).wf(),
            final(self).spec_entries() == insert_delegate(old(self).spec_entries(), d),
            final(self).spec_delegate(d.space.spec_bytes(), d.op_hash.spec_bytes()) == Some(d),
            forall|ksp2: Seq<u8>, kop2: Seq<u8>|
                !(ksp2 == d.space.spec_bytes() && kop2 == d.op_hash.spec_bytes())
                    ==> #[trigger] final(self).spec_delegate(ksp2, kop2) == old(
                    self,
                ).spec_delegate(ksp2, kop2),
    {
        let ghost pre = self.spec_entries();
        proof {
            lemma_delegate_of_insert(pre, d);
        }
        match self.find_idx(&d.space, &d.op_hash) {
            Some(i) => {
                self.entries[i] = d;
                proof {
                    lemma_delegate_replace(pre, d, d.space.spec_bytes(), d.op_hash.spec_bytes());
                    let mapped = replace_delegates(pre, d);
                    assert forall|j: int|
                        0 <= j < pre.len() implies self.spec_entries()[j] == mapped[j] by {
                        if j != i {
                            assert(!same_delegate_key(pre[j], pre[i as int]));
                        }
                    }
                    assert(self.spec_entries() =~= mapped);
                }
            },
            None => {
                self.entries.push(d);
            },
        }
    }

    /// Op data for (space, hash) is now locally available: hand out the
    /// stored delegation, removing it, so the delegated broadcast is
    /// resumed exactly once. An unrelated key hands out nothing and
    /// changes nothing.
    pub fn resolve(&mut self, space: &KitsuneSpace, op_hash: &KitsuneOpHash) -> (r: Option<
        PendingDelegate,
    >)
        requires
            old(self).wf(),
        ensures
            final(self).wf(),
            r == old(self).spec_delegate(space.spec_bytes(), op_hash.spec_bytes()),
            final(self).spec_entries() == remove_delegate(
                old(self).spec_entries(),
                space.spec_bytes(),
                op_hash.spec_bytes(),
            ),
            final(self).spec_delegate(space.spec_bytes(), op_hash.spec_bytes()) is None,
            r is None ==> final(self).spec_entries() == old(self).spec_entries(),
            forall|ksp2: Seq<u8>, kop2: Seq<u8>|
                !(ksp2 == space.spec_bytes() && kop2 == op_hash.spec_bytes())
                    ==> #[trigger] final(self).spec_delegate(ksp2, kop2) == old(
                    self,
                ).spec_delegate(ksp2, kop2),
    {
        let ghost pre = self.spec_entries();
        let ghost ksp = space.spec_bytes();
        let ghost kop = op_hash.spec_bytes();
        proof {
            lemma_delegate_of_remove(pre, ksp, kop);
        }
        match self.find_idx(space, op_hash) {
            Some(i) => {
                proof {
                    lemma_delegate_remove_at_idx(pre, ksp, kop, i as int);
                }
                let d = self.entries.remove(i);
                proof {
                    assert(self.spec_entries() =~= remove_delegate(pre, ksp, kop));
                }
                Some(d)
            },
            None => {
                proof {
                    lemma_remove_delegate_absent(pre, ksp, kop);
                    assert(remove_delegate(pre, ksp, kop) =~= pre);
                }
                None
            },
        }
    }
}

/// Removing at the index of a key's first match is removing the key's
/// first record.
pub proof fn lemma_delegate_remove_at_idx(
    entries: Seq<PendingDelegate>,
    ksp: Seq<u8>,
    kop: Seq<u8>,
    i: int,
)
    requires
        0 <= i < entries.len(),
        entries[i].spec_matches(ksp, kop),
        forall|j: int| 0 <= j < i ==> !(#[trigger] entries[j]).spec_matches(ksp, kop),
    ensures
        remove_delegate(entries, ksp, kop) =~= entries.remove(i),
    decreases i,
{
    if i == 0 {
        assert(entries.remove(0) =~= entries.skip(1));
    } else {
        lemma_delegate_remove_at_idx(entries.skip(1), ksp, kop, i - 1);
        assert(entries.remove(i) =~= seq![entries[0]] + entries.skip(1).remove(i - 1));
    }
}

} // verus!
