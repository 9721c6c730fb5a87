//! The space registry: a map from space identifier to a lazily
//! constructed, singly initialized per-space actor slot.
//!
//! The first caller for a space starts its construction and every
//! caller — before or after construction completes — receives the same
//! construction token, which identifies the one handle the space will
//! ever have. A slot is never removed; the registry only grows until
//! shutdown tears the whole process down.

use vstd::prelude::*;

use crate::error::RouterError;
use crate::types::KitsuneSpace;

verus! {

/// One space's slot in the registry.
#[derive(Debug, Clone, Copy, PartialEq, Eq, Structural)]
pub struct SpaceSlot {
    /// Identifies the one construction — and so the one handle — of
    /// this space; every caller for the space receives this token.
    pub token: u64,
    /// Whether the space actor has finished constructing. Callers that
    /// arrive earlier await the token's completion.
    pub ready: bool,
}

/// The first slot stored under a key, scanning left to right.
pub open spec fn slot_of(entries: Seq<(KitsuneSpace, SpaceSlot)>, key: Seq<u8>) -> Option<SpaceSlot>
    decreases entries.len(),
{
    if entries.len() == 0 {
        None
    } else if entries[0].0.spec_bytes() == key {
        Some(entries[0].1)
    } else {
        slot_of(entries.skip(1), key)
    }
}

/// Appending an entry leaves every present key alone and serves the new
/// key only if it was absent.
pub proof fn lemma_slot_of_push(
    entries: Seq<(KitsuneSpace, SpaceSlot)>,
    p: (KitsuneSpace, SpaceSlot),
    key: Seq<u8>,
)
    ensures
        slot_of(entries.push(p), key) == (if slot_of(entries, key) is Some {
            slot_of(entries, key)
        } else if p.0.spec_bytes() == key {
            Some(p.1)
        } else {
            None::<SpaceSlot>
        }),
    decreases entries.len(),
{
    if entries.len() == 0 {
        assert(entries.push(p).skip(1) =~= entries);
    } else {
        assert(entries.push(p).skip(1) =~= entries.skip(1).push(p));
        lemma_slot_of_push(entries.skip(1), p, key);
    }
}

/// A key is unserved exactly when no entry holds it.
pub proof fn lemma_slot_of_none(entries: Seq<(KitsuneSpace, SpaceSlot)>, key: Seq<u8>)
    ensures
        slot_of(entries, key) is None <==> forall|i: int|
            0 <= i < entries.len() ==> (#[trigger] entries[i]).0.spec_bytes() != key,
    decreases entries.len(),
{
    if entries.len() > 0 {
        lemma_slot_of_none(entries.skip(1), key);
        assert(forall|i: int|
            1 <= i < entries.len() ==> entries.skip(1)[i - 1] == #[trigger] entries[i]);
    }
}

/// A match at index i, with no earlier match, is the served slot.
pub proof fn lemma_slot_of_first_match(
    entries: Seq<(KitsuneSpace, SpaceSlot)>,
    key: Seq<u8>,
    i: int,
)
    requires
        0 <= i < entries.len(),
        entries[i].0.spec_bytes() == key,
        forall|j: int| 0 <= j < i ==> (#[trigger] entries[j]).0.spec_bytes() != key,
    ensures
        slot_of(entries, key) == Some(entries[i].1),
    decreases i,
{
    if i > 0 {
        lemma_slot_of_first_match(entries.skip(1), key, i - 1);
    }
}

/// Updating the entry at an index with one that keeps its key serves
/// that key the new slot and every other key as before, provided the
/// index held the key's first match.
pub proof fn lemma_slot_of_update(
    entries: Seq<(KitsuneSpace, SpaceSlot)>,
    i: int,
    p: (KitsuneSpace, SpaceSlot),
    k: Seq<u8>,
)
    requires
        0 <= i < entries.len(),
        p.0.spec_bytes() == entries[i].0.spec_bytes(),
        forall|j: int|
            0 <= j < i ==> (#[trigger] entries[j]).0.spec_bytes() != entries[i].0.spec_bytes(),
    ensures
        slot_of(entries.update(i, p), k) == (if k == entries[i].0.spec_bytes() {
            Some(p.1)
        } else {
            slot_of(entries, k)
        }),
    decreases i,
{
    if i == 0 {
        assert(entries.update(0, p).skip(1) =~= entries.skip(1));
    } else {
        assert(entries.update(i, p).skip(1) =~= entries.skip(1).update(i - 1, p));
        assert(forall|j: int|
            0 <= j < i - 1 ==> entries.skip(1)[j] == #[trigger] entries[j + 1]);
        lemma_slot_of_update(entries.skip(1), i - 1, p, k);
    }
}

/// Well-formed registry contents: the token of each slot is its
/// insertion index, and no space appears twice.
pub open spec fn wf_entries(entries: Seq<(KitsuneSpace, SpaceSlot)>) -> bool {
    &&& forall|i: int| 0 <= i < entries.len() ==> (#[trigger] entries[i]).1.token == i
    &&& forall|i: int, j: int|
        0 <= i < j < entries.len() ==> (#[trigger] entries[i]).0.spec_bytes() != (
        #[trigger] entries[j]).0.spec_bytes()
}

/// The registry contents after a lookup-or-create for a space: grown by
/// one not-yet-ready slot when the space was absent, untouched when it
/// was present.
pub open spec fn goc_entries(
    entries: Seq<(KitsuneSpace, SpaceSlot)>,
    space: KitsuneSpace,
) -> Seq<(KitsuneSpace, SpaceSlot)> {
    if slot_of(entries, space.spec_bytes()) is Some {
        entries
    } else {
        entries.push((space, SpaceSlot { token: entries.len() as u64, ready: false }))
    }
}

/// The token a lookup-or-create hands back for a space.
pub open spec fn goc_token(entries: Seq<(KitsuneSpace, SpaceSlot)>, key: Seq<u8>) -> u64 {
    if slot_of(entries, key) is Some {
        slot_of(entries, key)->Some_0.token
    } else {
        entries.len() as u64
    }
}

/// Law: for one space, every lookup-or-create agrees on the token and
/// construction happens exactly once. A second call returns the same
/// token and changes nothing, and the registry grows only when the
/// space is first seen.
pub proof fn lemma_get_or_create_once(entries: Seq<(KitsuneSpace, SpaceSlot)>, space: KitsuneSpace)
    requires
        wf_entries(entries),
        entries.len() < 0xffff_ffff_ffff_ffff,
    ensures
        ({
            let grown = goc_entries(entries, space);
            let token = goc_token(entries, space.spec_bytes());
            &&& wf_entries(grown)
            &&& slot_of(grown, space.spec_bytes()) is Some
            &&& slot_of(grown, space.spec_bytes())->Some_0.token == token
            &&& goc_entries(grown, space) == grown
            &&& goc_token(grown, space.spec_bytes()) == token
            &&& grown.len() == entries.len() + (if slot_of(entries, space.spec_bytes()) is Some {
                0int
            } else {
                1int
            })
        }),
{
    let key = space.spec_bytes();
    if slot_of(entries, key) is Some {
    } else {
        let p = (space, SpaceSlot { token: entries.len() as u64, ready: false });
        lemma_slot_of_push(entries, p, key);
        lemma_slot_of_none(entries, key);
        let grown = entries.push(p);
        assert(forall|i: int| 0 <= i < entries.len() ==> grown[i] == #[trigger] entries[i]);
        assert forall|i: int| 0 <= i < grown.len() implies (#[trigger] grown[i]).1.token == i by {
            if i < entries.len() {
                assert(grown[i] == entries[i]);
            } else {
                assert(grown[i] == p);
            }
        }
        assert forall|i: int, j: int| 0 <= i < j < grown.len() implies (#[trigger] grown[i]).0.spec_bytes()
            != (#[trigger] grown[j]).0.spec_bytes() by {
            if j == entries.len() {
                assert(grown[i] == entries[i]);
                assert(grown[j] == p);
            }
        }
    }
}

/// The space registry. Mutated only by the routing actor; read by every
/// dispatch.
#[derive(Debug, Clone, PartialEq, Eq)]
pub struct SpaceRegistry {
    entries: Vec<(KitsuneSpace, SpaceSlot)>,
    shutting_down: bool,
}

impl SpaceRegistry {
    /// The stored slots, in insertion order.
    pub closed spec fn spec_entries(&self) -> Seq<(KitsuneSpace, SpaceSlot)> {
        self.entries@
    }

    /// Whether shutdown has begun.
    pub closed spec fn spec_shutting_down(&self) -> bool {
        self.shutting_down
    }

    /// How many spaces have been constructed.
    pub open spec fn spec_len(&self) -> nat {
        self.spec_entries().len()
    }

    /// The slot serving a space, if any.
    pub open spec fn spec_slot(&self, key: Seq<u8>) -> Option<SpaceSlot> {
        slot_of(self.spec_entries(), key)
    }

    /// Whether a space is registered.
    pub open spec fn spec_contains(&self, key: Seq<u8>) -> bool {
        self.spec_slot(key) is Some
    }

    /// The token of a registered space.
    pub open spec fn spec_token(&self, key: Seq<u8>) -> u64
        recommends
            self.spec_contains(key),
    {
        self.spec_slot(key)->Some_0.token
    }

    /// Registry invariant.
    pub open spec fn wf(&self) -> bool {
        wf_entries(self.spec_entries())
    }

    /// An empty registry, not shutting down.
    pub fn new() -> (r: Self)
        ensures
            r.wf(),
            r.spec_len() == 0,
            !r.spec_shutting_down(),
    {
        SpaceRegistry { entries: Vec::new(), shutting_down: false }
    }

    /// How many spaces have been constructed.
    pub fn len(&self) -> (r: usize)
        ensures
            r == self.spec_len(),
    {
        self.entries.len()
    }

    /// Whether shutdown has begun.
    pub fn is_shutting_down(&self) -> (r: bool)
        ensures
            r == self.spec_shutting_down(),
    {
        self.shutting_down
    }

    /// Refuse new spaces from now on; existing slots stay.
    pub fn begin_shutdown(&mut self)
        ensures
            final(self).spec_shutting_down(),
            final(self).spec_entries() == old(self).spec_entries(),
    {
        self.shutting_down = true;
    }

    /// Find the index of the slot serving a space.
    fn lookup_idx(&self, space: &KitsuneSpace) -> (r: Option<usize>)
        ensures
            r matches Some(i) ==> i < self.spec_entries().len() && self.spec_entries()[
                i as int
            ].0.spec_bytes() == space.spec_bytes() && self.spec_slot(space.spec_bytes()) == Some(
                self.spec_entries()[i as int].1,
            ),
            r is None ==> !self.spec_contains(space.spec_bytes()),
    {
        let n = self.entries.len();
        let mut i: usize = 0;
        while i < n
            invariant
                n == self.spec_entries().len(),
                0 <= i <= n,
                forall|j: int|
                    0 <= j < i ==> (#[trigger] self.spec_entries()[j]).0.spec_bytes()
                        != space.spec_bytes(),
            decreases n - i,
        {
            if crate::byte_ops::vec_eq(&self.entries[i].0.0, &space.0) {
                proof {
                    lemma_slot_of_first_match(
                        self.spec_entries(),
                        space.spec_bytes(),
                        i as int,
                    );
                }
                return Some(i);
            }
            i += 1;
        }
        proof {
            lemma_slot_of_none(self.spec_entries(), space.spec_bytes());
        }
        None
    }

    /// The token of the slot serving a space, if any. Never creates.
    pub fn lookup(&self, space: &KitsuneSpace) -> (r: Option<u64>)
        ensures
            r matches Some(t) ==> self.spec_contains(space.spec_bytes()) && t == self.spec_token(
                space.spec_bytes(),
            ),
            r is None ==> !self.spec_contains(space.spec_bytes()),
    {
        match self.lookup_idx(space) {
            Some(i) => Some(self.entries[i].1.token),
            None => None,
        }
    }

    /// Look up the slot for a space, creating it if absent. The first
    /// caller for a space creates its slot; every caller receives the
    /// same token. Once shutdown has begun no new space may be created
    /// and the call fails fast.
    pub fn get_or_create(&mut self, space: KitsuneSpace) -> (r: Result<u64, RouterError>)
        requires
            old(self).wf(),
        ensures
            final(self).wf(),
            final(self).spec_shutting_down() == old(self).spec_shutting_down(),
            old(self).spec_shutting_down() ==> r == Err::<u64, RouterError>(
                RouterError::ShuttingDown,
            ) && final(self).spec_entries() == old(self).spec_entries(),
            !old(self).spec_shutting_down() ==> r == Ok::<u64, RouterError>(
                goc_token(old(self).spec_entries(), space.spec_bytes()),
            ) && final(self).spec_entries() == goc_entries(old(self).spec_entries(), space),
    {
        if self.shutting_down {
            return Err(RouterError::ShuttingDown);
        }
        match self.lookup_idx(&space) {
            Some(i) => Ok(self.entries[i].1.token),
            None => {
                let token = self.entries.len() as u64;
                let slot = SpaceSlot { token, ready: false };
                proof {
                    lemma_slot_of_push(self.spec_entries(), (space, slot), space.spec_bytes());
                    lemma_slot_of_none(self.spec_entries(), space.spec_bytes());
                }
                self.entries.push((space, slot));
                Ok(token)
            },
        }
    }

    /// Record that a space's construction has finished. Idempotent; a
    /// space that was never created is left alone.
    pub fn mark_ready(&mut self, space: &KitsuneSpace) -> (r: bool)
        requires
            old(self).wf(),
        ensures
            final(self).wf(),
            final(self).spec_shutting_down() == old(self).spec_shutting_down(),
            r == old(self).spec_contains(space.spec_bytes()),
            !r ==> final(self).spec_entries() == old(self).spec_entries(),
            r ==> final(self).spec_slot(space.spec_bytes()) is Some,
            r ==> final(self).spec_slot(space.spec_bytes())->Some_0.ready,
            r ==> final(self).spec_slot(space.spec_bytes())->Some_0.token == old(self).spec_token(
                space.spec_bytes(),
            ),
            r ==> final(self).spec_len() == old(self).spec_len(),
            forall|k: Seq<u8>|
                k != space.spec_bytes() ==> #[trigger] final(self).spec_slot(k) == old(
                    self,
                ).spec_slot(k),
    {
        match self.lookup_idx(space) {
            Some(i) => {
                let ghost pre = self.spec_entries();
                self.entries[i].1.ready = true;
                proof {
                    let p = (pre[i as int].0, SpaceSlot { token: pre[i as int].1.token, ready: true });
                    assert(self.spec_entries() =~= pre.update(i as int, p));
                    lemma_slot_of_none(pre.subrange(0, i as int), space.spec_bytes());
                    assert(forall|j: int|
                        0 <= j < i ==> (#[trigger] pre[j]).0.spec_bytes() != pre[
                        i as int].0.spec_bytes());
                    lemma_slot_of_update(pre, i as int, p, space.spec_bytes());
                    assert(forall|k: Seq<u8>|
                        k != space.spec_bytes() ==> #[trigger] slot_of(pre.update(i as int, p), k)
                            == slot_of(pre, k)) by {
                        assert forall|k: Seq<u8>| k != space.spec_bytes() implies #[trigger] slot_of(
                            pre.update(i as int, p),
                            k,
                        ) == slot_of(pre, k) by {
                            lemma_slot_of_update(pre, i as int, p, k);
                        }
                    }
                }
                true
            },
            None => false,
        }
    }

    /// The tokens of every registered space, in registration order.
    pub fn all_tokens(&self) -> (r: Vec<u64>)
        requires
            self.wf(),
        ensures
            r@.len() == self.spec_len(),
            forall|i: int| 0 <= i < r@.len() ==> #[trigger] r@[i] == i,
    {
        let n = self.entries.len();
        let mut out: Vec<u64> = Vec::new();
        let mut i: usize = 0;
        while i < n
            invariant
                self.wf(),
                n == self.spec_len(),
                0 <= i <= n,
                out@.len() == i,
                forall|j: int| 0 <= j < i ==> #[trigger] out@[j] == j,
            decreases n - i,
        {
            out.push(self.entries[i].1.token);
            i += 1;
        }
        out
    }
}

} // verus!
