//! The fetch pool: a deduplicating, mergeable queue of outstanding
//! "missing data" requests, keyed by (content address, source space).
//!
//! Inserting a request for a key already present merges the contexts by
//! bitwise OR and prefers the most recently seen source; it never
//! creates a duplicate entry. The fetch task drains ready entries in
//! arrival order, reschedules failures with a doubling backoff, and
//! drops an entry once its attempts exceed the configured bound. When
//! unsolicited data arrives, the response path removes the satisfied
//! entry without waiting for the task's own round trip.

use vstd::prelude::*;

use crate::types::{FetchContext, KitsuneAgent, KitsuneOpHash, KitsuneSpace};

verus! {

/// The merge key of a pending fetch: the content address wanted and the
/// space that wants it.
#[derive(Debug, Clone, PartialEq, Eq, Hash)]
pub struct FetchKey {
    /// The content address to fetch.
    pub op_hash: KitsuneOpHash,
    /// The space requesting it.
    pub space: KitsuneSpace,
}

impl FetchKey {
    /// Whether this key names the given (content address, space) pair.
    pub open spec fn spec_matches(&self, kop: Seq<u8>, ksp: Seq<u8>) -> bool {
        self.op_hash.spec_bytes() == kop && self.space.spec_bytes() == ksp
    }
}

/// Whether two keys name the same (content address, space) pair.
pub open spec fn same_key(a: FetchKey, b: FetchKey) -> bool {
    a.op_hash.spec_bytes() == b.op_hash.spec_bytes() && a.space.spec_bytes()
        == b.space.spec_bytes()
}

/// One pending fetch.
#[derive(Debug, Clone, PartialEq, Eq)]
pub struct FetchPoolEntry {
    /// The merge key.
    pub key: FetchKey,
    /// The merged context flags of every request so far.
    pub context: FetchContext,
    /// The best-known source: the most recently seen one.
    pub source: KitsuneAgent,
    /// How many attempts have failed so far.
    pub attempts: u32,
    /// The earliest time the next attempt may run, in milliseconds.
    pub not_before_ms: u64,
    /// The delay the next failure will impose; doubles per failure.
    pub backoff_ms: u64,
}

/// The first entry stored under a key, scanning left to right.
pub open spec fn entry_of(entries: Seq<FetchPoolEntry>, kop: Seq<u8>, ksp: Seq<u8>) -> Option<
    FetchPoolEntry,
>
    decreases entries.len(),
{
    if entries.len() == 0 {
        None
    } else if entries[0].key.spec_matches(kop, ksp) {
        Some(entries[0])
    } else {
        entry_of(entries.skip(1), kop, ksp)
    }
}

/// How many entries hold a key.
pub open spec fn count_key(entries: Seq<FetchPoolEntry>, kop: Seq<u8>, ksp: Seq<u8>) -> nat
    decreases entries.len(),
{
    if entries.len() == 0 {
        0
    } else {
        count_key(entries.skip(1), kop, ksp) + (if entries[0].key.spec_matches(kop, ksp) {
            1nat
        } else {
            0nat
        })
    }
}

/// An entry merged with a newly arriving request for the same key: the
/// contexts OR together, the newer source wins, and the schedule state
/// is kept.
pub open spec fn merged_entry(
    e: FetchPoolEntry,
    ctx: FetchContext,
    source: KitsuneAgent,
) -> FetchPoolEntry {
    FetchPoolEntry { context: FetchContext((e.context.0 | ctx.0) as u32), source, ..e }
}

/// Every entry holding the key merged with the arriving request;
/// every other entry untouched.
pub open spec fn merge_map(
    entries: Seq<FetchPoolEntry>,
    kop: Seq<u8>,
    ksp: Seq<u8>,
    ctx: FetchContext,
    source: KitsuneAgent,
) -> Seq<FetchPoolEntry> {
    entries.map_values(
        |e: FetchPoolEntry|
            if e.key.spec_matches(kop, ksp) {
                merged_entry(e, ctx, source)
            } else {
                e
            },
    )
}

/// A fresh entry for a key not in the pool.
pub open spec fn fresh_entry(
    key: FetchKey,
    ctx: FetchContext,
    source: KitsuneAgent,
    backoff_ms: u64,
) -> FetchPoolEntry {
    FetchPoolEntry { key, context: ctx, source, attempts: 0, not_before_ms: 0, backoff_ms }
}

/// The pool contents after a request is pushed: merged into the
/// existing entry of its key, or appended fresh.
pub open spec fn push_entries(
    entries: Seq<FetchPoolEntry>,
    key: FetchKey,
    ctx: FetchContext,
    source: KitsuneAgent,
    backoff_ms: u64,
) -> Seq<FetchPoolEntry> {
    if entry_of(entries, key.op_hash.spec_bytes(), key.space.spec_bytes()) is Some {
        merge_map(entries, key.op_hash.spec_bytes(), key.space.spec_bytes(), ctx, source)
    } else {
        entries.push(fresh_entry(key, ctx, source, backoff_ms))
    }
}

/// The pool contents after the first entry of a key is removed.
pub open spec fn remove_first(entries: Seq<FetchPoolEntry>, kop: Seq<u8>, ksp: Seq<u8>) -> Seq<
    FetchPoolEntry,
>
    decreases entries.len(),
{
    if entries.len() == 0 {
        entries
    } else if entries[0].key.spec_matches(kop, ksp) {
        entries.skip(1)
    } else {
        seq![entries[0]] + remove_first(entries.skip(1), kop, ksp)
    }
}

/// The first entry whose schedule allows an attempt now, in arrival
/// order.
pub open spec fn first_ready(entries: Seq<FetchPoolEntry>, now_ms: u64) -> Option<FetchPoolEntry>
    decreases entries.len(),
{
    if entries.len() == 0 {
        None
    } else if entries[0].not_before_ms <= now_ms {
        Some(entries[0])
    } else {
        first_ready(entries.skip(1), now_ms)
    }
}

/// Well-formed pool contents: no key appears twice.
pub open spec fn wf_pool(entries: Seq<FetchPoolEntry>) -> bool {
    forall|i: int, j: int|
        0 <= i < j < entries.len() ==> !same_key(
            (#[trigger] entries[i]).key,
            (#[trigger] entries[j]).key,
        )
}

/// Appending serves a new key and leaves present keys alone.
pub proof fn lemma_entry_of_push(
    entries: Seq<FetchPoolEntry>,
    e: FetchPoolEntry,
    kop: Seq<u8>,
    ksp: Seq<u8>,
)
    ensures
        entry_of(entries.push(e), kop, ksp) == (if entry_of(entries, kop, ksp) is Some {
            entry_of(entries, kop, ksp)
        } else if e.key.spec_matches(kop, ksp) {
            Some(e)
        } else {
            None::<FetchPoolEntry>
        }),
    decreases entries.len(),
{
    if entries.len() == 0 {
        assert(entries.push(e).skip(1) =~= entries);
    } else {
        assert(entries.push(e).skip(1) =~= entries.skip(1).push(e));
        lemma_entry_of_push(entries.skip(1), e, kop, ksp);
    }
}

/// A key is unserved exactly when no entry holds it.
pub proof fn lemma_entry_of_none(entries: Seq<FetchPoolEntry>, kop: Seq<u8>, ksp: Seq<u8>)
    ensures
        entry_of(entries, kop, ksp) is None <==> forall|i: int|
            0 <= i < entries.len() ==> !(#[trigger] entries[i]).key.spec_matches(kop, ksp),
    decreases entries.len(),
{
    if entries.len() > 0 {
        lemma_entry_of_none(entries.skip(1), kop, ksp);
        assert(forall|i: int|
            1 <= i < entries.len() ==> entries.skip(1)[i - 1] == #[trigger] entries[i]);
    }
}

/// A match at index i, with no earlier match, is the served entry.
pub proof fn lemma_entry_of_first_match(
    entries: Seq<FetchPoolEntry>,
    kop: Seq<u8>,
    ksp: Seq<u8>,
    i: int,
)
    requires
        0 <= i < entries.len(),
        entries[i].key.spec_matches(kop, ksp),
        forall|j: int| 0 <= j < i ==> !(#[trigger] entries[j]).key.spec_matches(kop, ksp),
    ensures
        entry_of(entries, kop, ksp) == Some(entries[i]),
    decreases i,
{
    if i > 0 {
        lemma_entry_of_first_match(entries.skip(1), kop, ksp, i - 1);
    }
}

/// Merging a request into a pool serves the merged entry under its key
/// and every other key as before, keeping length and counts.
pub proof fn lemma_entry_of_merge(
    entries: Seq<FetchPoolEntry>,
    kop: Seq<u8>,
    ksp: Seq<u8>,
    ctx: FetchContext,
    source: KitsuneAgent,
)
    ensures
        merge_map(entries, kop, ksp, ctx, source).len() == entries.len(),
        entry_of(merge_map(entries, kop, ksp, ctx, source), kop, ksp) == (match entry_of(
            entries,
            kop,
            ksp,
        ) {
            Some(e) => Some(merged_entry(e, ctx, source)),
            None => None,
        }),
        forall|kop2: Seq<u8>, ksp2: Seq<u8>|
            !(kop2 == kop && ksp2 == ksp) ==> #[trigger] entry_of(
                merge_map(entries, kop, ksp, ctx, source),
                kop2,
                ksp2,
            ) == entry_of(entries, kop2, ksp2),
        forall|kop2: Seq<u8>, ksp2: Seq<u8>|
            #[trigger] count_key(merge_map(entries, kop, ksp, ctx, source), kop2, ksp2)
                == count_key(entries, kop2, ksp2),
    decreases entries.len(),
{
    let mapped = merge_map(entries, kop, ksp, ctx, source);
    if entries.len() == 0 {
        assert(mapped =~= entries);
    } else {
        assert(mapped.skip(1) =~= merge_map(entries.skip(1), kop, ksp, ctx, source));
        lemma_entry_of_merge(entries.skip(1), kop, ksp, ctx, source);
        assert(mapped[0] == (if entries[0].key.spec_matches(kop, ksp) {
            merged_entry(entries[0], ctx, source)
        } else {
            entries[0]
        }));
        assert(mapped[0].key == entries[0].key);
        assert forall|kop2: Seq<u8>, ksp2: Seq<u8>| !(kop2 == kop && ksp2 == ksp) implies
            #[trigger] entry_of(mapped, kop2, ksp2) == entry_of(entries, kop2, ksp2) by {
            assert(entry_of(mapped.skip(1), kop2, ksp2) == entry_of(entries.skip(1), kop2, ksp2));
        }
        assert forall|kop2: Seq<u8>, ksp2: Seq<u8>| #[trigger] count_key(mapped, kop2, ksp2)
            == count_key(entries, kop2, ksp2) by {
            assert(count_key(mapped.skip(1), kop2, ksp2) == count_key(entries.skip(1), kop2, ksp2));
        }
    }
}

/// Pushing an entry raises its key's count by one and no other.
pub proof fn lemma_count_push(
    entries: Seq<FetchPoolEntry>,
    e: FetchPoolEntry,
    kop: Seq<u8>,
    ksp: Seq<u8>,
)
    ensures
        count_key(entries.push(e), kop, ksp) == count_key(entries, kop, ksp) + (
        if e.key.spec_matches(kop, ksp) {
            1nat
        } else {
            0nat
        }),
    decreases entries.len(),
{
    if entries.len() == 0 {
        assert(entries.push(e).skip(1) =~= entries);
    } else {
        assert(entries.push(e).skip(1) =~= entries.skip(1).push(e));
        lemma_count_push(entries.skip(1), e, kop, ksp);
    }
}

/// An unserved key has count zero.
pub proof fn lemma_count_none(entries: Seq<FetchPoolEntry>, kop: Seq<u8>, ksp: Seq<u8>)
    requires
        entry_of(entries, kop, ksp) is None,
    ensures
        count_key(entries, kop, ksp) == 0,
    decreases entries.len(),
{
    if entries.len() > 0 {
        lemma_count_none(entries.skip(1), kop, ksp);
    }
}

/// Removing a key's first entry unserves the key — the pool holds no
/// duplicate — and leaves every other key as before.
pub proof fn lemma_entry_of_remove_first(entries: Seq<FetchPoolEntry>, kop: Seq<u8>, ksp: Seq<u8>)
    requires
        wf_pool(entries),
    ensures
        entry_of(remove_first(entries, kop, ksp), kop, ksp) is None,
        forall|kop2: Seq<u8>, ksp2: Seq<u8>|
            !(kop2 == kop && ksp2 == ksp) ==> #[trigger] entry_of(
                remove_first(entries, kop, ksp),
                kop2,
                ksp2,
            ) == entry_of(entries, kop2, ksp2),
        forall|i: int|
            0 <= i < remove_first(entries, kop, ksp).len() ==> exists|j: int|
                0 <= j < entries.len() && #[trigger] remove_first(entries, kop, ksp)[i]
                    == entries[j],
        wf_pool(remove_first(entries, kop, ksp)),
        remove_first(entries, kop, ksp).len() == entries.len() - (
        if entry_of(entries, kop, ksp) is Some {
            1int
        } else {
            0int
        }),
    decreases entries.len(),
{
    let whole = remove_first(entries, kop, ksp);
    if entries.len() == 0 {
    } else if entries[0].key.spec_matches(kop, ksp) {
        assert(whole == entries.skip(1));
        assert(forall|i: int|
            0 <= i < entries.skip(1).len() ==> entries.skip(1)[i] == #[trigger] entries[i + 1]);
        lemma_entry_of_none(entries.skip(1), kop, ksp);
    } else {
        let tail = remove_first(entries.skip(1), kop, ksp);
        assert(forall|i: int|
            0 <= i < entries.skip(1).len() ==> entries.skip(1)[i] == #[trigger] entries[i + 1]);
        lemma_entry_of_remove_first(entries.skip(1), kop, ksp);
        assert(whole == seq![entries[0]] + tail);
        assert(whole[0] == entries[0]);
        assert(whole.skip(1) =~= tail);
        assert forall|kop2: Seq<u8>, ksp2: Seq<u8>| !(kop2 == kop && ksp2 == ksp) implies
            #[trigger] entry_of(whole, kop2, ksp2) == entry_of(entries, kop2, ksp2) by {
            assert(entry_of(whole.skip(1), kop2, ksp2) == entry_of(entries.skip(1), kop2, ksp2));
        }
        assert(entry_of(whole, kop, ksp) is None) by {
            assert(entry_of(whole.skip(1), kop, ksp) == entry_of(tail, kop, ksp));
        }
        assert forall|i: int|
            0 <= i < whole.len() implies exists|j: int|
                0 <= j < entries.len() && #[trigger] whole[i] == entries[j] by {
            if i == 0 {
                assert(whole[0] == entries[0]);
            } else {
                assert(whole[i] == tail[i - 1]);
                let m = choose|m: int|
                    0 <= m < entries.skip(1).len() && tail[i - 1] == entries.skip(1)[m];
                assert(whole[i] == entries[m + 1]);
            }
        }
        assert(wf_pool(whole)) by {
            assert forall|i: int, j: int| 0 <= i < j < whole.len() implies !same_key(
                (#[trigger] whole[i]).key,
                (#[trigger] whole[j]).key,
            ) by {
                if i == 0 {
                    assert(whole[j] == tail[j - 1]);
                    let m = choose|m: int|
                        0 <= m < entries.skip(1).len() && tail[j - 1] == entries.skip(1)[m];
                    assert(whole[j] == entries[m + 1]);
                } else {
                    assert(whole[i] == tail[i - 1]);
                    assert(whole[j] == tail[j - 1]);
                }
            }
        }
    }
}

/// What the first-ready scan returns is a served entry of the pool.
pub proof fn lemma_first_ready_served(entries: Seq<FetchPoolEntry>, now_ms: u64)
    ensures
        first_ready(entries, now_ms) matches Some(e) ==> entry_of(
            entries,
            e.key.op_hash.spec_bytes(),
            e.key.space.spec_bytes(),
        ) is Some,
    decreases entries.len(),
{
    if entries.len() > 0 {
        lemma_first_ready_served(entries.skip(1), now_ms);
    }
}

/// A ready match at index i, with nothing ready earlier, is the
/// selection.
pub proof fn lemma_first_ready_at(entries: Seq<FetchPoolEntry>, now_ms: u64, i: int)
    requires
        0 <= i < entries.len(),
        entries[i].not_before_ms <= now_ms,
        forall|j: int| 0 <= j < i ==> (#[trigger] entries[j]).not_before_ms > now_ms,
    ensures
        first_ready(entries, now_ms) == Some(entries[i]),
    decreases i,
{
    if i > 0 {
        lemma_first_ready_at(entries.skip(1), now_ms, i - 1);
    }
}

/// Nothing is selected exactly when nothing is ready.
pub proof fn lemma_first_ready_none(entries: Seq<FetchPoolEntry>, now_ms: u64)
    ensures
        first_ready(entries, now_ms) is None <==> forall|i: int|
            0 <= i < entries.len() ==> (#[trigger] entries[i]).not_before_ms > now_ms,
    decreases entries.len(),
{
    if entries.len() > 0 {
        lemma_first_ready_none(entries.skip(1), now_ms);
        assert(forall|i: int|
            1 <= i < entries.len() ==> entries.skip(1)[i - 1] == #[trigger] entries[i]);
    }
}

/// Removing at the index of a key's first match is removing the key's
/// first entry.
pub proof fn lemma_remove_first_at_idx(
    entries: Seq<FetchPoolEntry>,
    kop: Seq<u8>,
    ksp: Seq<u8>,
    i: int,
)
    requires
        0 <= i < entries.len(),
        entries[i].key.spec_matches(kop, ksp),
        forall|j: int| 0 <= j < i ==> !(#[trigger] entries[j]).key.spec_matches(kop, ksp),
    ensures
        remove_first(entries, kop, ksp) =~= entries.remove(i),
    decreases i,
{
    if i == 0 {
        assert(entries.remove(0) =~= entries.skip(1));
    } else {
        lemma_remove_first_at_idx(entries.skip(1), kop, ksp, i - 1);
        assert(entries.remove(i) =~= seq![entries[0]] + entries.skip(1).remove(i - 1));
    }
}

/// An absent key's removal changes nothing.
pub proof fn lemma_remove_first_absent(entries: Seq<FetchPoolEntry>, kop: Seq<u8>, ksp: Seq<u8>)
    requires
        entry_of(entries, kop, ksp) is None,
    ensures
        remove_first(entries, kop, ksp) =~= entries,
    decreases entries.len(),
{
    if entries.len() > 0 {
        lemma_remove_first_absent(entries.skip(1), kop, ksp);
        assert(remove_first(entries, kop, ksp) =~= seq![entries[0]] + entries.skip(1));
        assert(seq![entries[0]] + entries.skip(1) =~= entries);
    }
}

/// Pushing a request keeps the pool free of duplicate keys.
pub proof fn lemma_wf_push_entries(
    entries: Seq<FetchPoolEntry>,
    key: FetchKey,
    ctx: FetchContext,
    source: KitsuneAgent,
    backoff_ms: u64,
)
    requires
        wf_pool(entries),
    ensures
        wf_pool(push_entries(entries, key, ctx, source, backoff_ms)),
{
    let kop = key.op_hash.spec_bytes();
    let ksp = key.space.spec_bytes();
    let out = push_entries(entries, key, ctx, source, backoff_ms);
    if entry_of(entries, kop, ksp) is Some {
        let mapped = merge_map(entries, kop, ksp, ctx, source);
        assert(forall|i: int|
            0 <= i < entries.len() ==> (#[trigger] mapped[i]).key == entries[i].key);
    } else {
        lemma_entry_of_none(entries, kop, ksp);
        assert forall|i: int, j: int| 0 <= i < j < out.len() implies !same_key(
            (#[trigger] out[i]).key,
            (#[trigger] out[j]).key,
        ) by {
            if j == entries.len() {
                assert(out[i] == entries[i]);
                assert(out[j] == fresh_entry(key, ctx, source, backoff_ms));
            } else {
                assert(out[i] == entries[i]);
                assert(out[j] == entries[j]);
            }
        }
    }
}

/// Law: two requests for the same key, with contexts c1 and c2, leave
/// exactly one entry for that key, and its context is c1 | c2.
pub proof fn lemma_push_merges_contexts(
    entries: Seq<FetchPoolEntry>,
    key: FetchKey,
    c1: FetchContext,
    c2: FetchContext,
    s1: KitsuneAgent,
    s2: KitsuneAgent,
    backoff_ms: u64,
)
    requires
        wf_pool(entries),
        entry_of(entries, key.op_hash.spec_bytes(), key.space.spec_bytes()) is None,
    ensures
        ({
            let once = push_entries(entries, key, c1, s1, backoff_ms);
            let twice = push_entries(once, key, c2, s2, backoff_ms);
            let kop = key.op_hash.spec_bytes();
            let ksp = key.space.spec_bytes();
            &&& entry_of(twice, kop, ksp) is Some
            &&& entry_of(twice, kop, ksp)->Some_0.context.0 == (c1.0 | c2.0)
            &&& count_key(twice, kop, ksp) == 1
            &&& twice.len() == entries.len() + 1
        }),
{
    let kop = key.op_hash.spec_bytes();
    let ksp = key.space.spec_bytes();
    let fresh = fresh_entry(key, c1, s1, backoff_ms);
    let once = push_entries(entries, key, c1, s1, backoff_ms);
    lemma_entry_of_push(entries, fresh, kop, ksp);
    lemma_count_none(entries, kop, ksp);
    lemma_count_push(entries, fresh, kop, ksp);
    lemma_entry_of_merge(once, kop, ksp, c2, s2);
}

/// Law: enqueue a fetch, then satisfy it through the response path: the
/// pool holds no entry for the key, every other key is as it was, and
/// no later selection will pick the key — no further fetch attempt is
/// made for it.
pub proof fn lemma_fetch_round_trip(
    entries: Seq<FetchPoolEntry>,
    key: FetchKey,
    ctx: FetchContext,
    source: KitsuneAgent,
    backoff_ms: u64,
)
    requires
        wf_pool(entries),
    ensures
        ({
            let enqueued = push_entries(entries, key, ctx, source, backoff_ms);
            let kop = key.op_hash.spec_bytes();
            let ksp = key.space.spec_bytes();
            let satisfied = remove_first(enqueued, kop, ksp);
            &&& entry_of(satisfied, kop, ksp) is None
            &&& forall|kop2: Seq<u8>, ksp2: Seq<u8>|
                !(kop2 == kop && ksp2 == ksp) ==> #[trigger] entry_of(satisfied, kop2, ksp2)
                    == entry_of(entries, kop2, ksp2)
            &&& forall|now_ms: u64|
                #[trigger] first_ready(satisfied, now_ms) is Some ==> !first_ready(
                    satisfied,
                    now_ms,
                )->Some_0.key.spec_matches(kop, ksp)
        }),
{
    let kop = key.op_hash.spec_bytes();
    let ksp = key.space.spec_bytes();
    let enqueued = push_entries(entries, key, ctx, source, backoff_ms);
    let satisfied = remove_first(enqueued, kop, ksp);
    lemma_wf_push_entries(entries, key, ctx, source, backoff_ms);
    lemma_entry_of_remove_first(enqueued, kop, ksp);
    if entry_of(entries, kop, ksp) is Some {
        lemma_entry_of_merge(entries, kop, ksp, ctx, source);
    } else {
        assert forall|kop2: Seq<u8>, ksp2: Seq<u8>| !(kop2 == kop && ksp2 == ksp) implies
            #[trigger] entry_of(satisfied, kop2, ksp2) == entry_of(entries, kop2, ksp2) by {
            lemma_entry_of_push(entries, fresh_entry(key, ctx, source, backoff_ms), kop2, ksp2);
        }
    }
    assert forall|now_ms: u64| #[trigger] first_ready(satisfied, now_ms) is Some implies
        !first_ready(satisfied, now_ms)->Some_0.key.spec_matches(kop, ksp) by {
        lemma_first_ready_served(satisfied, now_ms);
        let e = first_ready(satisfied, now_ms)->Some_0;
        if e.key.spec_matches(kop, ksp) {
            assert(entry_of(satisfied, e.key.op_hash.spec_bytes(), e.key.space.spec_bytes())
                is Some);
        }
    }
}

/// What became of a failed attempt.
#[derive(Debug, Clone, Copy, PartialEq, Eq, Structural)]
pub enum FetchRetryOutcome {
    /// Rescheduled with a longer backoff.
    Rescheduled,
    /// The attempt bound was exceeded: dropped, and the loss is logged.
    Dropped,
    /// No entry holds the key.
    Unknown,
}

/// An entry rescheduled after a failed attempt: one more attempt
/// counted, the next try no earlier than now plus the backoff, and the
/// backoff doubled, both saturating.
pub open spec fn rescheduled_entry(e: FetchPoolEntry, now_ms: u64) -> FetchPoolEntry
    recommends
        e.attempts < 0xffff_ffff,
{
    FetchPoolEntry {
        attempts: (e.attempts + 1) as u32,
        not_before_ms: if now_ms + e.backoff_ms > 0xffff_ffff_ffff_ffff {
            0xffff_ffff_ffff_ffffu64
        } else {
            (now_ms + e.backoff_ms) as u64
        },
        backoff_ms: if e.backoff_ms + e.backoff_ms > 0xffff_ffff_ffff_ffff {
            0xffff_ffff_ffff_ffffu64
        } else {
            (e.backoff_ms + e.backoff_ms) as u64
        },
        ..e
    }
}

/// Every entry holding the key rescheduled; every other entry
/// untouched.
pub open spec fn reschedule_map(
    entries: Seq<FetchPoolEntry>,
    kop: Seq<u8>,
    ksp: Seq<u8>,
    now_ms: u64,
) -> Seq<FetchPoolEntry> {
    entries.map_values(
        |e: FetchPoolEntry|
            if e.key.spec_matches(kop, ksp) {
                rescheduled_entry(e, now_ms)
            } else {
                e
            },
    )
}

/// The fetch pool: entries in arrival order, with the retry policy's
/// tunables.
#[derive(Debug, Clone, PartialEq, Eq)]
pub struct FetchPool {
    entries: Vec<FetchPoolEntry>,
    max_attempts: u32,
    initial_backoff_ms: u64,
}

impl FetchPool {
    /// The pending entries, in arrival order.
    pub closed spec fn spec_entries(&self) -> Seq<FetchPoolEntry> {
        self.entries@
    }

    /// The attempt bound beyond which an entry is dropped.
    pub closed spec fn spec_max_attempts(&self) -> u32 {
        self.max_attempts
    }

    /// The backoff a fresh entry starts with.
    pub closed spec fn spec_initial_backoff_ms(&self) -> u64 {
        self.initial_backoff_ms
    }

    /// The entry pending for a key, if any.
    pub open spec fn spec_entry(&self, kop: Seq<u8>, ksp: Seq<u8>) -> Option<FetchPoolEntry> {
        entry_of(self.spec_entries(), kop, ksp)
    }

    /// Pool invariant: no key is pending twice.
    pub open spec fn wf(&self) -> bool {
        wf_pool(self.spec_entries())
    }

    /// An empty pool with the given retry policy.
    pub fn new(max_attempts: u32, initial_backoff_ms: u64) -> (r: Self)
        ensures
            r.wf(),
            r.spec_entries().len() == 0,
            r.spec_max_attempts() == max_attempts,
            r.spec_initial_backoff_ms() == initial_backoff_ms,
    {
        FetchPool { entries: Vec::new(), max_attempts, initial_backoff_ms }
    }

    /// How many fetches are pending.
    pub fn len(&self) -> (r: usize)
        ensures
            r == self.spec_entries().len(),
    {
        self.entries.len()
    }

    /// Find the index of the entry pending for a key.
    fn find_idx(&self, op_hash: &KitsuneOpHash, space: &KitsuneSpace) -> (r: Option<usize>)
        ensures
            r matches Some(i) ==> i < self.spec_entries().len() && self.spec_entries()[
                i as int
            ].key.spec_matches(op_hash.spec_bytes(), space.spec_bytes()) && (forall|j: int|
                0 <= j < i ==> !(#[trigger] self.spec_entries()[j]).key.spec_matches(
                    op_hash.spec_bytes(),
                    space.spec_bytes(),
                )) && self.spec_entry(op_hash.spec_bytes(), space.spec_bytes()) == Some(
                self.spec_entries()[i as int],
            ),
            r is None ==> self.spec_entry(op_hash.spec_bytes(), space.spec_bytes()) is None,
    {
        let n = self.entries.len();
        let mut i: usize = 0;
        while i < n
            invariant
                n == self.spec_entries().len(),
                0 <= i <= n,
                forall|j: int|
                    0 <= j < i ==> !(#[trigger] self.spec_entries()[j]).key.spec_matches(
                        op_hash.spec_bytes(),
                        space.spec_bytes(),
                    ),
            decreases n - i,
        {
            let hash_eq = crate::byte_ops::vec_eq(&self.entries[i].key.op_hash.0, &op_hash.0);
            let space_eq = crate::byte_ops::vec_eq(&self.entries[i].key.space.0, &space.0);
            if hash_eq && space_eq {
                proof {
                    lemma_entry_of_first_match(
                        self.spec_entries(),
                        op_hash.spec_bytes(),
                        space.spec_bytes(),
                        i as int,
                    );
                }
                return Some(i);
            }
            i += 1;
        }
        proof {
            lemma_entry_of_none(self.spec_entries(), op_hash.spec_bytes(), space.spec_bytes());
        }
        None
    }

    /// Whether a fetch for this key is pending.
    pub fn is_pending(&self, op_hash: &KitsuneOpHash, space: &KitsuneSpace) -> (r: bool)
        ensures
            r == (self.spec_entry(op_hash.spec_bytes(), space.spec_bytes()) is Some),
    {
        self.find_idx(op_hash, space).is_some()
    }

    /// Record a fetch request. A key already pending merges: contexts
    /// OR together, the newer source wins, and the schedule stands; a
    /// new key joins the back of the queue with a fresh schedule. No
    /// duplicate entry is ever created.
    pub fn push(&mut self, key: FetchKey, context: FetchContext, source: KitsuneAgent)
        requires
            old(self).wf(),
        ensures
            final(self).wf(),
            final(self).spec_entries() == push_entries(
                old(self).spec_entries(),
                key,
                context,
                source,
                old(self).spec_initial_backoff_ms(),
            ),
            final(self).spec_max_attempts() == old(self).spec_max_attempts(),
            final(self).spec_initial_backoff_ms() == old(self).spec_initial_backoff_ms(),
    {
        let ghost pre = self.spec_entries();
        match self.find_idx(&key.op_hash, &key.space) {
            Some(i) => {
                let merged = self.entries[i].context.0 | context.0;
                self.entries[i].context = FetchContext(merged);
                self.entries[i].source = source;
                proof {
                    let kop = key.op_hash.spec_bytes();
                    let ksp = key.space.spec_bytes();
                    let mapped = merge_map(pre, kop, ksp, context, source);
                    assert forall|j: int|
                        0 <= j < pre.len() implies self.spec_entries()[j] == mapped[j] by {
                        if j != i {
                            assert(!same_key(pre[j].key, pre[i as int].key));
                        }
                    }
                    assert(self.spec_entries() =~= mapped);
                    lemma_wf_push_entries(pre, key, context, source, self.initial_backoff_ms);
                }
            },
            None => {
                let backoff = self.initial_backoff_ms;
                proof {
                    lemma_wf_push_entries(pre, key, context, source, backoff);
                }
                self.entries.push(
                    FetchPoolEntry {
                        key,
                        context,
                        source,
                        attempts: 0,
                        not_before_ms: 0,
                        backoff_ms: backoff,
                    },
                );
            },
        }
    }

    /// Remove the entry pending for a key, if any.
    fn remove_entry(&mut self, op_hash: &KitsuneOpHash, space: &KitsuneSpace) -> (r: Option<
        FetchPoolEntry,
    >)
        requires
            old(self).wf(),
        ensures
            final(self).wf(),
            r == old(self).spec_entry(op_hash.spec_bytes(), space.spec_bytes()),
            final(self).spec_entries() == remove_first(
                old(self).spec_entries(),
                op_hash.spec_bytes(),
                space.spec_bytes(),
            ),
            final(self).spec_entry(op_hash.spec_bytes(), space.spec_bytes()) is None,
            final(self).spec_max_attempts() == old(self).spec_max_attempts(),
            final(self).spec_initial_backoff_ms() == old(self).spec_initial_backoff_ms(),
    {
        let ghost pre = self.spec_entries();
        let ghost kop = op_hash.spec_bytes();
        let ghost ksp = space.spec_bytes();
        proof {
            lemma_entry_of_remove_first(pre, kop, ksp);
        }
        match self.find_idx(op_hash, space) {
            Some(i) => {
                proof {
                    lemma_remove_first_at_idx(pre, kop, ksp, i as int);
                }
                let e = self.entries.remove(i);
                proof {
                    assert(self.spec_entries() =~= remove_first(pre, kop, ksp));
                }
                Some(e)
            },
            None => {
                proof {
                    lemma_remove_first_absent(pre, kop, ksp);
                    assert(remove_first(pre, kop, ksp) =~= pre);
                }
                None
            },
        }
    }

    /// The fetch task fetched a key's data: its entry leaves the pool.
    /// Returns the entry so the caller can resume pending delegations.
    pub fn on_fetch_success(&mut self, op_hash: &KitsuneOpHash, space: &KitsuneSpace) -> (r: Option<
        FetchPoolEntry,
    >)
        requires
            old(self).wf(),
        ensures
            final(self).wf(),
            r == old(self).spec_entry(op_hash.spec_bytes(), space.spec_bytes()),
            final(self).spec_entries() == remove_first(
                old(self).spec_entries(),
                op_hash.spec_bytes(),
                space.spec_bytes(),
            ),
            final(self).spec_entry(op_hash.spec_bytes(), space.spec_bytes()) is None,
            final(self).spec_max_attempts() == old(self).spec_max_attempts(),
            final(self).spec_initial_backoff_ms() == old(self).spec_initial_backoff_ms(),
    {
        self.remove_entry(op_hash, space)
    }

    /// Unsolicited data for a key arrived (by gossip or direct
    /// publish): the already-satisfied entry leaves the pool without
    /// waiting for the fetch task's own round trip.
    pub fn on_unsolicited_data(&mut self, op_hash: &KitsuneOpHash, space: &KitsuneSpace) -> (r:
        Option<FetchPoolEntry>)
        requires
            old(self).wf(),
        ensures
            final(self).wf(),
            r == old(self).spec_entry(op_hash.spec_bytes(), space.spec_bytes()),
            final(self).spec_entries() == remove_first(
                old(self).spec_entries(),
                op_hash.spec_bytes(),
                space.spec_bytes(),
            ),
            final(self).spec_entry(op_hash.spec_bytes(), space.spec_bytes()) is None,
            final(self).spec_max_attempts() == old(self).spec_max_attempts(),
            final(self).spec_initial_backoff_ms() == old(self).spec_initial_backoff_ms(),
    {
        self.remove_entry(op_hash, space)
    }

    /// The entry the fetch task should serve next: the first one, in
    /// arrival order, whose backoff has elapsed.
    pub fn next_ready(&self, now_ms: u64) -> (r: Option<&FetchPoolEntry>)
        ensures
            r matches Some(e) ==> first_ready(self.spec_entries(), now_ms) == Some(*e),
            r is None ==> first_ready(self.spec_entries(), now_ms) is None,
    {
        let n = self.entries.len();
        let mut i: usize = 0;
        while i < n
            invariant
                n == self.spec_entries().len(),
                0 <= i <= n,
                forall|j: int|
                    0 <= j < i ==> (#[trigger] self.spec_entries()[j]).not_before_ms > now_ms,
            decreases n - i,
        {
            if self.entries[i].not_before_ms <= now_ms {
                proof {
                    lemma_first_ready_at(self.spec_entries(), now_ms, i as int);
                }
                return Some(&self.entries[i]);
            }
            i += 1;
        }
        proof {
            lemma_first_ready_none(self.spec_entries(), now_ms);
        }
        None
    }

    /// A fetch attempt for a key failed (timeout, unreachable peer,
    /// malformed response): reschedule it with one more attempt counted
    /// and a doubled backoff — unless the attempt bound is exceeded, in
    /// which case the entry is dropped and the loss is logged; the
    /// gossip layer will eventually re-offer the data.
    pub fn on_fetch_failure(
        &mut self,
        op_hash: &KitsuneOpHash,
        space: &KitsuneSpace,
        now_ms: u64,
    ) -> (r: FetchRetryOutcome)
        requires
            old(self).wf(),
        ensures
            final(self).wf(),
            final(self).spec_max_attempts() == old(self).spec_max_attempts(),
            final(self).spec_initial_backoff_ms() == old(self).spec_initial_backoff_ms(),
            old(self).spec_entry(op_hash.spec_bytes(), space.spec_bytes()) is None ==> r
                == FetchRetryOutcome::Unknown && final(self).spec_entries() == old(
                self,
            ).spec_entries(),
            old(self).spec_entry(op_hash.spec_bytes(), space.spec_bytes()) matches Some(e)
                && e.attempts >= old(self).spec_max_attempts() ==> r == FetchRetryOutcome::Dropped
                && final(self).spec_entries() == remove_first(
                old(self).spec_entries(),
                op_hash.spec_bytes(),
                space.spec_bytes(),
            ),
            old(self).spec_entry(op_hash.spec_bytes(), space.spec_bytes()) matches Some(e)
                && e.attempts < old(self).spec_max_attempts() ==> r == FetchRetryOutcome::Rescheduled
                && final(self).spec_entries() == reschedule_map(
                old(self).spec_entries(),
                op_hash.spec_bytes(),
                space.spec_bytes(),
                now_ms,
            ),
    {
        let ghost pre = self.spec_entries();
        let ghost kop = op_hash.spec_bytes();
        let ghost ksp = space.spec_bytes();
        match self.find_idx(op_hash, space) {
            Some(i) => {
                if self.entries[i].attempts >= self.max_attempts {
                    proof {
                        lemma_remove_first_at_idx(pre, kop, ksp, i as int);
                        lemma_entry_of_remove_first(pre, kop, ksp);
                    }
                    let _ = self.entries.remove(i);
                    proof {
                        assert(self.spec_entries() =~= remove_first(pre, kop, ksp));
                    }
                    FetchRetryOutcome::Dropped
                } else {
                    let attempts = self.entries[i].attempts + 1;
                    let backoff = self.entries[i].backoff_ms;
                    self.entries[i].attempts = attempts;
                    self.entries[i].not_before_ms = now_ms.saturating_add(backoff);
                    self.entries[i].backoff_ms = backoff.saturating_add(backoff);
                    proof {
                        let mapped = reschedule_map(pre, kop, ksp, now_ms);
                        assert forall|j: int|
                            0 <= j < pre.len() implies self.spec_entries()[j] == mapped[j] by {
                            if j != i {
                                assert(!same_key(pre[j].key, pre[i as int].key));
                            }
                        }
                        assert(self.spec_entries() =~= mapped);
                        assert(wf_pool(self.spec_entries())) by {
                            assert(forall|j: int|
                                0 <= j < pre.len() ==> (#[trigger] mapped[j]).key == pre[j].key);
                        }
                    }
                    FetchRetryOutcome::Rescheduled
                }
            },
            None => { FetchRetryOutcome::Unknown },
        }
    }
}

} // verus!
