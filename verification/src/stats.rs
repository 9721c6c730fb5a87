//! The network stats report: a structured key/value document. The
//! transport hands over its own stats document; the peer store's
//! records are folded into it, keyed by each peer's transport identity,
//! the space it belongs to, and its agent key — so a reader can see,
//! per connection and per space, which agents are reachable and when
//! their records expire.

use vstd::prelude::*;

use base64::Engine;

use crate::error::RouterError;

verus! {

/// One keyed entry of a document.
#[derive(Debug, PartialEq, Eq)]
pub struct DocEntry {
    /// The entry's key, as text bytes.
    pub key: Vec<u8>,
    /// The entry's value.
    pub val: StatsVal,
}

/// A structured report value: the nested key/value document the
/// diagnostics surface hands out.
#[derive(Debug, PartialEq, Eq)]
pub enum StatsVal {
    /// An empty value.
    Null,
    /// A flag.
    Bool(bool),
    /// A number.
    UInt(u64),
    /// Text, as bytes.
    Text(Vec<u8>),
    /// An ordered list.
    List(Vec<StatsVal>),
    /// An ordered document of keyed values.
    Doc(Vec<DocEntry>),
}

/// The first value stored under a key, scanning left to right.
pub open spec fn doc_get(es: Seq<DocEntry>, key: Seq<u8>) -> Option<StatsVal>
    decreases es.len(),
{
    if es.len() == 0 {
        None
    } else if es[0].key@ == key {
        Some(es[0].val)
    } else {
        doc_get(es.skip(1), key)
    }
}

/// The entries after the first one of a key is removed.
pub open spec fn doc_remove(es: Seq<DocEntry>, key: Seq<u8>) -> Seq<DocEntry>
    decreases es.len(),
{
    if es.len() == 0 {
        es
    } else if es[0].key@ == key {
        es.skip(1)
    } else {
        seq![es[0]] + doc_remove(es.skip(1), key)
    }
}

/// A key is unserved exactly when no entry holds it.
pub proof fn lemma_doc_get_none(es: Seq<DocEntry>, key: Seq<u8>)
    ensures
        doc_get(es, key) is None <==> forall|i: int|
            0 <= i < es.len() ==> (#[trigger] es[i]).key@ != key,
    decreases es.len(),
{
    if es.len() > 0 {
        lemma_doc_get_none(es.skip(1), key);
        assert(forall|i: int| 1 <= i < es.len() ==> es.skip(1)[i - 1] == #[trigger] es[i]);
    }
}

/// A match at index i, with no earlier match, is the served entry.
pub proof fn lemma_doc_get_first_match(es: Seq<DocEntry>, key: Seq<u8>, i: int)
    requires
        0 <= i < es.len(),
        es[i].key@ == key,
        forall|j: int| 0 <= j < i ==> (#[trigger] es[j]).key@ != key,
    ensures
        doc_get(es, key) == Some(es[i].val),
    decreases i,
{
    if i > 0 {
        lemma_doc_get_first_match(es.skip(1), key, i - 1);
    }
}

/// Removing at the index of a key's first match is removing the key's
/// first entry.
pub proof fn lemma_doc_remove_at_idx(es: Seq<DocEntry>, key: Seq<u8>, i: int)
    requires
        0 <= i < es.len(),
        es[i].key@ == key,
        forall|j: int| 0 <= j < i ==> (#[trigger] es[j]).key@ != key,
    ensures
        doc_remove(es, key) =~= es.remove(i),
    decreases i,
{
    if i == 0 {
        assert(es.remove(0) =~= es.skip(1));
    } else {
        lemma_doc_remove_at_idx(es.skip(1), key, i - 1);
        assert(es.remove(i) =~= seq![es[0]] + es.skip(1).remove(i - 1));
    }
}

/// An absent key's removal changes nothing.
pub proof fn lemma_doc_remove_absent(es: Seq<DocEntry>, key: Seq<u8>)
    requires
        doc_get(es, key) is None,
    ensures
        doc_remove(es, key) =~= es,
    decreases es.len(),
{
    if es.len() > 0 {
        lemma_doc_remove_absent(es.skip(1), key);
        assert(doc_remove(es, key) =~= seq![es[0]] + es.skip(1));
        assert(seq![es[0]] + es.skip(1) =~= es);
    }
}

/// Find the index of the first entry of a key.
fn doc_find_idx(es: &Vec<DocEntry>, key: &[u8]) -> (r: Option<usize>)
    ensures
        r matches Some(i) ==> i < es@.len() && es@[i as int].key@ == key@ && (forall|j: int|
            0 <= j < i ==> (#[trigger] es@[j]).key@ != key@) && doc_get(es@, key@) == Some(
            es@[i as int].val,
        ),
        r is None ==> doc_get(es@, key@) is None,
{
    let n = es.len();
    let mut i: usize = 0;
    while i < n
        invariant
            n == es@.len(),
            0 <= i <= n,
            forall|j: int| 0 <= j < i ==> (#[trigger] es@[j]).key@ != key@,
        decreases n - i,
    {
        if crate::byte_ops::slice_eq(es[i].key.as_slice(), key) {
            proof {
                lemma_doc_get_first_match(es@, key@, i as int);
            }
            return Some(i);
        }
        i += 1;
    }
    proof {
        lemma_doc_get_none(es@, key@);
    }
    None
}

/// Take a key's value out of a document, if it holds one.
fn doc_take(es: &mut Vec<DocEntry>, key: &[u8]) -> (r: Option<StatsVal>)
    ensures
        r == doc_get(old(es)@, key@),
        final(es)@ == doc_remove(old(es)@, key@),
{
    let ghost pre = es@;
    match doc_find_idx(es, key) {
        Some(i) => {
            proof {
                lemma_doc_remove_at_idx(pre, key@, i as int);
            }
            let e = es.remove(i);
            proof {
                assert(es@ =~= doc_remove(pre, key@));
            }
            Some(e.val)
        },
        None => {
            proof {
                lemma_doc_remove_absent(pre, key@);
                assert(doc_remove(pre, key@) =~= pre);
            }
            None
        },
    }
}

/// The key under which the transport names its own identity.
pub open spec fn this_id_key_view() -> Seq<u8> {
    seq![116u8, 104u8, 105u8, 115u8, 73u8, 100u8]
}

/// The key under which per-space agent records hang off a peer entry.
pub open spec fn dna_map_key_view() -> Seq<u8> {
    seq![
        104u8,
        99u8,
        68u8,
        110u8,
        97u8,
        72u8,
        97u8,
        115u8,
        104u8,
        101u8,
        115u8,
        84u8,
        111u8,
        65u8,
        103u8,
        101u8,
        110u8,
        116u8,
        115u8,
    ]
}

/// The key under which an agent record states its expiry.
pub open spec fn expires_key_view() -> Seq<u8> {
    seq![
        101u8,
        120u8,
        112u8,
        105u8,
        114u8,
        101u8,
        115u8,
        65u8,
        116u8,
        77u8,
        105u8,
        108u8,
        108u8,
        105u8,
        115u8,
    ]
}

/// The text "thisId", as bytes.
pub fn this_id_key() -> (r: Vec<u8>)
    ensures
        r@ == this_id_key_view(),
{
    let arr: &'static [u8; 6] = &[116u8, 104u8, 105u8, 115u8, 73u8, 100u8];
    let r = vstd::slice::slice_to_vec(arr.as_slice());
    proof {
        assert(r@ =~= this_id_key_view());
    }
    r
}

/// The text "hcDnaHashesToAgents", as bytes.
pub fn dna_map_key() -> (r: Vec<u8>)
    ensures
        r@ == dna_map_key_view(),
{
    let arr: &'static [u8; 19] = &[
        104u8,
        99u8,
        68u8,
        110u8,
        97u8,
        72u8,
        97u8,
        115u8,
        104u8,
        101u8,
        115u8,
        84u8,
        111u8,
        65u8,
        103u8,
        101u8,
        110u8,
        116u8,
        115u8,
    ];
    let r = vstd::slice::slice_to_vec(arr.as_slice());
    proof {
        assert(r@ =~= dna_map_key_view());
    }
    r
}

/// The text "expiresAtMillis", as bytes.
pub fn expires_key() -> (r: Vec<u8>)
    ensures
        r@ == expires_key_view(),
{
    let arr: &'static [u8; 15] = &[
        101u8,
        120u8,
        112u8,
        105u8,
        114u8,
        101u8,
        115u8,
        65u8,
        116u8,
        77u8,
        105u8,
        108u8,
        108u8,
        105u8,
        115u8,
    ];
    let r = vstd::slice::slice_to_vec(arr.as_slice());
    proof {
        assert(r@ =~= expires_key_view());
    }
    r
}

/// The URL-safe, unpadded base64 encoding of a byte string, as the
/// encoder computes it; left uninterpreted here.
pub uninterp spec fn b64_url_of(data: Seq<u8>) -> Seq<u8>;

/// The length of an unpadded base64 encoding: four characters for each
/// three input bytes, two or three more for a one- or two-byte
/// remainder.
pub open spec fn b64_nopad_len(n: nat) -> nat {
    (n / 3) * 4 + (if n % 3 == 0 {
        0nat
    } else if n % 3 == 1 {
        2nat
    } else {
        3nat
    })
}

/// Relies on base64's URL_SAFE_NO_PAD engine: URL-safe base64 without
/// padding, a function of the input bytes alone, one ASCII byte per
/// output character.
#[verifier::external_body]
fn b64_url_no_pad(data: &[u8]) -> (r: Vec<u8>)
    ensures
        r@ == b64_url_of(data@),
        r@.len() == b64_nopad_len(data@.len()),
{
    base64::engine::general_purpose::URL_SAFE_NO_PAD.encode(data).into_bytes()
}

/// A space key as the report writes it: the DNA-hash prefix "uhC0k"
/// followed by the base64 of the space's bytes.
pub open spec fn dna_key_view(space: Seq<u8>) -> Seq<u8> {
    seq![117u8, 104u8, 67u8, 48u8, 107u8] + b64_url_of(space)
}

/// An agent key as the report writes it: the agent-key prefix "uhCAk"
/// followed by the base64 of the agent's bytes.
pub open spec fn agent_key_view(agent: Seq<u8>) -> Seq<u8> {
    seq![117u8, 104u8, 67u8, 65u8, 107u8] + b64_url_of(agent)
}

/// Write a space's report key.
pub fn dna_key_of(space: &[u8]) -> (r: Vec<u8>)
    ensures
        r@ == dna_key_view(space@),
{
    let arr: &'static [u8; 5] = &[117u8, 104u8, 67u8, 48u8, 107u8];
    let mut r = vstd::slice::slice_to_vec(arr.as_slice());
    let mut b64 = b64_url_no_pad(space);
    r.append(&mut b64);
    proof {
        assert(r@ =~= dna_key_view(space@));
    }
    r
}

/// Write an agent's report key.
pub fn agent_key_of(agent: &[u8]) -> (r: Vec<u8>)
    ensures
        r@ == agent_key_view(agent@),
{
    let arr: &'static [u8; 5] = &[117u8, 104u8, 67u8, 65u8, 107u8];
    let mut r = vstd::slice::slice_to_vec(arr.as_slice());
    let mut b64 = b64_url_no_pad(agent);
    r.append(&mut b64);
    proof {
        assert(r@ =~= agent_key_view(agent@));
    }
    r
}

/// The transport identity a stats document names, or empty: the text
/// under "thisId" of a document-shaped report.
pub open spec fn spec_this_id(stats: StatsVal) -> Seq<u8> {
    match stats {
        StatsVal::Doc(es) => match doc_get(es@, this_id_key_view()) {
            Some(StatsVal::Text(t)) => t@,
            _ => Seq::empty(),
        },
        _ => Seq::empty(),
    }
}

/// Read the transport identity off a stats document.
pub fn this_id_of(stats: &StatsVal) -> (r: Vec<u8>)
    ensures
        r@ == spec_this_id(*stats),
{
    match stats {
        StatsVal::Doc(es) => {
            let key = this_id_key();
            match doc_find_idx(es, key.as_slice()) {
                Some(i) => match &es[i].val {
                    StatsVal::Text(t) => vstd::slice::slice_to_vec(t.as_slice()),
                    _ => {
                        let r = Vec::new();
                        proof {
                            assert(r@ =~= Seq::<u8>::empty());
                        }
                        r
                    },
                },
                None => {
                    let r = Vec::new();
                    proof {
                        assert(r@ =~= Seq::<u8>::empty());
                    }
                    r
                },
            }
        },
        _ => {
            let r = Vec::new();
            proof {
                assert(r@ =~= Seq::<u8>::empty());
            }
            r
        },
    }
}

/// The entries a nested value offers: an absent key offers an empty
/// document, a document offers its entries, anything else refuses.
pub open spec fn sub_entries(v: Option<StatsVal>) -> Option<Seq<DocEntry>> {
    match v {
        None => Some(Seq::<DocEntry>::empty()),
        Some(StatsVal::Doc(d)) => Some(d@),
        Some(_) => None,
    }
}

/// Whether folding a peer into this report can succeed: the report and
/// each nested level the peer's path crosses must be document-shaped
/// (or absent).
pub open spec fn peer_add_ok(stats: StatsVal, net_key: Seq<u8>, dna_key: Seq<u8>) -> bool {
    if !(stats is Doc) {
        false
    } else {
        let top = stats->Doc_0@;
        let l1 = sub_entries(doc_get(top, net_key));
        if l1 is None {
            false
        } else {
            let l2 = sub_entries(doc_get(l1->Some_0, dna_map_key_view()));
            if l2 is None {
                false
            } else {
                sub_entries(doc_get(l2->Some_0, dna_key)) is Some
            }
        }
    }
}

/// The exact shape of a report after one peer is folded in. At each
/// level the key's old entry leaves its place and the updated document
/// joins the back: the peer entry under its transport identity, inside
/// it the per-space table, inside that the space's agent table, and in
/// there the agent's record carrying exactly its expiry.
pub open spec fn peer_added(
    stats: StatsVal,
    out: StatsVal,
    net_key: Seq<u8>,
    dna_key: Seq<u8>,
    agent_key: Seq<u8>,
    expires: u64,
) -> bool
    recommends
        peer_add_ok(stats, net_key, dna_key),
{
    let top = stats->Doc_0@;
    let l1old = sub_entries(doc_get(top, net_key))->Some_0;
    let l2old = sub_entries(doc_get(l1old, dna_map_key_view()))->Some_0;
    let l3old = sub_entries(doc_get(l2old, dna_key))->Some_0;
    &&& out is Doc
    &&& ({
        let topn = out->Doc_0@;
        &&& topn.len() == doc_remove(top, net_key).len() + 1
        &&& topn.drop_last() == doc_remove(top, net_key)
        &&& topn.last().key@ == net_key
        &&& topn.last().val is Doc
        &&& ({
            let l1n = topn.last().val->Doc_0@;
            &&& l1n.len() == doc_remove(l1old, dna_map_key_view()).len() + 1
            &&& l1n.drop_last() == doc_remove(l1old, dna_map_key_view())
            &&& l1n.last().key@ == dna_map_key_view()
            &&& l1n.last().val is Doc
            &&& ({
                let l2n = l1n.last().val->Doc_0@;
                &&& l2n.len() == doc_remove(l2old, dna_key).len() + 1
                &&& l2n.drop_last() == doc_remove(l2old, dna_key)
                &&& l2n.last().key@ == dna_key
                &&& l2n.last().val is Doc
                &&& ({
                    let l3n = l2n.last().val->Doc_0@;
                    &&& l3n.len() == doc_remove(l3old, agent_key).len() + 1
                    &&& l3n.drop_last() == doc_remove(l3old, agent_key)
                    &&& l3n.last().key@ == agent_key
                    &&& l3n.last().val is Doc
                    &&& ({
                        let rec = l3n.last().val->Doc_0@;
                        &&& rec.len() == 1
                        &&& rec[0].key@ == expires_key_view()
                        &&& rec[0].val == StatsVal::UInt(expires)
                    })
                })
            })
        })
    })
}

/// Fold one peer's record into the report: under the peer's transport
/// identity, then the per-space table, then the space's key, the
/// agent's key receives a record carrying its expiry. A level that is
/// present but not document-shaped refuses the whole report.
pub fn add_peer_record(
    stats: StatsVal,
    net_key: Vec<u8>,
    dna_key: Vec<u8>,
    agent_key: Vec<u8>,
    expires: u64,
) -> (r: Result<StatsVal, RouterError>)
    ensures
        r is Ok <==> peer_add_ok(stats, net_key@, dna_key@),
        r is Err ==> r == Err::<StatsVal, RouterError>(RouterError::InvalidStats),
        r matches Ok(out) ==> peer_added(stats, out, net_key@, dna_key@, agent_key@, expires),
{
    let mut top = match stats {
        StatsVal::Doc(es) => es,
        _ => {
            return Err(RouterError::InvalidStats);
        },
    };
    let ghost top0 = top@;
    let mut l1 = match doc_take(&mut top, net_key.as_slice()) {
        None => Vec::new(),
        Some(StatsVal::Doc(es)) => es,
        Some(_) => {
            return Err(RouterError::InvalidStats);
        },
    };
    let ghost l1start = l1@;
    proof {
        assert(l1start =~= sub_entries(doc_get(top0, net_key@))->Some_0);
    }
    let l2key = dna_map_key();
    let mut l2 = match doc_take(&mut l1, l2key.as_slice()) {
        None => Vec::new(),
        Some(StatsVal::Doc(es)) => es,
        Some(_) => {
            return Err(RouterError::InvalidStats);
        },
    };
    let ghost l2start = l2@;
    proof {
        assert(l2start =~= sub_entries(doc_get(l1start, dna_map_key_view()))->Some_0);
    }
    let mut l3 = match doc_take(&mut l2, dna_key.as_slice()) {
        None => Vec::new(),
        Some(StatsVal::Doc(es)) => es,
        Some(_) => {
            return Err(RouterError::InvalidStats);
        },
    };
    let ghost l3start = l3@;
    proof {
        assert(l3start =~= sub_entries(doc_get(l2start, dna_key@))->Some_0);
    }
    let _ = doc_take(&mut l3, agent_key.as_slice());
    let mut rec: Vec<DocEntry> = Vec::new();
    rec.push(DocEntry { key: expires_key(), val: StatsVal::UInt(expires) });
    let ghost agent_key_v = agent_key@;
    l3.push(DocEntry { key: agent_key, val: StatsVal::Doc(rec) });
    proof {
        assert(l3@.drop_last() =~= doc_remove(l3start, agent_key_v));
    }
    let ghost dna_key_v = dna_key@;
    l2.push(DocEntry { key: dna_key, val: StatsVal::Doc(l3) });
    proof {
        assert(l2@.drop_last() =~= doc_remove(l2start, dna_key_v));
    }
    l1.push(DocEntry { key: l2key, val: StatsVal::Doc(l2) });
    proof {
        assert(l1@.drop_last() =~= doc_remove(l1start, dna_map_key_view()));
    }
    let ghost net_key_v = net_key@;
    top.push(DocEntry { key: net_key, val: StatsVal::Doc(l1) });
    proof {
        assert(top@.drop_last() =~= doc_remove(top0, net_key_v));
    }
    Ok(StatsVal::Doc(top))
}

/// One row of the peer store, as the host hands it over: the peer's
/// transport identity (absent when it has no URL), the space and agent
/// it belongs to, and when its record expires.
#[derive(Debug, PartialEq, Eq)]
pub struct PeerStoreEntry {
    /// The peer's transport identity, when it has a URL.
    pub url_digest: Option<Vec<u8>>,
    /// The space the record belongs to, as wire bytes.
    pub space: Vec<u8>,
    /// The agent the record belongs to, as wire bytes.
    pub agent: Vec<u8>,
    /// When the record expires, in milliseconds.
    pub expires_at_ms: u64,
}

/// Whether a peer row is passed over: it has no URL, or it is this
/// node itself.
pub open spec fn peer_skipped(p: PeerStoreEntry, this_id: Seq<u8>) -> bool {
    p.url_digest is None || p.url_digest->Some_0@ == this_id
}

/// One peer folded into a report: passed over when it has no URL or
/// is this node itself; otherwise the report gains its record exactly
/// as `peer_added` describes, under the peer's transport identity and
/// its space and agent report keys.
pub open spec fn peer_step(
    before: StatsVal,
    p: PeerStoreEntry,
    this_id: Seq<u8>,
    after: StatsVal,
) -> bool {
    if peer_skipped(p, this_id) {
        after == before
    } else {
        &&& peer_add_ok(before, p.url_digest->Some_0@, dna_key_view(p.space@))
        &&& peer_added(
            before,
            after,
            p.url_digest->Some_0@,
            dna_key_view(p.space@),
            agent_key_view(p.agent@),
            p.expires_at_ms,
        )
    }
}

/// A fold of these peers, left to right, through this chain of
/// intermediate reports: the chain starts at the starting report, ends
/// at the result, and every link is one peer's step.
pub open spec fn fold_chain(
    stats: StatsVal,
    peers: Seq<PeerStoreEntry>,
    this_id: Seq<u8>,
    states: Seq<StatsVal>,
    out: StatsVal,
) -> bool {
    &&& states.len() == peers.len() + 1
    &&& states[0] == stats
    &&& states.last() == out
    &&& forall|i: int|
        0 <= i < peers.len() ==> peer_step(#[trigger] states[i], peers[i], this_id, states[i + 1])
}

/// The reports reachable by folding these peers, left to right, into a
/// starting report.
pub open spec fn folds_to(
    stats: StatsVal,
    peers: Seq<PeerStoreEntry>,
    this_id: Seq<u8>,
    out: StatsVal,
) -> bool {
    exists|states: Seq<StatsVal>| #[trigger] fold_chain(stats, peers, this_id, states, out)
}

/// Whether the fold runs aground: some prefix of the peers reaches a
/// report in which the next peer, not passed over, crosses a level
/// that is present but not document-shaped.
pub open spec fn fold_fails(stats: StatsVal, peers: Seq<PeerStoreEntry>, this_id: Seq<u8>) -> bool {
    exists|i: int, states: Seq<StatsVal>|
        0 <= i < peers.len() && #[trigger] fold_chain(
            stats,
            peers.take(i),
            this_id,
            states,
            states.last(),
        ) && !peer_skipped(peers[i], this_id) && !peer_add_ok(
            states.last(),
            peers[i].url_digest->Some_0@,
            dna_key_view(peers[i].space@),
        )
}

/// Fold the peer store into the transport's own stats document: every
/// peer with a transport identity other than this node's gains an
/// entry keyed by that identity, holding per-space tables of agent
/// records and their expiries. A report level that is present but not
/// document-shaped refuses the whole report; peers without a URL, and
/// this node itself, are passed over.
#[verifier::loop_isolation(false)]
pub fn build_network_stats(transport_stats: StatsVal, peers: Vec<PeerStoreEntry>) -> (r: Result<
    StatsVal,
    RouterError,
>)
    ensures
        r matches Ok(out) ==> folds_to(
            transport_stats,
            peers@,
            spec_this_id(transport_stats),
            out,
        ),
        r is Err ==> r == Err::<StatsVal, RouterError>(RouterError::InvalidStats) && fold_fails(
            transport_stats,
            peers@,
            spec_this_id(transport_stats),
        ),
        peers@.len() == 0 ==> r == Ok::<StatsVal, RouterError>(transport_stats),
        (forall|i: int|
            0 <= i < peers@.len() ==> peer_skipped(
                #[trigger] peers@[i],
                spec_this_id(transport_stats),
            )) ==> r == Ok::<StatsVal, RouterError>(transport_stats),
{
    let this_id = this_id_of(&transport_stats);
    let ghost tid = this_id@;
    let ghost stats0 = transport_stats;
    let ghost all = peers@;
    let mut acc = transport_stats;
    let ghost mut states = seq![stats0];
    let mut remaining = peers;
    let n = remaining.len();
    let mut i: usize = 0;
    while i < n
        invariant
            n == all.len(),
            remaining@ == all.skip(i as int),
            0 <= i <= n,
            tid == spec_this_id(stats0),
            this_id@ == tid,
            fold_chain(stats0, all.take(i as int), tid, states, acc),
            (forall|j: int| 0 <= j < i ==> peer_skipped(#[trigger] all[j], tid)) ==> acc
                == stats0,
        decreases n - i,
    {
        let p = remaining.remove(0);
        proof {
            assert(p == all[i as int]);
            assert(remaining@ =~= all.skip(i + 1));
        }
        let ghost before = acc;
        let ghost states0 = states;
        match p.url_digest {
            None => {},
            Some(d) => {
                if crate::byte_ops::vec_eq(&d, &this_id) {
                } else {
                    proof {
                        assert(!peer_skipped(all[i as int], tid));
                    }
                    let dna_key = dna_key_of(p.space.as_slice());
                    let agent_key = agent_key_of(p.agent.as_slice());
                    acc = match add_peer_record(acc, d, dna_key, agent_key, p.expires_at_ms) {
                        Ok(v) => v,
                        Err(e) => {
                            proof {
                                assert(fold_fails(stats0, all, tid)) by {
                                    assert(all.take(i as int) =~= all.take(i as int));
                                    assert(fold_chain(
                                        stats0,
                                        all.take(i as int),
                                        tid,
                                        states0,
                                        states0.last(),
                                    ));
                                }
                            }
                            return Err(e);
                        },
                    };
                }
            },
        }
        proof {
            states = states.push(acc);
            assert(peer_step(before, all[i as int], tid, acc));
            assert(fold_chain(stats0, all.take(i + 1), tid, states, acc)) by {
                assert(states.last() == acc);
                assert(states[0] == stats0);
                assert(states.len() == all.take(i + 1).len() + 1);
                assert forall|j: int|
                    0 <= j < all.take(i + 1).len() implies peer_step(
                    #[trigger] states[j],
                    all.take(i + 1)[j],
                    tid,
                    states[j + 1],
                ) by {
                    if j < i {
                        assert(states[j] == states0[j]);
                        assert(states[j + 1] == states0[j + 1]);
                        assert(peer_step(states0[j], all.take(i as int)[j], tid, states0[j + 1]));
                        assert(all.take(i + 1)[j] == all[j]);
                        assert(all.take(i as int)[j] == all[j]);
                    } else {
                        assert(states[j] == states0.last());
                        assert(states0.last() == before);
                        assert(states[j + 1] == acc);
                        assert(all.take(i + 1)[j] == all[i as int]);
                    }
                }
            }
        }
        i += 1;
    }
    proof {
        assert(all.take(n as int) =~= all);
        assert(folds_to(stats0, all, tid, acc)) by {
            assert(fold_chain(stats0, all, tid, states, acc));
        }
    }
    Ok(acc)
}

/// The documents of the spaces that answered, in space order.
pub open spec fn ok_dumps(s: Seq<Result<StatsVal, RouterError>>) -> Seq<StatsVal>
    decreases s.len(),
{
    if s.len() == 0 {
        Seq::empty()
    } else {
        ok_dumps(s.drop_last()) + (match s.last() {
            Ok(v) => seq![v],
            Err(_) => Seq::empty(),
        })
    }
}

/// Aggregate the per-space results of a metrics dump: the spaces that
/// answered are kept, in space order; a space that could not be
/// reached is logged and skipped rather than failing the whole report.
#[verifier::loop_isolation(false)]
pub fn aggregate_metric_dumps(results: Vec<Result<StatsVal, RouterError>>) -> (r: Vec<StatsVal>)
    ensures
        r@ == ok_dumps(results@),
{
    let ghost all = results@;
    let mut out: Vec<StatsVal> = Vec::new();
    let mut remaining = results;
    let n = remaining.len();
    let mut i: usize = 0;
    while i < n
        invariant
            n == all.len(),
            remaining@ == all.skip(i as int),
            0 <= i <= n,
            out@ == ok_dumps(all.take(i as int)),
        decreases n - i,
    {
        let item = remaining.remove(0);
        proof {
            assert(item == all[i as int]);
            assert(remaining@ =~= all.skip(i + 1));
            assert(all.take(i + 1).drop_last() =~= all.take(i as int));
            assert(all.take(i + 1).last() == all[i as int]);
        }
        match item {
            Ok(v) => {
                out.push(v);
                proof {
                    assert(out@ =~= ok_dumps(all.take(i + 1)));
                }
            },
            Err(_) => {},
        }
        i += 1;
    }
    proof {
        assert(all.take(n as int) =~= all);
    }
    out
}

} // verus!
