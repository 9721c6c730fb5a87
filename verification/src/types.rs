//! Plain-value models of the identifiers and payloads that cross the
//! routing layer. The router never looks inside most of them: it routes
//! on the space identifier and hands the rest through unchanged.

use vstd::prelude::*;

verus! {

/// A space identifier: an isolated logical network. Equality is exact
/// byte match.
#[derive(Debug, PartialEq, Eq, Hash)]
pub struct KitsuneSpace(pub Vec<u8>);

impl KitsuneSpace {
    /// The identifier bytes.
    pub open spec fn spec_bytes(&self) -> Seq<u8> {
        self.0@
    }
}

/// An agent identifier, scoped within a space.
#[derive(Debug, PartialEq, Eq, Hash)]
pub struct KitsuneAgent(pub Vec<u8>);

/// A basis location identifier: the content-address-derived coordinate
/// that determines which neighborhood holds a piece of data.
#[derive(Debug, PartialEq, Eq, Hash)]
pub struct KitsuneBasis(pub Vec<u8>);

/// A content address (op hash) in its wire form: the 36 bytes that
/// exclude the type prefix.
#[derive(Debug, PartialEq, Eq, Hash)]
pub struct KitsuneOpHash(pub Vec<u8>);

impl KitsuneOpHash {
    /// The hash bytes.
    pub open spec fn spec_bytes(&self) -> Seq<u8> {
        self.0@
    }

    /// Well-formed: core plus location bytes.
    pub open spec fn wf(&self) -> bool {
        self.0@.len() == 36
    }
}

/// A signed agent info record; carried through, never inspected here.
#[derive(Debug, Clone, PartialEq, Eq)]
pub struct AgentInfoSigned(pub Vec<u8>);

/// The application-defined bitmask attached to a fetch request. When two
/// requests for the same key merge, contexts combine by bitwise OR.
#[derive(Debug, Clone, Copy, PartialEq, Eq, Structural)]
pub struct FetchContext(pub u32);

/// An op hash together with its approximate payload size, as announced
/// in a publish.
#[derive(Debug, Clone, PartialEq, Eq)]
pub struct OpHashSized {
    /// The op hash.
    pub hash: KitsuneOpHash,
    /// The announced size in bytes, when known.
    pub size: Option<u32>,
}

/// How op data travelled to this node.
#[derive(Debug, Clone, Copy, PartialEq, Eq, Structural)]
pub enum TransferMethod {
    /// Announced by a publish.
    Publish,
    /// Pulled by gossip.
    Gossip,
}

/// Where a fetch request should be sent.
#[derive(Debug, Clone, PartialEq, Eq)]
pub enum FetchSource {
    /// Fetch from this agent.
    Agent(KitsuneAgent),
}

/// The data of a broadcast being delegated or delivered.
#[derive(Debug, Clone, PartialEq, Eq)]
pub enum BroadcastData {
    /// Application data.
    User(Vec<u8>),
    /// An agent info record being spread.
    AgentInfo(AgentInfoSigned),
    /// A publish announcement: the source, the hashes announced, and the
    /// fetch context to store them under.
    Publish {
        /// The agent the data can be fetched from.
        source: KitsuneAgent,
        /// The hashes announced.
        op_hash_list: Vec<OpHashSized>,
        /// The fetch context for the announced hashes.
        context: FetchContext,
    },
}

/// A gossip module identifier; carried through.
#[derive(Debug, Clone, Copy, PartialEq, Eq, Structural)]
pub enum GossipModuleType {
    /// The sharded, recent-data gossip loop.
    ShardedRecent,
    /// The sharded, historical-data gossip loop.
    ShardedHistorical,
}

/// A metric exchange message; carried through.
#[derive(Debug, Clone, PartialEq, Eq)]
pub struct MetricExchangeMsg(pub Vec<u8>);

/// A storage arc claim: which slice of the keyspace an agent offers to
/// hold, as a start location and a power-of-two sizing.
#[derive(Debug, Clone, Copy, PartialEq, Eq, Structural)]
pub struct Arq {
    /// The start location of the claimed slice.
    pub start: u32,
    /// The power-of-two size of one chunk.
    pub power: u8,
    /// How many chunks are claimed.
    pub count: u32,
}

/// An agent info put outcome, as the host reports it: the peer URLs
/// that the put displaced and that should be disconnected.
#[derive(Debug, Clone, PartialEq, Eq)]
pub struct AgentInfoPut {
    /// URLs no longer valid for the peer, to be closed.
    pub removed_urls: Vec<Vec<u8>>,
}

impl Clone for KitsuneSpace {
    /// A clone carries the same bytes.
    fn clone(&self) -> (r: Self)
        ensures
            r.0@ == self.0@,
    {
        KitsuneSpace(vstd::slice::slice_to_vec(self.0.as_slice()))
    }
}

impl Clone for KitsuneAgent {
    /// A clone carries the same bytes.
    fn clone(&self) -> (r: Self)
        ensures
            r.0@ == self.0@,
    {
        KitsuneAgent(vstd::slice::slice_to_vec(self.0.as_slice()))
    }
}

impl Clone for KitsuneBasis {
    /// A clone carries the same bytes.
    fn clone(&self) -> (r: Self)
        ensures
            r.0@ == self.0@,
    {
        KitsuneBasis(vstd::slice::slice_to_vec(self.0.as_slice()))
    }
}

impl Clone for KitsuneOpHash {
    /// A clone carries the same bytes.
    fn clone(&self) -> (r: Self)
        ensures
            r.0@ == self.0@,
    {
        KitsuneOpHash(vstd::slice::slice_to_vec(self.0.as_slice()))
    }
}

} // verus!
