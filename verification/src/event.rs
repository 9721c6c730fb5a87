//! The inbound event surface of the network layer: the events a host
//! receives from peers, with the options that control how they are
//! served, and the helpers that read a target space or agent off an
//! event.

use vstd::prelude::*;

use crate::hash::{AgentPubKey, AnyDhtHash, DhtOpHash, DnaHash};
use crate::hash_type;
use crate::types::{AgentInfoSigned, KitsuneAgent, KitsuneSpace};

verus! {

/// The data required for a get request.
#[derive(Debug, Clone, PartialEq, Eq, Structural, Default)]
pub enum GetRequest {
    /// Get all the integrated data.
    #[default]
    All,
    /// Get only the integrated content.
    Content,
    /// Get only the metadata.
    /// If you already have the content this is all you need.
    Metadata,
    /// Get the content even if it's still pending.
    Pending,
}

/// Get options help control how the get is processed at various levels.
#[derive(Debug, Clone, PartialEq, Eq, Structural)]
pub struct GetOptions {
    /// Whether the remote-end should follow redirects or just return the
    /// requested entry.
    pub follow_redirects: bool,
    /// Return all live actions even if there is deletes.
    /// Useful for metadata calls.
    pub all_live_actions_with_metadata: bool,
    /// The type of data this get request requires.
    pub request_type: GetRequest,
}

/// GetMeta options help control how the get is processed at various levels.
#[derive(Debug, Clone, PartialEq, Eq, Structural)]
pub struct GetMetaOptions {}

/// GetLinks options help control how the get is processed at various levels.
#[derive(Debug, Clone, PartialEq, Eq, Structural)]
pub struct GetLinksOptions {}

/// Get agent activity options help control how the get is processed at
/// various levels.
#[derive(Debug, Clone, PartialEq, Eq, Structural)]
pub struct GetActivityOptions {
    /// Include the activity actions in the response.
    pub include_valid_activity: bool,
    /// Include any rejected actions in the response.
    pub include_rejected_activity: bool,
    /// Include warrants in the response.
    pub include_warrants: bool,
    /// Include the full records, instead of just the hashes.
    pub include_full_records: bool,
}

impl Default for GetActivityOptions {
    /// Valid activity and warrants are included by default; rejected
    /// activity and full records are not.
    fn default() -> (r: Self)
        ensures
            r == (GetActivityOptions {
                include_valid_activity: true,
                include_rejected_activity: false,
                include_warrants: true,
                include_full_records: false,
            }),
    {
        GetActivityOptions {
            include_valid_activity: true,
            include_warrants: true,
            include_rejected_activity: false,
            include_full_records: false,
        }
    }
}

/// A signed action; carried through, never inspected here.
#[derive(Debug, Clone, PartialEq, Eq)]
pub struct SignedAction(pub Vec<u8>);

/// A chain op; carried through, never inspected here.
#[derive(Debug, Clone, PartialEq, Eq)]
pub struct ChainOp(pub Vec<u8>);

/// Message between agents actively driving/negotiating a countersigning
/// session.
#[derive(Debug, Clone, PartialEq, Eq)]
pub enum CountersigningSessionNegotiationMessage {
    /// An authority has a complete set of signed actions and is
    /// responding with them back to the counterparties.
    AuthorityResponse(Vec<SignedAction>),
    /// Counterparties are sending their signed action to an enzyme
    /// instead of authorities as part of an enzymatic session.
    EnzymePush(Box<ChainOp>),
}

/// The space and time bounds of a DHT region.
#[derive(Debug, Clone, PartialEq, Eq, Structural)]
pub struct RegionBounds {
    /// Lowest location covered.
    pub x_min: u32,
    /// Highest location covered.
    pub x_max: u32,
    /// Start of the time window, in microseconds.
    pub t_min: i64,
    /// End of the time window, in microseconds.
    pub t_max: i64,
}

/// The network-side form of an op data query: hashes held as wire-form
/// content addresses.
#[derive(Debug, Clone, PartialEq, Eq)]
pub enum FetchOpDataEvtQuery {
    /// Fetch all ops with the hashes specified.
    Hashes {
        /// List of ops to fetch.
        op_hash_list: Vec<crate::types::KitsuneOpHash>,
        /// Should we include limbo ops.
        include_limbo: bool,
    },
    /// Fetch all ops within the time and space bounds specified.
    Regions(Vec<RegionBounds>),
}

impl FetchOpDataEvtQuery {
    /// All hashes carried are well-formed wire hashes.
    pub open spec fn wf(&self) -> bool {
        match self {
            FetchOpDataEvtQuery::Hashes { op_hash_list, .. } => forall|i: int|
                0 <= i < op_hash_list@.len() ==> (#[trigger] op_hash_list@[i]).wf(),
            FetchOpDataEvtQuery::Regions(_) => true,
        }
    }
}

/// Multiple ways to fetch op data.
#[derive(Debug, Clone, PartialEq, Eq)]
pub enum FetchOpDataQuery {
    /// Fetch all ops with the hashes specified.
    Hashes {
        /// List of ops to fetch.
        op_hash_list: Vec<DhtOpHash>,
        /// Should we include limbo ops.
        include_limbo: bool,
    },
    /// Fetch all ops within the time and space bounds specified.
    Regions(Vec<RegionBounds>),
}

impl FetchOpDataQuery {
    /// Convert from the network-side form of this query: each wire hash
    /// gains the op-hash type prefix; region queries pass through.
    pub fn from_kitsune(kit: FetchOpDataEvtQuery) -> (r: Self)
        requires
            kit.wf(),
        ensures
            kit matches FetchOpDataEvtQuery::Hashes { op_hash_list: ks, include_limbo: kl }
                ==> r matches FetchOpDataQuery::Hashes { op_hash_list: hs, include_limbo: l }
                && l == kl && hs@.len() == ks@.len() && forall|i: int|
                0 <= i < ks@.len() ==> (#[trigger] hs@[i]).wf() && hs@[i].spec_bytes()
                == hash_type::dht_op_prefix() + ks@[i].spec_bytes(),
            kit matches FetchOpDataEvtQuery::Regions(kr) ==> r matches FetchOpDataQuery::Regions(
                rr,
            ) && rr@ == kr@,
    {
        match kit {
            FetchOpDataEvtQuery::Hashes { op_hash_list, include_limbo } => {
                let ghost ks = op_hash_list@;
                let mut out: Vec<DhtOpHash> = Vec::new();
                let mut i: usize = 0;
                while i < op_hash_list.len()
                    invariant
                        0 <= i <= op_hash_list@.len(),
                        op_hash_list@ == ks,
                        forall|j: int| 0 <= j < ks.len() ==> (#[trigger] ks[j]).wf(),
                        out@.len() == i,
                        forall|j: int|
                            0 <= j < i ==> (#[trigger] out@[j]).wf() && out@[j].spec_bytes()
                                == hash_type::dht_op_prefix() + ks[j].spec_bytes(),
                    decreases op_hash_list@.len() - i,
                {
                    let h = DhtOpHash::from_raw_36(op_hash_list[i].0.clone());
                    out.push(h);
                    i += 1;
                }
                FetchOpDataQuery::Hashes { op_hash_list: out, include_limbo }
            },
            FetchOpDataEvtQuery::Regions(coords) => FetchOpDataQuery::Regions(coords),
        }
    }
}

/// An inbound event from the network layer, as handed to the host: every
/// variant names the DNA (space) it belongs to, and most name a single
/// target agent.
#[derive(Debug, Clone, PartialEq, Eq)]
pub enum HolochainP2pEvent {
    /// We need to store signed agent info.
    PutAgentInfoSigned {
        /// The space the info belongs to.
        dna_hash: DnaHash,
        /// The signed agent info records.
        peer_data: Vec<AgentInfoSigned>,
    },
    /// We need to get previously stored agent info.
    QueryAgentInfoSigned {
        /// The space queried.
        dna_hash: DnaHash,
        /// An include filter over agents, when present.
        agents: Option<Vec<KitsuneAgent>>,
        /// The wire-form space id.
        kitsune_space: KitsuneSpace,
    },
    /// We need to get agents that fit into an arc set for gossip.
    QueryGossipAgents {
        /// The space queried.
        dna_hash: DnaHash,
        /// An include filter over agents, when present.
        agents: Option<Vec<AgentPubKey>>,
        /// The wire-form space id.
        kitsune_space: KitsuneSpace,
        /// Window start, in milliseconds.
        since_ms: u64,
        /// Window end, in milliseconds.
        until_ms: u64,
        /// The arc set to filter by, as wire bytes.
        arc_set: Vec<u8>,
    },
    /// Query agent info in order of closeness to a basis location.
    QueryAgentInfoSignedNearBasis {
        /// The space queried.
        dna_hash: DnaHash,
        /// The wire-form space id.
        kitsune_space: KitsuneSpace,
        /// The basis location to sort by closeness to.
        basis_loc: u32,
        /// The most records to return.
        limit: u32,
    },
    /// Query the peer density of a space for a given arc.
    QueryPeerDensity {
        /// The space queried.
        dna_hash: DnaHash,
        /// The wire-form space id.
        kitsune_space: KitsuneSpace,
        /// The arc queried, as wire bytes.
        dht_arc: Vec<u8>,
    },
    /// A remote node is attempting to make a remote call on us.
    CallRemote {
        /// The space the call belongs to.
        dna_hash: DnaHash,
        /// The agent the call is addressed to.
        to_agent: AgentPubKey,
        /// The serialized call parameters.
        zome_call_params_serialized: Vec<u8>,
        /// The caller's signature over the parameters.
        signature: Vec<u8>,
    },
    /// A remote node is publishing data in a range we claim to be
    /// holding.
    Publish {
        /// The space published to.
        dna_hash: DnaHash,
        /// Whether a validation receipt is requested.
        request_validation_receipt: bool,
        /// Whether this publish belongs to a countersigning session.
        countersigning_session: bool,
        /// The published ops, carried through.
        ops: Vec<Vec<u8>>,
    },
    /// A remote node is requesting entry data from us.
    Get {
        /// The space queried.
        dna_hash: DnaHash,
        /// The agent queried.
        to_agent: AgentPubKey,
        /// The address requested.
        dht_hash: AnyDhtHash,
        /// How the get is processed.
        options: GetOptions,
    },
    /// A remote node is requesting metadata from us.
    GetMeta {
        /// The space queried.
        dna_hash: DnaHash,
        /// The agent queried.
        to_agent: AgentPubKey,
        /// The address requested.
        dht_hash: AnyDhtHash,
        /// How the get is processed.
        options: GetMetaOptions,
    },
    /// A remote node is requesting link data from us.
    GetLinks {
        /// The space queried.
        dna_hash: DnaHash,
        /// The agent queried.
        to_agent: AgentPubKey,
        /// The link key requested, as wire bytes.
        link_key: Vec<u8>,
        /// How the get is processed.
        options: GetLinksOptions,
    },
    /// A remote node is requesting a link count from us.
    CountLinks {
        /// The space queried.
        dna_hash: DnaHash,
        /// The agent queried.
        to_agent: AgentPubKey,
        /// The link query, as wire bytes.
        query: Vec<u8>,
    },
    /// A remote node is requesting agent activity from us.
    GetAgentActivity {
        /// The space queried.
        dna_hash: DnaHash,
        /// The agent queried.
        to_agent: AgentPubKey,
        /// The agent whose activity is requested.
        agent: AgentPubKey,
        /// The chain query filter, as wire bytes.
        query: Vec<u8>,
        /// How the get is processed.
        options: GetActivityOptions,
    },
    /// A remote node is requiring agent activity from us.
    MustGetAgentActivity {
        /// The space queried.
        dna_hash: DnaHash,
        /// The agent queried.
        to_agent: AgentPubKey,
        /// The agent whose activity is requested.
        author: AgentPubKey,
        /// The chain filter, as wire bytes.
        filter: Vec<u8>,
    },
    /// A remote node has sent us a validation receipt.
    ValidationReceiptsReceived {
        /// The space the receipts belong to.
        dna_hash: DnaHash,
        /// The agent the receipts are addressed to.
        to_agent: AgentPubKey,
        /// The receipt bundle, carried through.
        receipts: Vec<u8>,
    },
    /// The network layer wishes to query our op store: all ops from a
    /// set of agents within a time window and max number of ops.
    QueryOpHashes {
        /// The space queried.
        dna_hash: DnaHash,
        /// The arc set to filter by, as wire bytes.
        arc_set: Vec<u8>,
        /// Window start, in microseconds.
        window_start: i64,
        /// Window end, in microseconds.
        window_end: i64,
        /// The most ops to return.
        max_ops: usize,
        /// Should we include limbo ops.
        include_limbo: bool,
    },
    /// The network layer needs access to the content for a given set of
    /// op hashes.
    FetchOpData {
        /// The space queried.
        dna_hash: DnaHash,
        /// Which ops are requested.
        query: FetchOpDataQuery,
    },
    /// Network operations require cryptographic signatures and
    /// validation.
    SignNetworkData {
        /// The space context.
        dna_hash: DnaHash,
        /// The agent key to sign with.
        to_agent: AgentPubKey,
        /// The data to sign.
        data: Vec<u8>,
    },
    /// Messages between agents that drive a countersigning session.
    CountersigningSessionNegotiation {
        /// The space the session belongs to.
        dna_hash: DnaHash,
        /// The agent the message is addressed to.
        to_agent: AgentPubKey,
        /// The message.
        message: CountersigningSessionNegotiationMessage,
    },
}

impl HolochainP2pEvent {
    /// The space this event belongs to.
    pub open spec fn spec_dna_hash(&self) -> DnaHash {
        match self {
            HolochainP2pEvent::PutAgentInfoSigned { dna_hash, .. } => *dna_hash,
            HolochainP2pEvent::QueryAgentInfoSigned { dna_hash, .. } => *dna_hash,
            HolochainP2pEvent::QueryGossipAgents { dna_hash, .. } => *dna_hash,
            HolochainP2pEvent::QueryAgentInfoSignedNearBasis { dna_hash, .. } => *dna_hash,
            HolochainP2pEvent::QueryPeerDensity { dna_hash, .. } => *dna_hash,
            HolochainP2pEvent::CallRemote { dna_hash, .. } => *dna_hash,
            HolochainP2pEvent::Publish { dna_hash, .. } => *dna_hash,
            HolochainP2pEvent::Get { dna_hash, .. } => *dna_hash,
            HolochainP2pEvent::GetMeta { dna_hash, .. } => *dna_hash,
            HolochainP2pEvent::GetLinks { dna_hash, .. } => *dna_hash,
            HolochainP2pEvent::CountLinks { dna_hash, .. } => *dna_hash,
            HolochainP2pEvent::GetAgentActivity { dna_hash, .. } => *dna_hash,
            HolochainP2pEvent::MustGetAgentActivity { dna_hash, .. } => *dna_hash,
            HolochainP2pEvent::ValidationReceiptsReceived { dna_hash, .. } => *dna_hash,
            HolochainP2pEvent::QueryOpHashes { dna_hash, .. } => *dna_hash,
            HolochainP2pEvent::FetchOpData { dna_hash, .. } => *dna_hash,
            HolochainP2pEvent::SignNetworkData { dna_hash, .. } => *dna_hash,
            HolochainP2pEvent::CountersigningSessionNegotiation { dna_hash, .. } => *dna_hash,
        }
    }

    /// Whether this event is addressed to one agent: true of every
    /// request/response event, false of the store- and query-level
    /// events that have no single agent target.
    pub open spec fn has_single_target(&self) -> bool {
        match self {
            HolochainP2pEvent::CallRemote { .. } => true,
            HolochainP2pEvent::Get { .. } => true,
            HolochainP2pEvent::GetMeta { .. } => true,
            HolochainP2pEvent::GetLinks { .. } => true,
            HolochainP2pEvent::CountLinks { .. } => true,
            HolochainP2pEvent::GetAgentActivity { .. } => true,
            HolochainP2pEvent::MustGetAgentActivity { .. } => true,
            HolochainP2pEvent::ValidationReceiptsReceived { .. } => true,
            HolochainP2pEvent::SignNetworkData { .. } => true,
            HolochainP2pEvent::CountersigningSessionNegotiation { .. } => true,
            _ => false,
        }
    }

    /// The agent this event is addressed to, for events with a single
    /// target.
    pub open spec fn spec_target_agent(&self) -> AgentPubKey
        recommends
            self.has_single_target(),
    {
        match self {
            HolochainP2pEvent::CallRemote { to_agent, .. } => *to_agent,
            HolochainP2pEvent::Get { to_agent, .. } => *to_agent,
            HolochainP2pEvent::GetMeta { to_agent, .. } => *to_agent,
            HolochainP2pEvent::GetLinks { to_agent, .. } => *to_agent,
            HolochainP2pEvent::CountLinks { to_agent, .. } => *to_agent,
            HolochainP2pEvent::GetAgentActivity { to_agent, .. } => *to_agent,
            HolochainP2pEvent::MustGetAgentActivity { to_agent, .. } => *to_agent,
            HolochainP2pEvent::ValidationReceiptsReceived { to_agent, .. } => *to_agent,
            HolochainP2pEvent::SignNetworkData { to_agent, .. } => *to_agent,
            HolochainP2pEvent::CountersigningSessionNegotiation { to_agent, .. } => *to_agent,
            _ => arbitrary(),
        }
    }

    /// The dna_hash associated with this network event.
    pub fn dna_hash(&self) -> (r: &DnaHash)
        ensures
            *r == self.spec_dna_hash(),
    {
        match self {
            HolochainP2pEvent::PutAgentInfoSigned { dna_hash, .. } => dna_hash,
            HolochainP2pEvent::QueryAgentInfoSigned { dna_hash, .. } => dna_hash,
            HolochainP2pEvent::QueryGossipAgents { dna_hash, .. } => dna_hash,
            HolochainP2pEvent::QueryAgentInfoSignedNearBasis { dna_hash, .. } => dna_hash,
            HolochainP2pEvent::QueryPeerDensity { dna_hash, .. } => dna_hash,
            HolochainP2pEvent::CallRemote { dna_hash, .. } => dna_hash,
            HolochainP2pEvent::Publish { dna_hash, .. } => dna_hash,
            HolochainP2pEvent::Get { dna_hash, .. } => dna_hash,
            HolochainP2pEvent::GetMeta { dna_hash, .. } => dna_hash,
            HolochainP2pEvent::GetLinks { dna_hash, .. } => dna_hash,
            HolochainP2pEvent::CountLinks { dna_hash, .. } => dna_hash,
            HolochainP2pEvent::GetAgentActivity { dna_hash, .. } => dna_hash,
            HolochainP2pEvent::MustGetAgentActivity { dna_hash, .. } => dna_hash,
            HolochainP2pEvent::ValidationReceiptsReceived { dna_hash, .. } => dna_hash,
            HolochainP2pEvent::QueryOpHashes { dna_hash, .. } => dna_hash,
            HolochainP2pEvent::FetchOpData { dna_hash, .. } => dna_hash,
            HolochainP2pEvent::SignNetworkData { dna_hash, .. } => dna_hash,
            HolochainP2pEvent::CountersigningSessionNegotiation { dna_hash, .. } => dna_hash,
        }
    }

    /// The agent_pub_key associated with this network event. Only
    /// events with a single agent target may ask.
    pub fn target_agents(&self) -> (r: &AgentPubKey)
        requires
            self.has_single_target(),
        ensures
            *r == self.spec_target_agent(),
    {
        match self {
            HolochainP2pEvent::CallRemote { to_agent, .. } => to_agent,
            HolochainP2pEvent::Get { to_agent, .. } => to_agent,
            HolochainP2pEvent::GetMeta { to_agent, .. } => to_agent,
            HolochainP2pEvent::GetLinks { to_agent, .. } => to_agent,
            HolochainP2pEvent::CountLinks { to_agent, .. } => to_agent,
            HolochainP2pEvent::GetAgentActivity { to_agent, .. } => to_agent,
            HolochainP2pEvent::MustGetAgentActivity { to_agent, .. } => to_agent,
            HolochainP2pEvent::ValidationReceiptsReceived { to_agent, .. } => to_agent,
            HolochainP2pEvent::SignNetworkData { to_agent, .. } => to_agent,
            HolochainP2pEvent::CountersigningSessionNegotiation { to_agent, .. } => to_agent,
            _ => unreached(),
        }
    }
}

} // verus!
