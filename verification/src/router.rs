//! The space routing actor's state and decisions: every inbound event
//! is resolved to its space and forwarded, created, failed, or dropped
//! by the central policy; publishes feed the fetch pool and the
//! delegate resolver; the fetch task's steps and the shutdown drain are
//! decided here. The asynchronous shell around this state only carries
//! messages and performs the actions decided.

use vstd::prelude::*;

use crate::delegate::{
    delegate_of, insert_delegate, remove_delegate, DelegateStore, PendingDelegate,
};
use crate::dispatch::{route_entries, route_event, route_result, RouteOutcome, SpaceEventKind};
use crate::error::RouterError;
use crate::fetch_pool::{
    entry_of, first_ready, push_entries, remove_first, reschedule_map, FetchKey, FetchPool,
    FetchPoolEntry, FetchRetryOutcome,
};
use crate::permit::{NotifyPermits, PermitDecision};
use crate::registry::SpaceRegistry;
use crate::types::{
    AgentInfoPut, AgentInfoSigned, Arq, BroadcastData, FetchContext, FetchSource, GossipModuleType,
    KitsuneAgent, KitsuneBasis, KitsuneOpHash, KitsuneSpace, MetricExchangeMsg, OpHashSized,
    TransferMethod,
};

verus! {

/// The tunables the router is constructed with; owned elsewhere and
/// handed in, immutable from then on.
#[derive(Debug, Clone, Copy, PartialEq, Eq, Structural)]
pub struct RouterConfig {
    /// The bound of the outbound notification permit.
    pub concurrent_limit_per_thread: usize,
    /// How many failed attempts a pending fetch survives.
    pub fetch_max_attempts: u32,
    /// The backoff a fresh fetch entry starts with.
    pub fetch_initial_backoff_ms: u64,
    /// The outbound byte-rate cap for gossip traffic.
    pub gossip_outbound_bytes_per_s: u64,
    /// The outbound byte-rate cap for publish traffic.
    pub publish_outbound_bytes_per_s: u64,
}

/// One transport the configuration offers.
#[derive(Debug, Clone, PartialEq, Eq)]
pub enum TransportConfig {
    /// A networked transport via a signal server.
    WebRTC {
        /// The signal server address.
        signal_url: Vec<u8>,
        /// A serialized connectivity configuration, when the
        /// configuration carries one.
        webrtc_config: Option<Vec<u8>>,
    },
    /// An in-process transport for tests.
    Mem {},
}

/// Which connectivity configuration the networked transport uses.
#[derive(Debug, Clone, PartialEq, Eq)]
pub enum WebRtcConfigChoice {
    /// The configuration's own serialized value.
    Given(Vec<u8>),
    /// The built-in default.
    BuiltInDefault,
}

/// The transport construction plan decided from the configuration.
#[derive(Debug, Clone, PartialEq, Eq)]
pub enum MetaNetPlan {
    /// Use the in-process backend, with its stand-in addresses.
    Mem,
    /// Use the networked backend via this signal server.
    WebRtc {
        /// The signal server address.
        signal_url: Vec<u8>,
        /// The connectivity configuration to hand the backend.
        config: WebRtcConfigChoice,
    },
}

/// Which bootstrap discovery flavor belongs to the chosen transport.
#[derive(Debug, Clone, Copy, PartialEq, Eq, Structural)]
pub enum BootstrapNet {
    /// The bootstrap flavor of the current transport stack.
    Tx5,
}

/// Decide how the transport is to be constructed: the first offered
/// transport wins; a configuration that offers none is refused.
pub fn plan_meta_net(transport_pool: Vec<TransportConfig>) -> (r: Result<
    (MetaNetPlan, BootstrapNet),
    RouterError,
>)
    ensures
        transport_pool@.len() == 0 ==> r == Err::<(MetaNetPlan, BootstrapNet), RouterError>(
            RouterError::NoValidTransport,
        ),
        transport_pool@.len() > 0 && transport_pool@[0] is Mem ==> r == Ok::<
            (MetaNetPlan, BootstrapNet),
            RouterError,
        >((MetaNetPlan::Mem, BootstrapNet::Tx5)),
        transport_pool@.len() > 0 && transport_pool@[0] is WebRTC ==> ({
            let su = transport_pool@[0]->signal_url;
            let cfg = transport_pool@[0]->webrtc_config;
            &&& r is Ok
            &&& r->Ok_0.1 == BootstrapNet::Tx5
            &&& r->Ok_0.0 is WebRtc
            &&& r->Ok_0.0->signal_url@ == su@
            &&& cfg is Some ==> r->Ok_0.0->config is Given && r->Ok_0.0->config->Given_0@ == cfg->Some_0@
            &&& cfg is None ==> r->Ok_0.0->config == WebRtcConfigChoice::BuiltInDefault
        }),
{
    let mut pool = transport_pool;
    if pool.len() == 0 {
        return Err(RouterError::NoValidTransport);
    }
    match pool.remove(0) {
        TransportConfig::WebRTC { signal_url, webrtc_config } => {
            let config = match webrtc_config {
                Some(c) => WebRtcConfigChoice::Given(c),
                None => WebRtcConfigChoice::BuiltInDefault,
            };
            Ok((MetaNetPlan::WebRtc { signal_url, config }, BootstrapNet::Tx5))
        },
        TransportConfig::Mem {  } => Ok((MetaNetPlan::Mem, BootstrapNet::Tx5)),
    }
}

/// The routing actor's state: the space registry, the fetch pipeline,
/// the delegate resolver, and the outbound permit.
#[derive(Debug, Clone, PartialEq, Eq)]
pub struct SpaceRouter {
    registry: SpaceRegistry,
    fetch_pool: FetchPool,
    delegates: DelegateStore,
    notify_permits: NotifyPermits,
    config: RouterConfig,
}

impl SpaceRouter {
    /// The space registry.
    pub closed spec fn spec_registry(&self) -> SpaceRegistry {
        self.registry
    }

    /// The fetch pool.
    pub closed spec fn spec_fetch_pool(&self) -> FetchPool {
        self.fetch_pool
    }

    /// The pending delegations.
    pub closed spec fn spec_delegates(&self) -> DelegateStore {
        self.delegates
    }

    /// The outbound notification permit.
    pub closed spec fn spec_permits(&self) -> NotifyPermits {
        self.notify_permits
    }

    /// The tunables handed in at construction.
    pub closed spec fn spec_config(&self) -> RouterConfig {
        self.config
    }

    /// Router invariant: every component is well formed.
    pub open spec fn wf(&self) -> bool {
        &&& self.spec_registry().wf()
        &&& self.spec_fetch_pool().wf()
        &&& self.spec_delegates().wf()
        &&& self.spec_permits().wf()
    }

    /// A fresh router: no space, no pending fetch, no pending
    /// delegation, every permit free, the tunables as given.
    pub fn new(config: RouterConfig) -> (r: Self)
        ensures
            r.wf(),
            r.spec_registry().spec_len() == 0,
            !r.spec_registry().spec_shutting_down(),
            r.spec_fetch_pool().spec_entries().len() == 0,
            r.spec_fetch_pool().spec_max_attempts() == config.fetch_max_attempts,
            r.spec_fetch_pool().spec_initial_backoff_ms() == config.fetch_initial_backoff_ms,
            r.spec_delegates().spec_entries().len() == 0,
            r.spec_permits().spec_limit() == config.concurrent_limit_per_thread,
            r.spec_permits().spec_outstanding() == 0,
            r.spec_config() == config,
    {
        SpaceRouter {
            registry: SpaceRegistry::new(),
            fetch_pool: FetchPool::new(config.fetch_max_attempts, config.fetch_initial_backoff_ms),
            delegates: DelegateStore::new(),
            notify_permits: NotifyPermits::new(config.concurrent_limit_per_thread),
            config,
        }
    }

    /// Route one event kind for a space; the single place every
    /// dispatching handler goes through.
    fn route(&mut self, kind: SpaceEventKind, space: KitsuneSpace) -> (r: RouteOutcome)
        requires
            old(self).wf(),
        ensures
            final(self).wf(),
            r == route_result(
                old(self).spec_registry().spec_entries(),
                old(self).spec_registry().spec_shutting_down(),
                kind,
                space,
            ),
            final(self).spec_registry().spec_entries() == route_entries(
                old(self).spec_registry().spec_entries(),
                old(self).spec_registry().spec_shutting_down(),
                kind,
                space,
            ),
            final(self).spec_registry().spec_shutting_down() == old(
                self,
            ).spec_registry().spec_shutting_down(),
            final(self).spec_fetch_pool() == old(self).spec_fetch_pool(),
            final(self).spec_delegates() == old(self).spec_delegates(),
            final(self).spec_permits() == old(self).spec_permits(),
            final(self).spec_config() == old(self).spec_config(),
    {
        route_event(&mut self.registry, kind, space)
    }

    /// An agent joins a space; the space is created on first join and
    /// the join is forwarded to its actor. During shutdown the call
    /// fails fast instead of spawning new work.
    pub fn handle_join(
        &mut self,
        space: KitsuneSpace,
        agent: KitsuneAgent,
        maybe_agent_info: Option<AgentInfoSigned>,
        initial_arq: Option<Arq>,
    ) -> (r: RouteOutcome)
        requires
            old(self).wf(),
        ensures
            final(self).wf(),
            r == route_result(
                old(self).spec_registry().spec_entries(),
                old(self).spec_registry().spec_shutting_down(),
                SpaceEventKind::Join,
                space,
            ),
            final(self).spec_registry().spec_entries() == route_entries(
                old(self).spec_registry().spec_entries(),
                old(self).spec_registry().spec_shutting_down(),
                SpaceEventKind::Join,
                space,
            ),
            final(self).spec_registry().spec_shutting_down() == old(
                self,
            ).spec_registry().spec_shutting_down(),
            final(self).spec_fetch_pool() == old(self).spec_fetch_pool(),
            final(self).spec_delegates() == old(self).spec_delegates(),
            final(self).spec_permits() == old(self).spec_permits(),
    {
        self.route(SpaceEventKind::Join, space)
    }

    /// An agent leaves a space; a leave for an unknown space is
    /// silently complete.
    pub fn handle_leave(&mut self, space: KitsuneSpace, agent: KitsuneAgent) -> (r: RouteOutcome)
        requires
            old(self).wf(),
        ensures
            final(self).wf(),
            r == route_result(
                old(self).spec_registry().spec_entries(),
                old(self).spec_registry().spec_shutting_down(),
                SpaceEventKind::Leave,
                space,
            ),
            final(self).spec_registry().spec_entries() == old(
                self,
            ).spec_registry().spec_entries(),
            final(self).spec_registry().spec_shutting_down() == old(
                self,
            ).spec_registry().spec_shutting_down(),
            final(self).spec_fetch_pool() == old(self).spec_fetch_pool(),
            final(self).spec_delegates() == old(self).spec_delegates(),
            final(self).spec_permits() == old(self).spec_permits(),
    {
        self.route(SpaceEventKind::Leave, space)
    }

    /// An RPC call to one agent: the caller awaits a definitive
    /// answer, so an unknown space fails with a routing error at once.
    pub fn handle_rpc_single(
        &mut self,
        space: KitsuneSpace,
        to_agent: KitsuneAgent,
        payload: Vec<u8>,
        timeout_ms: Option<u64>,
    ) -> (r: RouteOutcome)
        requires
            old(self).wf(),
        ensures
            final(self).wf(),
            r == route_result(
                old(self).spec_registry().spec_entries(),
                old(self).spec_registry().spec_shutting_down(),
                SpaceEventKind::RpcSingle,
                space,
            ),
            final(self).spec_registry().spec_entries() == old(
                self,
            ).spec_registry().spec_entries(),
            final(self).spec_registry().spec_shutting_down() == old(
                self,
            ).spec_registry().spec_shutting_down(),
            final(self).spec_fetch_pool() == old(self).spec_fetch_pool(),
            final(self).spec_delegates() == old(self).spec_delegates(),
            final(self).spec_permits() == old(self).spec_permits(),
    {
        self.route(SpaceEventKind::RpcSingle, space)
    }

    /// An RPC call gathering answers from several agents around a
    /// basis; an unknown space fails with a routing error at once.
    pub fn handle_rpc_multi(&mut self, input: RpcMulti) -> (r: RouteOutcome)
        requires
            old(self).wf(),
        ensures
            final(self).wf(),
            r == route_result(
                old(self).spec_registry().spec_entries(),
                old(self).spec_registry().spec_shutting_down(),
                SpaceEventKind::RpcMulti,
                input.space,
            ),
            final(self).spec_registry().spec_entries() == old(
                self,
            ).spec_registry().spec_entries(),
            final(self).spec_registry().spec_shutting_down() == old(
                self,
            ).spec_registry().spec_shutting_down(),
            final(self).spec_fetch_pool() == old(self).spec_fetch_pool(),
            final(self).spec_delegates() == old(self).spec_delegates(),
            final(self).spec_permits() == old(self).spec_permits(),
    {
        self.route(SpaceEventKind::RpcMulti, input.space)
    }

    /// A broadcast into a neighborhood; an unknown space fails with a
    /// routing error at once.
    pub fn handle_broadcast(
        &mut self,
        space: KitsuneSpace,
        basis: KitsuneBasis,
        timeout_ms: u64,
        data: BroadcastData,
    ) -> (r: RouteOutcome)
        requires
            old(self).wf(),
        ensures
            final(self).wf(),
            r == route_result(
                old(self).spec_registry().spec_entries(),
                old(self).spec_registry().spec_shutting_down(),
                SpaceEventKind::Broadcast,
                space,
            ),
            final(self).spec_registry().spec_entries() == old(
                self,
            ).spec_registry().spec_entries(),
            final(self).spec_registry().spec_shutting_down() == old(
                self,
            ).spec_registry().spec_shutting_down(),
            final(self).spec_fetch_pool() == old(self).spec_fetch_pool(),
            final(self).spec_delegates() == old(self).spec_delegates(),
            final(self).spec_permits() == old(self).spec_permits(),
    {
        self.route(SpaceEventKind::Broadcast, space)
    }

    /// A broadcast to a fixed set of agents; an unknown space fails
    /// with a routing error at once.
    pub fn handle_targeted_broadcast(
        &mut self,
        space: KitsuneSpace,
        agents: Vec<KitsuneAgent>,
        timeout_ms: u64,
        payload: Vec<u8>,
        drop_at_limit: bool,
    ) -> (r: RouteOutcome)
        requires
            old(self).wf(),
        ensures
            final(self).wf(),
            r == route_result(
                old(self).spec_registry().spec_entries(),
                old(self).spec_registry().spec_shutting_down(),
                SpaceEventKind::TargetedBroadcast,
                space,
            ),
            final(self).spec_registry().spec_entries() == old(
                self,
            ).spec_registry().spec_entries(),
            final(self).spec_registry().spec_shutting_down() == old(
                self,
            ).spec_registry().spec_shutting_down(),
            final(self).spec_fetch_pool() == old(self).spec_fetch_pool(),
            final(self).spec_delegates() == old(self).spec_delegates(),
            final(self).spec_permits() == old(self).spec_permits(),
    {
        self.route(SpaceEventKind::TargetedBroadcast, space)
    }

    /// Newly integrated data is available; an unknown space is
    /// silently complete.
    pub fn handle_new_integrated_data(&mut self, space: KitsuneSpace) -> (r: RouteOutcome)
        requires
            old(self).wf(),
        ensures
            final(self).wf(),
            r == route_result(
                old(self).spec_registry().spec_entries(),
                old(self).spec_registry().spec_shutting_down(),
                SpaceEventKind::NewIntegratedData,
                space,
            ),
            final(self).spec_registry().spec_entries() == old(
                self,
            ).spec_registry().spec_entries(),
            final(self).spec_registry().spec_shutting_down() == old(
                self,
            ).spec_registry().spec_shutting_down(),
            final(self).spec_fetch_pool() == old(self).spec_fetch_pool(),
            final(self).spec_delegates() == old(self).spec_delegates(),
            final(self).spec_permits() == old(self).spec_permits(),
    {
        self.route(SpaceEventKind::NewIntegratedData, space)
    }

    /// Is this node an authority for the basis hash? The caller awaits
    /// a definitive answer, so an unknown space fails at once.
    pub fn handle_authority_for_hash(&mut self, space: KitsuneSpace, basis: KitsuneBasis) -> (r:
        RouteOutcome)
        requires
            old(self).wf(),
        ensures
            final(self).wf(),
            r == route_result(
                old(self).spec_registry().spec_entries(),
                old(self).spec_registry().spec_shutting_down(),
                SpaceEventKind::AuthorityForHash,
                space,
            ),
            final(self).spec_registry().spec_entries() == old(
                self,
            ).spec_registry().spec_entries(),
            final(self).spec_registry().spec_shutting_down() == old(
                self,
            ).spec_registry().spec_shutting_down(),
            final(self).spec_fetch_pool() == old(self).spec_fetch_pool(),
            final(self).spec_delegates() == old(self).spec_delegates(),
            final(self).spec_permits() == old(self).spec_permits(),
    {
        self.route(SpaceEventKind::AuthorityForHash, space)
    }

    /// A diagnostics snapshot of one space; the caller awaits it, so
    /// an unknown space fails at once.
    pub fn handle_get_diagnostics(&mut self, space: KitsuneSpace) -> (r: RouteOutcome)
        requires
            old(self).wf(),
        ensures
            final(self).wf(),
            r == route_result(
                old(self).spec_registry().spec_entries(),
                old(self).spec_registry().spec_shutting_down(),
                SpaceEventKind::GetDiagnostics,
                space,
            ),
            final(self).spec_registry().spec_entries() == old(
                self,
            ).spec_registry().spec_entries(),
            final(self).spec_registry().spec_shutting_down() == old(
                self,
            ).spec_registry().spec_shutting_down(),
            final(self).spec_fetch_pool() == old(self).spec_fetch_pool(),
            final(self).spec_delegates() == old(self).spec_delegates(),
            final(self).spec_permits() == old(self).spec_permits(),
    {
        self.route(SpaceEventKind::GetDiagnostics, space)
    }

    /// A delegate broadcast arrived from a peer: this node is asked to
    /// re-delegate to its slice of the neighborhood. Best effort: an
    /// unknown space is logged and dropped.
    pub fn handle_incoming_delegate_broadcast(
        &mut self,
        space: KitsuneSpace,
        basis: KitsuneBasis,
        to_agent: KitsuneAgent,
        mod_idx: u32,
        mod_cnt: u32,
        data: BroadcastData,
    ) -> (r: RouteOutcome)
        requires
            old(self).wf(),
        ensures
            final(self).wf(),
            r == route_result(
                old(self).spec_registry().spec_entries(),
                old(self).spec_registry().spec_shutting_down(),
                SpaceEventKind::IncomingDelegateBroadcast,
                space,
            ),
            final(self).spec_registry().spec_entries() == old(
                self,
            ).spec_registry().spec_entries(),
            final(self).spec_registry().spec_shutting_down() == old(
                self,
            ).spec_registry().spec_shutting_down(),
            final(self).spec_fetch_pool() == old(self).spec_fetch_pool(),
            final(self).spec_delegates() == old(self).spec_delegates(),
            final(self).spec_permits() == old(self).spec_permits(),
    {
        self.route(SpaceEventKind::IncomingDelegateBroadcast, space)
    }

    /// Gossip data arrived from a peer. Best effort: an unknown space
    /// is logged and dropped — no error, no panic, and peers retry.
    pub fn handle_incoming_gossip(
        &mut self,
        space: KitsuneSpace,
        remote_url: Vec<u8>,
        data: Vec<u8>,
        module_type: GossipModuleType,
    ) -> (r: RouteOutcome)
        requires
            old(self).wf(),
        ensures
            final(self).wf(),
            r == route_result(
                old(self).spec_registry().spec_entries(),
                old(self).spec_registry().spec_shutting_down(),
                SpaceEventKind::IncomingGossip,
                space,
            ),
            final(self).spec_registry().spec_entries() == old(
                self,
            ).spec_registry().spec_entries(),
            final(self).spec_registry().spec_shutting_down() == old(
                self,
            ).spec_registry().spec_shutting_down(),
            final(self).spec_fetch_pool() == old(self).spec_fetch_pool(),
            final(self).spec_delegates() == old(self).spec_delegates(),
            final(self).spec_permits() == old(self).spec_permits(),
    {
        self.route(SpaceEventKind::IncomingGossip, space)
    }

    /// Metric exchange messages arrived from a peer. Best effort: an
    /// unknown space is logged and dropped.
    pub fn handle_incoming_metric_exchange(
        &mut self,
        space: KitsuneSpace,
        msgs: Vec<MetricExchangeMsg>,
    ) -> (r: RouteOutcome)
        requires
            old(self).wf(),
        ensures
            final(self).wf(),
            r == route_result(
                old(self).spec_registry().spec_entries(),
                old(self).spec_registry().spec_shutting_down(),
                SpaceEventKind::IncomingMetricExchange,
                space,
            ),
            final(self).spec_registry().spec_entries() == old(
                self,
            ).spec_registry().spec_entries(),
            final(self).spec_registry().spec_shutting_down() == old(
                self,
            ).spec_registry().spec_shutting_down(),
            final(self).spec_fetch_pool() == old(self).spec_fetch_pool(),
            final(self).spec_delegates() == old(self).spec_delegates(),
            final(self).spec_permits() == old(self).spec_permits(),
    {
        self.route(SpaceEventKind::IncomingMetricExchange, space)
    }
}

/// An RPC call gathering answers from several agents around a basis.
#[derive(Debug, Clone, PartialEq, Eq)]
pub struct RpcMulti {
    /// The space the call belongs to.
    pub space: KitsuneSpace,
    /// The basis whose neighborhood is asked.
    pub basis: KitsuneBasis,
    /// The call payload.
    pub payload: Vec<u8>,
    /// The most agents to ask.
    pub max_remote_agent_count: u8,
    /// The overall deadline, in milliseconds.
    pub max_timeout_ms: u64,
    /// The grace period granted to slow responders, in milliseconds.
    pub remote_request_grace_ms: u64,
}

/// The index of the first missing hash, if any.
pub open spec fn first_missing(missing: Seq<bool>) -> Option<int>
    decreases missing.len(),
{
    if missing.len() == 0 {
        None
    } else if missing[0] {
        Some(0)
    } else {
        match first_missing(missing.skip(1)) {
            Some(k) => Some(k + 1),
            None => None,
        }
    }
}

/// A true flag at index i, with none earlier, is the first.
pub proof fn lemma_first_missing_at(missing: Seq<bool>, i: int)
    requires
        0 <= i < missing.len(),
        missing[i],
        forall|j: int| 0 <= j < i ==> !missing[j],
    ensures
        first_missing(missing) == Some(i),
    decreases i,
{
    if i > 0 {
        lemma_first_missing_at(missing.skip(1), i - 1);
    }
}

/// No flag set means no first.
pub proof fn lemma_first_missing_none(missing: Seq<bool>)
    requires
        forall|j: int| 0 <= j < missing.len() ==> !missing[j],
    ensures
        first_missing(missing) is None,
    decreases missing.len(),
{
    if missing.len() > 0 {
        lemma_first_missing_none(missing.skip(1));
    }
}

/// Whether some hash among the first i, flagged missing, has these
/// bytes.
pub open spec fn in_missing_prefix(
    list: Seq<OpHashSized>,
    missing: Seq<bool>,
    i: int,
    kop: Seq<u8>,
) -> bool {
    exists|j: int| 0 <= j < i && missing[j] && (#[trigger] list[j]).hash.spec_bytes() == kop
}

/// The sending order for one fetch request decided for a space actor.
#[derive(Debug, Clone, PartialEq, Eq)]
pub struct FetchNotifyCmd {
    /// The space actor to send through.
    pub token: u64,
    /// The source agent the request goes to.
    pub agent: KitsuneAgent,
    /// The space the keys belong to.
    pub space: KitsuneSpace,
    /// The keys requested.
    pub keys: Vec<FetchKey>,
}

/// What the routing layer decided for one fetch request.
#[derive(Debug, Clone, PartialEq, Eq)]
pub enum FetchDecision {
    /// Send this request through the space's actor.
    Notify(FetchNotifyCmd),
    /// Drop the request; `logged` says whether a log line is owed.
    Dropped {
        /// Whether the drop leaves a log entry.
        logged: bool,
    },
}

/// A delegated broadcast to resume, now that the data is here.
#[derive(Debug, Clone, PartialEq, Eq)]
pub struct DelegateBroadcastCmd {
    /// The space actor to send through.
    pub token: u64,
    /// The space the broadcast belongs to.
    pub space: KitsuneSpace,
    /// The basis coordinate of the neighborhood.
    pub basis: KitsuneBasis,
    /// The agent the publish was addressed to.
    pub to_agent: KitsuneAgent,
    /// Which slice of the neighborhood this node re-delegates to.
    pub mod_idx: u32,
    /// How many slices the neighborhood is divided into.
    pub mod_cnt: u32,
}

/// The two-phase shutdown drain: close the host-side data API and the
/// transport, best effort; then shut each registered space down, after
/// its construction finishes. No new space may be created afterwards.
#[derive(Debug, Clone, PartialEq, Eq)]
pub struct ShutdownPlan {
    /// Close the host-side data API first; a failure is logged and
    /// ignored.
    pub close_host: bool,
    /// Close the transport handle next; it is closed exactly once.
    pub close_transport: bool,
    /// Then every registered space, in registration order, receives an
    /// immediate, synchronous shutdown.
    pub space_tokens: Vec<u64>,
}

impl SpaceRouter {
    /// A fetch request is to be sent to its source: wrap the key in a
    /// fetch envelope for the space's actor to deliver. Best effort: an
    /// unknown space is logged and dropped.
    pub fn handle_fetch(&mut self, key: FetchKey, space: KitsuneSpace, source: FetchSource) -> (r:
        FetchDecision)
        requires
            old(self).wf(),
        ensures
            final(self).wf(),
            *final(self) == *old(self),
            !old(self).spec_registry().spec_contains(space.spec_bytes()) ==> r == (
            FetchDecision::Dropped { logged: true }),
            old(self).spec_registry().spec_contains(space.spec_bytes()) ==> ({
                let c = r->Notify_0;
                &&& r is Notify
                &&& c.token == old(self).spec_registry().spec_token(space.spec_bytes())
                &&& c.agent == source->Agent_0
                &&& c.space == space
                &&& c.keys@.len() == 1
                &&& c.keys@[0] == key
            }),
    {
        let FetchSource::Agent(agent) = source;
        match self.registry.lookup(&space) {
            None => FetchDecision::Dropped { logged: true },
            Some(token) => {
                let mut keys: Vec<FetchKey> = Vec::new();
                keys.push(key);
                FetchDecision::Notify(FetchNotifyCmd { token, agent, space, keys })
            },
        }
    }

    /// A publish announcement arrived. An unknown space is logged and
    /// dropped — publish propagation is best effort. For a known space
    /// the publish is forwarded, every announced hash whose data is
    /// missing locally is enqueued in the fetch pool under this source
    /// and context, and — when the publish carries delegation
    /// parameters and data is missing — a pending delegation is stored
    /// under (space, first missing hash) to be resumed when the data
    /// lands.
    #[verifier::rlimit(60)]
    #[verifier::spinoff_prover]
    pub fn handle_incoming_publish(
        &mut self,
        space: KitsuneSpace,
        to_agent: KitsuneAgent,
        source: KitsuneAgent,
        transfer_method: TransferMethod,
        op_hash_list: Vec<OpHashSized>,
        context: FetchContext,
        maybe_delegate: Option<(KitsuneBasis, u32, u32)>,
        missing: &Vec<bool>,
    ) -> (r: RouteOutcome)
        requires
            old(self).wf(),
            missing@.len() == op_hash_list@.len(),
        ensures
            final(self).wf(),
            r == route_result(
                old(self).spec_registry().spec_entries(),
                old(self).spec_registry().spec_shutting_down(),
                SpaceEventKind::IncomingPublish,
                space,
            ),
            final(self).spec_registry().spec_entries() == old(
                self,
            ).spec_registry().spec_entries(),
            final(self).spec_registry().spec_shutting_down() == old(
                self,
            ).spec_registry().spec_shutting_down(),
            final(self).spec_permits() == old(self).spec_permits(),
            final(self).spec_config() == old(self).spec_config(),
            !old(self).spec_registry().spec_contains(space.spec_bytes()) ==> final(self).spec_fetch_pool() == old(self).spec_fetch_pool() && final(self).spec_delegates()
                == old(self).spec_delegates(),
            old(self).spec_registry().spec_contains(space.spec_bytes()) ==> ({
                let pool0 = old(self).spec_fetch_pool();
                let pool1 = final(self).spec_fetch_pool();
                let ksp = space.spec_bytes();
                &&& pool1.spec_max_attempts() == pool0.spec_max_attempts()
                &&& pool1.spec_initial_backoff_ms() == pool0.spec_initial_backoff_ms()
                &&& forall|i: int|
                    0 <= i < op_hash_list@.len() && missing@[i] ==> ({
                        let kop = (#[trigger] op_hash_list@[i]).hash.spec_bytes();
                        &&& pool1.spec_entry(kop, ksp) is Some
                        &&& pool1.spec_entry(kop, ksp)->Some_0.context.0 == (
                        match pool0.spec_entry(kop, ksp) {
                            Some(e0) => e0.context.0 | context.0,
                            None => context.0,
                        })
                        &&& pool1.spec_entry(kop, ksp)->Some_0.source.0@ == source.0@
                    })
                &&& forall|kop2: Seq<u8>, ksp2: Seq<u8>|
                    !(ksp2 == ksp && in_missing_prefix(
                        op_hash_list@,
                        missing@,
                        op_hash_list@.len() as int,
                        kop2,
                    )) ==> #[trigger] pool1.spec_entry(kop2, ksp2) == pool0.spec_entry(kop2, ksp2)
            }),
            old(self).spec_registry().spec_contains(space.spec_bytes()) ==> (
            match (maybe_delegate, first_missing(missing@)) {
                (Some((basis, mod_idx, mod_cnt)), Some(f)) => ({
                    let ksp = space.spec_bytes();
                    let kop = op_hash_list@[f].hash.spec_bytes();
                    let got = final(self).spec_delegates().spec_delegate(ksp, kop);
                    &&& got is Some
                    &&& got->Some_0.basis.0@ == basis.0@
                    &&& got->Some_0.to_agent.0@ == to_agent.0@
                    &&& got->Some_0.mod_idx == mod_idx
                    &&& got->Some_0.mod_cnt == mod_cnt
                    &&& forall|ksp2: Seq<u8>, kop2: Seq<u8>|
                        !(ksp2 == ksp && kop2 == kop) ==> #[trigger] final(self).spec_delegates().spec_delegate(ksp2, kop2) == old(
                            self,
                        ).spec_delegates().spec_delegate(ksp2, kop2)
                }),
                _ => final(self).spec_delegates() == old(self).spec_delegates(),
            }),
    {
        let token = match self.registry.lookup(&space) {
            None => {
                return RouteOutcome::Drop { logged: true };
            },
            Some(token) => token,
        };
        let ghost pool0 = self.spec_fetch_pool();
        let ghost ksp = space.spec_bytes();
        let ghost listv = op_hash_list@;
        let ghost missv = missing@;
        let n = op_hash_list.len();
        let mut i: usize = 0;
        while i < n
            invariant
                self.fetch_pool.wf(),
                n == listv.len(),
                missv.len() == listv.len(),
                op_hash_list@ == listv,
                missing@ == missv,
                space.spec_bytes() == ksp,
                0 <= i <= n,
                self.registry == old(self).spec_registry(),
                self.delegates == old(self).spec_delegates(),
                self.notify_permits == old(self).spec_permits(),
                self.config == old(self).spec_config(),
                self.fetch_pool.spec_max_attempts() == pool0.spec_max_attempts(),
                self.fetch_pool.spec_initial_backoff_ms() == pool0.spec_initial_backoff_ms(),
                forall|j: int|
                    0 <= j < i && missv[j] ==> ({
                        let kop = (#[trigger] listv[j]).hash.spec_bytes();
                        &&& self.fetch_pool.spec_entry(kop, ksp) is Some
                        &&& self.fetch_pool.spec_entry(kop, ksp)->Some_0.context.0 == (
                        match pool0.spec_entry(kop, ksp) {
                            Some(e0) => e0.context.0 | context.0,
                            None => context.0,
                        })
                        &&& self.fetch_pool.spec_entry(kop, ksp)->Some_0.source.0@ == source.0@
                    }),
                forall|kop2: Seq<u8>, ksp2: Seq<u8>|
                    !(ksp2 == ksp && in_missing_prefix(listv, missv, i as int, kop2))
                        ==> #[trigger] self.fetch_pool.spec_entry(kop2, ksp2) == pool0.spec_entry(
                        kop2,
                        ksp2,
                    ),
            decreases n - i,
        {
            if missing[i] {
                let ghost prev = self.spec_fetch_pool();
                let kop_vec = op_hash_list[i].hash.clone();
                let key = FetchKey { op_hash: kop_vec, space: space.clone() };
                let source_i = source.clone();
                let ghost keyv = key;
                let ghost srcv = source_i;
                let ghost kop = listv[i as int].hash.spec_bytes();
                proof {
                    assert(key.op_hash.spec_bytes() == kop);
                    assert(key.space.spec_bytes() == ksp);
                }
                self.fetch_pool.push(key, context, source_i);
                proof {
                    let pe = prev.spec_entries();
                    let b: u32 = context.0;
                    let fresh = crate::fetch_pool::fresh_entry(
                        keyv,
                        context,
                        srcv,
                        prev.spec_initial_backoff_ms(),
                    );
                    if entry_of(pe, kop, ksp) is Some {
                        crate::fetch_pool::lemma_entry_of_merge(pe, kop, ksp, context, srcv);
                    }
                    assert(in_missing_prefix(listv, missv, i + 1, kop)) by {
                        assert(0 <= i < i + 1 && missv[i as int] && listv[
                            i as int].hash.spec_bytes() == kop);
                    }
                    assert forall|j: int| 0 <= j < i + 1 && missv[j] implies ({
                        let kopj = (#[trigger] listv[j]).hash.spec_bytes();
                        &&& self.fetch_pool.spec_entry(kopj, ksp) is Some
                        &&& self.fetch_pool.spec_entry(kopj, ksp)->Some_0.context.0 == (
                        match pool0.spec_entry(kopj, ksp) {
                            Some(e0) => e0.context.0 | context.0,
                            None => context.0,
                        })
                        &&& self.fetch_pool.spec_entry(kopj, ksp)->Some_0.source.0@ == source.0@
                    }) by {
                        let kopj = listv[j].hash.spec_bytes();
                        if entry_of(pe, kop, ksp) is None {
                            crate::fetch_pool::lemma_entry_of_push(pe, fresh, kopj, ksp);
                        }
                        if kopj == kop {
                            if in_missing_prefix(listv, missv, i as int, kop) {
                                let jw = choose|jw: int|
                                    0 <= jw < i && missv[jw] && (#[trigger] listv[
                                        jw]).hash.spec_bytes() == kop;
                                assert(prev.spec_entry(kop, ksp) is Some);
                                let a: u32 = if pool0.spec_entry(kop, ksp) is Some {
                                    pool0.spec_entry(kop, ksp)->Some_0.context.0
                                } else {
                                    0u32
                                };
                                assert(((a | b) | b) == (a | b)) by (bit_vector);
                                assert((b | b) == b) by (bit_vector);
                            } else {
                                assert(prev.spec_entry(kop, ksp) == pool0.spec_entry(kop, ksp));
                            }
                        }
                    }
                    assert forall|kop2: Seq<u8>, ksp2: Seq<u8>|
                        !(ksp2 == ksp && in_missing_prefix(listv, missv, i + 1, kop2)) implies
                        #[trigger] self.fetch_pool.spec_entry(kop2, ksp2) == pool0.spec_entry(
                        kop2,
                        ksp2,
                    ) by {
                        assert(!(ksp2 == ksp && in_missing_prefix(listv, missv, i as int, kop2)));
                        assert(prev.spec_entry(kop2, ksp2) == pool0.spec_entry(kop2, ksp2));
                        if ksp2 == ksp {
                            assert(kop2 != kop);
                        }
                        if entry_of(pe, kop, ksp) is None {
                            crate::fetch_pool::lemma_entry_of_push(pe, fresh, kop2, ksp2);
                        } else {
                            crate::fetch_pool::lemma_entry_of_merge(pe, kop, ksp, context, srcv);
                            assert(entry_of(
                                crate::fetch_pool::merge_map(pe, kop, ksp, context, srcv),
                                kop2,
                                ksp2,
                            ) == entry_of(pe, kop2, ksp2));
                        }
                    }
                }
            }
            i += 1;
        }
        if let Some((basis, mod_idx, mod_cnt)) = maybe_delegate {
            let mut f: usize = 0;
            let mut found = false;
            while f < n && !found
                invariant
                    n == missv.len(),
                    missing@ == missv,
                    0 <= f <= n,
                    !found ==> forall|j: int| 0 <= j < f ==> !missv[j],
                    found ==> f < n && missv[f as int] && (forall|j: int|
                        0 <= j < f ==> !missv[j]),
                decreases n - f + (if found {
                    0int
                } else {
                    1int
                }),
            {
                if missing[f] {
                    found = true;
                } else {
                    f += 1;
                }
            }
            if found {
                proof {
                    lemma_first_missing_at(missv, f as int);
                }
                let d = PendingDelegate {
                    space: space.clone(),
                    op_hash: op_hash_list[f].hash.clone(),
                    basis,
                    to_agent,
                    mod_idx,
                    mod_cnt,
                };
                self.delegates.insert(d);
            } else {
                proof {
                    lemma_first_missing_none(missv);
                }
            }
        }
        RouteOutcome::Forward(token)
    }

    /// Op data for (space, hash) is now locally available: if a
    /// delegation is pending under that key it is removed and handed
    /// back, exactly once, to be carried out as a delegate broadcast.
    /// An unrelated hash is a no-op; an unknown space is logged and
    /// dropped.
    pub fn handle_resolve_publish_pending_delegates(
        &mut self,
        space: KitsuneSpace,
        op_hash: KitsuneOpHash,
    ) -> (r: Option<DelegateBroadcastCmd>)
        requires
            old(self).wf(),
        ensures
            final(self).wf(),
            final(self).spec_registry().spec_entries() == old(
                self,
            ).spec_registry().spec_entries(),
            final(self).spec_registry().spec_shutting_down() == old(
                self,
            ).spec_registry().spec_shutting_down(),
            final(self).spec_fetch_pool() == old(self).spec_fetch_pool(),
            final(self).spec_permits() == old(self).spec_permits(),
            final(self).spec_config() == old(self).spec_config(),
            !old(self).spec_registry().spec_contains(space.spec_bytes()) ==> r is None && final(self).spec_delegates() == old(self).spec_delegates(),
            old(self).spec_registry().spec_contains(space.spec_bytes()) ==> ({
                let ksp = space.spec_bytes();
                let kop = op_hash.spec_bytes();
                let before = old(self).spec_delegates();
                let after = final(self).spec_delegates();
                &&& after.spec_entries() == remove_delegate(before.spec_entries(), ksp, kop)
                &&& after.spec_delegate(ksp, kop) is None
                &&& (match before.spec_delegate(ksp, kop) {
                    Some(d) => r matches Some(c) && c.token == old(
                        self,
                    ).spec_registry().spec_token(ksp) && c.space == d.space && c.basis == d.basis
                        && c.to_agent == d.to_agent && c.mod_idx == d.mod_idx && c.mod_cnt
                        == d.mod_cnt,
                    None => r is None && after.spec_entries() == before.spec_entries(),
                })
            }),
    {
        let token = match self.registry.lookup(&space) {
            None => {
                return None;
            },
            Some(token) => token,
        };
        match self.delegates.resolve(&space, &op_hash) {
            Some(d) => Some(
                DelegateBroadcastCmd {
                    token,
                    space: d.space,
                    basis: d.basis,
                    to_agent: d.to_agent,
                    mod_idx: d.mod_idx,
                    mod_cnt: d.mod_cnt,
                },
            ),
            None => None,
        }
    }
}

/// The byte views of a list of byte vectors.
pub open spec fn views_of(s: Seq<Vec<u8>>) -> Seq<Seq<u8>> {
    Seq::new(s.len(), |i: int| s[i]@)
}

/// The agent-info records displaced by a put, flattened in put order:
/// the URLs whose connections should be closed.
pub open spec fn removed_url_views(puts: Seq<AgentInfoPut>) -> Seq<Seq<u8>>
    decreases puts.len(),
{
    if puts.len() == 0 {
        Seq::empty()
    } else {
        removed_url_views(puts.drop_last()) + views_of(puts.last().removed_urls@)
    }
}

impl SpaceRouter {
    /// The next fetch the background task should attempt: the first
    /// pending entry whose backoff has elapsed.
    pub fn next_fetch(&self, now_ms: u64) -> (r: Option<&FetchPoolEntry>)
        ensures
            r matches Some(e) ==> first_ready(self.spec_fetch_pool().spec_entries(), now_ms)
                == Some(*e),
            r is None ==> first_ready(self.spec_fetch_pool().spec_entries(), now_ms) is None,
    {
        self.fetch_pool.next_ready(now_ms)
    }

    /// The fetch task obtained a key's data: the pending entry leaves
    /// the pool, and any delegation pending under (space, hash) is
    /// handed back to be resumed as a delegate broadcast.
    pub fn on_fetch_success(&mut self, space: KitsuneSpace, op_hash: KitsuneOpHash) -> (r: Option<
        DelegateBroadcastCmd,
    >)
        requires
            old(self).wf(),
        ensures
            final(self).wf(),
            final(self).spec_registry().spec_entries() == old(self).spec_registry().spec_entries(),
            final(self).spec_registry().spec_shutting_down() == old(
                self,
            ).spec_registry().spec_shutting_down(),
            final(self).spec_permits() == old(self).spec_permits(),
            final(self).spec_config() == old(self).spec_config(),
            final(self).spec_fetch_pool().spec_entries() == remove_first(
                old(self).spec_fetch_pool().spec_entries(),
                op_hash.spec_bytes(),
                space.spec_bytes(),
            ),
            final(self).spec_fetch_pool().spec_entry(op_hash.spec_bytes(), space.spec_bytes())
                is None,
            final(self).spec_fetch_pool().spec_max_attempts() == old(
                self,
            ).spec_fetch_pool().spec_max_attempts(),
            final(self).spec_fetch_pool().spec_initial_backoff_ms() == old(
                self,
            ).spec_fetch_pool().spec_initial_backoff_ms(),
            !old(self).spec_registry().spec_contains(space.spec_bytes()) ==> r is None && final(self).spec_delegates() == old(self).spec_delegates(),
            old(self).spec_registry().spec_contains(space.spec_bytes()) ==> ({
                let ksp = space.spec_bytes();
                let kop = op_hash.spec_bytes();
                let before = old(self).spec_delegates();
                let after = final(self).spec_delegates();
                &&& after.spec_entries() == remove_delegate(before.spec_entries(), ksp, kop)
                &&& after.spec_delegate(ksp, kop) is None
                &&& (match before.spec_delegate(ksp, kop) {
                    Some(d) => r matches Some(c) && c.token == old(
                        self,
                    ).spec_registry().spec_token(ksp) && c.space == d.space && c.basis == d.basis
                        && c.to_agent == d.to_agent && c.mod_idx == d.mod_idx && c.mod_cnt
                        == d.mod_cnt,
                    None => r is None && after.spec_entries() == before.spec_entries(),
                })
            }),
    {
        let _ = self.fetch_pool.on_fetch_success(&op_hash, &space);
        self.handle_resolve_publish_pending_delegates(space, op_hash)
    }

    /// Unsolicited op data arrived by gossip or direct publish: the
    /// already-satisfied entry leaves the pool without waiting for the
    /// fetch task's own round trip, and any delegation pending under
    /// (space, hash) is handed back to be resumed.
    pub fn on_unsolicited_data(&mut self, space: KitsuneSpace, op_hash: KitsuneOpHash) -> (r:
        Option<DelegateBroadcastCmd>)
        requires
            old(self).wf(),
        ensures
            final(self).wf(),
            final(self).spec_registry().spec_entries() == old(self).spec_registry().spec_entries(),
            final(self).spec_registry().spec_shutting_down() == old(
                self,
            ).spec_registry().spec_shutting_down(),
            final(self).spec_permits() == old(self).spec_permits(),
            final(self).spec_config() == old(self).spec_config(),
            final(self).spec_fetch_pool().spec_entries() == remove_first(
                old(self).spec_fetch_pool().spec_entries(),
                op_hash.spec_bytes(),
                space.spec_bytes(),
            ),
            final(self).spec_fetch_pool().spec_entry(op_hash.spec_bytes(), space.spec_bytes())
                is None,
            final(self).spec_fetch_pool().spec_max_attempts() == old(
                self,
            ).spec_fetch_pool().spec_max_attempts(),
            final(self).spec_fetch_pool().spec_initial_backoff_ms() == old(
                self,
            ).spec_fetch_pool().spec_initial_backoff_ms(),
            !old(self).spec_registry().spec_contains(space.spec_bytes()) ==> r is None && final(self).spec_delegates() == old(self).spec_delegates(),
            old(self).spec_registry().spec_contains(space.spec_bytes()) ==> ({
                let ksp = space.spec_bytes();
                let kop = op_hash.spec_bytes();
                let before = old(self).spec_delegates();
                let after = final(self).spec_delegates();
                &&& after.spec_entries() == remove_delegate(before.spec_entries(), ksp, kop)
                &&& after.spec_delegate(ksp, kop) is None
                &&& (match before.spec_delegate(ksp, kop) {
                    Some(d) => r matches Some(c) && c.token == old(
                        self,
                    ).spec_registry().spec_token(ksp) && c.space == d.space && c.basis == d.basis
                        && c.to_agent == d.to_agent && c.mod_idx == d.mod_idx && c.mod_cnt
                        == d.mod_cnt,
                    None => r is None && after.spec_entries() == before.spec_entries(),
                })
            }),
    {
        let _ = self.fetch_pool.on_unsolicited_data(&op_hash, &space);
        self.handle_resolve_publish_pending_delegates(space, op_hash)
    }

    /// A fetch attempt failed: reschedule the entry with a doubled
    /// backoff, or drop it once the attempt bound is exceeded.
    pub fn on_fetch_failure(
        &mut self,
        op_hash: &KitsuneOpHash,
        space: &KitsuneSpace,
        now_ms: u64,
    ) -> (r: FetchRetryOutcome)
        requires
            old(self).wf(),
        ensures
            final(self).wf(),
            final(self).spec_registry().spec_entries() == old(self).spec_registry().spec_entries(),
            final(self).spec_registry().spec_shutting_down() == old(
                self,
            ).spec_registry().spec_shutting_down(),
            final(self).spec_delegates() == old(self).spec_delegates(),
            final(self).spec_permits() == old(self).spec_permits(),
            final(self).spec_config() == old(self).spec_config(),
            final(self).spec_fetch_pool().spec_max_attempts() == old(
                self,
            ).spec_fetch_pool().spec_max_attempts(),
            final(self).spec_fetch_pool().spec_initial_backoff_ms() == old(
                self,
            ).spec_fetch_pool().spec_initial_backoff_ms(),
            old(self).spec_fetch_pool().spec_entry(op_hash.spec_bytes(), space.spec_bytes())
                is None ==> r == FetchRetryOutcome::Unknown && final(self).spec_fetch_pool().spec_entries() == old(self).spec_fetch_pool().spec_entries(),
            old(self).spec_fetch_pool().spec_entry(op_hash.spec_bytes(), space.spec_bytes())
                matches Some(e) && e.attempts >= old(self).spec_fetch_pool().spec_max_attempts()
                ==> r == FetchRetryOutcome::Dropped && final(self).spec_fetch_pool().spec_entries()
                == remove_first(
                old(self).spec_fetch_pool().spec_entries(),
                op_hash.spec_bytes(),
                space.spec_bytes(),
            ),
            old(self).spec_fetch_pool().spec_entry(op_hash.spec_bytes(), space.spec_bytes())
                matches Some(e) && e.attempts < old(self).spec_fetch_pool().spec_max_attempts()
                ==> r == FetchRetryOutcome::Rescheduled && final(self).spec_fetch_pool().spec_entries() == reschedule_map(
                old(self).spec_fetch_pool().spec_entries(),
                op_hash.spec_bytes(),
                space.spec_bytes(),
                now_ms,
            ),
    {
        self.fetch_pool.on_fetch_failure(op_hash, space, now_ms)
    }

    /// A new local address is to be announced: every registered space
    /// hears of it, concurrently.
    pub fn handle_new_address(&self, local_url: &Vec<u8>) -> (r: Vec<u64>)
        requires
            self.wf(),
        ensures
            r@.len() == self.spec_registry().spec_len(),
            forall|i: int| 0 <= i < r@.len() ==> #[trigger] r@[i] == i,
    {
        self.registry.all_tokens()
    }

    /// A connection opened: every registered space hears of it.
    pub fn handle_new_con(&self, url: &Vec<u8>) -> (r: Vec<u64>)
        requires
            self.wf(),
        ensures
            r@.len() == self.spec_registry().spec_len(),
            forall|i: int| 0 <= i < r@.len() ==> #[trigger] r@[i] == i,
    {
        self.registry.all_tokens()
    }

    /// A connection closed: every registered space hears of it.
    pub fn handle_del_con(&self, url: &Vec<u8>) -> (r: Vec<u64>)
        requires
            self.wf(),
        ensures
            r@.len() == self.spec_registry().spec_len(),
            forall|i: int| 0 <= i < r@.len() ==> #[trigger] r@[i] == i,
    {
        self.registry.all_tokens()
    }

    /// Gather local joined agent infos from every registered space,
    /// concurrently; the per-space results are then merged with
    /// `aggregate_agent_infos`, which keeps the successful spaces'
    /// records and skips a failed space rather than failing the call.
    pub fn handle_get_all_local_joined_agent_infos(&self) -> (r: Vec<u64>)
        requires
            self.wf(),
        ensures
            r@.len() == self.spec_registry().spec_len(),
            forall|i: int| 0 <= i < r@.len() ==> #[trigger] r@[i] == i,
    {
        self.registry.all_tokens()
    }

    /// Which spaces a metrics dump covers: the one named, when a filter
    /// is given and registered; every registered space otherwise. The
    /// per-space documents are then merged with `aggregate_metric_dumps`,
    /// which keeps the spaces that answered and skips a failed space
    /// rather than failing the whole report.
    pub fn handle_dump_network_metrics(&self, space: Option<&KitsuneSpace>) -> (r: Vec<u64>)
        requires
            self.wf(),
        ensures
            space is None ==> r@.len() == self.spec_registry().spec_len() && (forall|i: int|
                0 <= i < r@.len() ==> #[trigger] r@[i] == i),
            space is Some ==> ({
                let s = space->Some_0;
                &&& self.spec_registry().spec_contains(s.spec_bytes()) ==> r@ == seq![
                    self.spec_registry().spec_token(s.spec_bytes()),
                ]
                &&& !self.spec_registry().spec_contains(s.spec_bytes()) ==> r@ == Seq::<
                    u64,
                >::empty()
            }),
    {
        match space {
            None => self.registry.all_tokens(),
            Some(s) => {
                let mut out: Vec<u64> = Vec::new();
                match self.registry.lookup(s) {
                    Some(token) => {
                        out.push(token);
                        proof {
                            assert(out@ =~= seq![
                                self.spec_registry().spec_token(s.spec_bytes()),
                            ]);
                        }
                    },
                    None => {
                        proof {
                            assert(out@ =~= Seq::<u64>::empty());
                        }
                    },
                }
                out
            },
        }
    }

    /// After the host stored signed agent info, the URLs the put
    /// displaced are to be disconnected, in put order.
    pub fn urls_to_close(&self, puts: &Vec<AgentInfoPut>) -> (r: Vec<Vec<u8>>)
        ensures
            views_of(r@) == removed_url_views(puts@),
    {
        let mut out: Vec<Vec<u8>> = Vec::new();
        let n = puts.len();
        let mut i: usize = 0;
        while i < n
            invariant
                n == puts@.len(),
                0 <= i <= n,
                views_of(out@) == removed_url_views(puts@.take(i as int)),
            decreases n - i,
        {
            let m = puts[i].removed_urls.len();
            let mut k: usize = 0;
            while k < m
                invariant
                    n == puts@.len(),
                    0 <= i < n,
                    m == puts@[i as int].removed_urls@.len(),
                    0 <= k <= m,
                    views_of(out@) == removed_url_views(puts@.take(i as int)) + views_of(
                        puts@[i as int].removed_urls@,
                    ).take(k as int),
                decreases m - k,
            {
                let ghost out0 = out@;
                let url = vstd::slice::slice_to_vec(puts[i].removed_urls[k].as_slice());
                let ghost urlv = url@;
                out.push(url);
                proof {
                    let rv = removed_url_views(puts@.take(i as int));
                    let inner = views_of(puts@[i as int].removed_urls@);
                    assert(views_of(out0) == rv + inner.take(k as int));
                    assert(out@ == out0.push(out@[out0.len() as int]));
                    assert forall|j: int|
                        0 <= j < views_of(out@).len() implies views_of(out@)[j] == (rv + inner.take(
                        k + 1,
                    ))[j] by {
                        if j < out0.len() {
                            assert(views_of(out@)[j] == views_of(out0)[j]);
                            assert((rv + inner.take(k as int))[j] == views_of(out0)[j]);
                        } else {
                            assert(views_of(out@)[j] == urlv);
                            assert(inner.take(k + 1)[k as int] == inner[k as int]);
                        }
                    }
                    assert(views_of(out@) =~= rv + inner.take(k + 1));
                }
                k += 1;
            }
            proof {
                assert(puts@.take(i + 1).drop_last() =~= puts@.take(i as int));
                assert(puts@.take(i + 1).last() == puts@[i as int]);
                assert(views_of(puts@[i as int].removed_urls@).take(m as int) =~= views_of(
                    puts@[i as int].removed_urls@,
                ));
            }
            i += 1;
        }
        proof {
            assert(puts@.take(n as int) =~= puts@);
        }
        out
    }

    /// Take a permit before an outbound notification fan-out; a caller
    /// finding none must wait for a release.
    pub fn acquire_notify_permit(&mut self) -> (r: PermitDecision)
        requires
            old(self).wf(),
        ensures
            final(self).wf(),
            final(self).spec_registry() == old(self).spec_registry(),
            final(self).spec_fetch_pool() == old(self).spec_fetch_pool(),
            final(self).spec_delegates() == old(self).spec_delegates(),
            final(self).spec_config() == old(self).spec_config(),
            r == crate::permit::spec_decision(old(self).spec_permits()),
            final(self).spec_permits() == crate::permit::spec_acquired(old(self).spec_permits()),
    {
        self.notify_permits.try_acquire()
    }

    /// Return a permit after an outbound notification completes.
    pub fn release_notify_permit(&mut self)
        requires
            old(self).wf(),
            old(self).spec_permits().spec_outstanding() > 0,
        ensures
            final(self).wf(),
            final(self).spec_registry() == old(self).spec_registry(),
            final(self).spec_fetch_pool() == old(self).spec_fetch_pool(),
            final(self).spec_delegates() == old(self).spec_delegates(),
            final(self).spec_config() == old(self).spec_config(),
            final(self).spec_permits() == crate::permit::spec_released(old(self).spec_permits()),
    {
        self.notify_permits.release()
    }

    /// Record that a space's lazily constructed actor has finished
    /// constructing: callers that arrived earlier stop awaiting. A
    /// space never created is left alone.
    pub fn mark_space_ready(&mut self, space: &KitsuneSpace) -> (r: bool)
        requires
            old(self).wf(),
        ensures
            final(self).wf(),
            r == old(self).spec_registry().spec_contains(space.spec_bytes()),
            final(self).spec_registry().spec_shutting_down() == old(
                self,
            ).spec_registry().spec_shutting_down(),
            final(self).spec_registry().spec_len() == old(self).spec_registry().spec_len(),
            r ==> final(self).spec_registry().spec_slot(space.spec_bytes()) is Some && final(self).spec_registry().spec_slot(space.spec_bytes())->Some_0.ready,
            !r ==> final(self).spec_registry().spec_entries() == old(
                self,
            ).spec_registry().spec_entries(),
            final(self).spec_fetch_pool() == old(self).spec_fetch_pool(),
            final(self).spec_delegates() == old(self).spec_delegates(),
            final(self).spec_permits() == old(self).spec_permits(),
            final(self).spec_config() == old(self).spec_config(),
    {
        self.registry.mark_ready(space)
    }

    /// Whether a fetch for this key is still pending.
    pub fn fetch_pending(&self, op_hash: &KitsuneOpHash, space: &KitsuneSpace) -> (r: bool)
        ensures
            r == (self.spec_fetch_pool().spec_entry(op_hash.spec_bytes(), space.spec_bytes())
                is Some),
    {
        self.fetch_pool.is_pending(op_hash, space)
    }

    /// How many notification permits are currently out.
    pub fn outstanding_notify_permits(&self) -> (r: usize)
        ensures
            r == self.spec_permits().spec_outstanding(),
    {
        self.notify_permits.outstanding
    }

    /// Begin the two-phase shutdown drain: plan a best-effort close of
    /// the host API and the transport, then an immediate shutdown of
    /// every registered space. From now on no new space may be created:
    /// a join arriving later fails fast with a shutdown error.
    pub fn handle_ghost_actor_shutdown(&mut self) -> (r: ShutdownPlan)
        requires
            old(self).wf(),
        ensures
            final(self).wf(),
            r.close_host,
            r.close_transport,
            r.space_tokens@.len() == old(self).spec_registry().spec_len(),
            forall|i: int| 0 <= i < r.space_tokens@.len() ==> #[trigger] r.space_tokens@[i] == i,
            final(self).spec_registry().spec_entries() == old(self).spec_registry().spec_entries(),
            final(self).spec_registry().spec_shutting_down(),
            final(self).spec_fetch_pool() == old(self).spec_fetch_pool(),
            final(self).spec_delegates() == old(self).spec_delegates(),
            final(self).spec_permits() == old(self).spec_permits(),
            forall|s: KitsuneSpace|
                #[trigger] route_result(
                    final(self).spec_registry().spec_entries(),
                    final(self).spec_registry().spec_shutting_down(),
                    SpaceEventKind::Join,
                    s,
                ) == RouteOutcome::Fail(RouterError::ShuttingDown),
    {
        let space_tokens = self.registry.all_tokens();
        self.registry.begin_shutdown();
        ShutdownPlan { close_host: true, close_transport: true, space_tokens }
    }
}

} // verus!
