//! Event dispatch and the unknown-space policy: one central table says,
//! for every kind of single-space event, what the routing layer owes
//! when the target space is not registered; and the fan-out helpers
//! aggregate results across all spaces.

use vstd::prelude::*;

use crate::error::RouterError;
use crate::registry::{goc_entries, goc_token, slot_of, SpaceRegistry, SpaceSlot};
use crate::types::{AgentInfoSigned, KitsuneSpace};

verus! {

/// The kinds of single-space events the routing actor receives.
#[derive(Debug, Clone, Copy, PartialEq, Eq, Structural)]
pub enum SpaceEventKind {
    /// An agent joins a space; brings the space into being.
    Join,
    /// An agent leaves a space.
    Leave,
    /// An RPC call to one agent, awaiting one response.
    RpcSingle,
    /// An RPC call gathering responses from several agents.
    RpcMulti,
    /// A broadcast into a neighborhood.
    Broadcast,
    /// A broadcast to a fixed set of agents.
    TargetedBroadcast,
    /// Newly integrated data is available locally.
    NewIntegratedData,
    /// Is this node an authority for a basis hash?
    AuthorityForHash,
    /// A diagnostics snapshot of one space.
    GetDiagnostics,
    /// A delegate broadcast arriving from a peer.
    IncomingDelegateBroadcast,
    /// A publish announcement arriving from a peer.
    IncomingPublish,
    /// Op data arrived; pending delegations may resume.
    ResolvePublishPendingDelegates,
    /// Gossip data arriving from a peer.
    IncomingGossip,
    /// Metric exchange messages arriving from a peer.
    IncomingMetricExchange,
    /// A fetch request to be sent to a source agent.
    Fetch,
}

/// What the routing layer owes the caller when the target space is not
/// registered.
#[derive(Debug, Clone, Copy, PartialEq, Eq, Structural)]
pub enum UnknownSpacePolicy {
    /// Create the space: the event itself brings it into being.
    Create,
    /// Fail with a routing error: the caller awaits a definitive answer.
    FailRouting,
    /// Log and drop: a best-effort event whose sender will retry.
    DropAndLog,
    /// Drop without a log line.
    DropSilent,
}

/// The central classification table: every event kind falls in exactly
/// one bucket. Calls that owe their caller a definitive, routable
/// answer fail; network events that only advance eventually consistent
/// state are logged and dropped, since a peer will retry; a leave or a
/// local-data notification for a space never joined is silently
/// complete; join alone creates the space it names.
pub open spec fn spec_classify(kind: SpaceEventKind) -> UnknownSpacePolicy {
    match kind {
        SpaceEventKind::Join => UnknownSpacePolicy::Create,
        SpaceEventKind::Leave => UnknownSpacePolicy::DropSilent,
        SpaceEventKind::RpcSingle => UnknownSpacePolicy::FailRouting,
        SpaceEventKind::RpcMulti => UnknownSpacePolicy::FailRouting,
        SpaceEventKind::Broadcast => UnknownSpacePolicy::FailRouting,
        SpaceEventKind::TargetedBroadcast => UnknownSpacePolicy::FailRouting,
        SpaceEventKind::NewIntegratedData => UnknownSpacePolicy::DropSilent,
        SpaceEventKind::AuthorityForHash => UnknownSpacePolicy::FailRouting,
        SpaceEventKind::GetDiagnostics => UnknownSpacePolicy::FailRouting,
        SpaceEventKind::IncomingDelegateBroadcast => UnknownSpacePolicy::DropAndLog,
        SpaceEventKind::IncomingPublish => UnknownSpacePolicy::DropAndLog,
        SpaceEventKind::ResolvePublishPendingDelegates => UnknownSpacePolicy::DropAndLog,
        SpaceEventKind::IncomingGossip => UnknownSpacePolicy::DropAndLog,
        SpaceEventKind::IncomingMetricExchange => UnknownSpacePolicy::DropAndLog,
        SpaceEventKind::Fetch => UnknownSpacePolicy::DropAndLog,
    }
}

/// The central classification table, as executable code.
pub fn classify(kind: SpaceEventKind) -> (r: UnknownSpacePolicy)
    ensures
        r == spec_classify(kind),
{
    match kind {
        SpaceEventKind::Join => UnknownSpacePolicy::Create,
        SpaceEventKind::Leave => UnknownSpacePolicy::DropSilent,
        SpaceEventKind::RpcSingle => UnknownSpacePolicy::FailRouting,
        SpaceEventKind::RpcMulti => UnknownSpacePolicy::FailRouting,
        SpaceEventKind::Broadcast => UnknownSpacePolicy::FailRouting,
        SpaceEventKind::TargetedBroadcast => UnknownSpacePolicy::FailRouting,
        SpaceEventKind::NewIntegratedData => UnknownSpacePolicy::DropSilent,
        SpaceEventKind::AuthorityForHash => UnknownSpacePolicy::FailRouting,
        SpaceEventKind::GetDiagnostics => UnknownSpacePolicy::FailRouting,
        SpaceEventKind::IncomingDelegateBroadcast => UnknownSpacePolicy::DropAndLog,
        SpaceEventKind::IncomingPublish => UnknownSpacePolicy::DropAndLog,
        SpaceEventKind::ResolvePublishPendingDelegates => UnknownSpacePolicy::DropAndLog,
        SpaceEventKind::IncomingGossip => UnknownSpacePolicy::DropAndLog,
        SpaceEventKind::IncomingMetricExchange => UnknownSpacePolicy::DropAndLog,
        SpaceEventKind::Fetch => UnknownSpacePolicy::DropAndLog,
    }
}

/// What the routing layer decided for one event.
#[derive(Debug, Clone, PartialEq, Eq)]
pub enum RouteOutcome {
    /// Forward to the space actor identified by this token, awaiting
    /// its completion.
    Forward(u64),
    /// Fail the caller with this error, synchronously.
    Fail(RouterError),
    /// Drop the event; `logged` says whether a log line is owed.
    Drop {
        /// Whether the drop leaves a log entry.
        logged: bool,
    },
}

/// What routing one event returns, as a function of the registry's
/// contents. A join is served by lookup-or-create, failing fast during
/// shutdown. Any other event on a registered space is forwarded; on an
/// unregistered space it receives the central table's policy: a
/// routing failure, returned synchronously, where a caller awaits a
/// definitive answer; a logged or silent drop where peers will retry.
pub open spec fn route_result(
    entries: Seq<(KitsuneSpace, SpaceSlot)>,
    shutting_down: bool,
    kind: SpaceEventKind,
    space: KitsuneSpace,
) -> RouteOutcome {
    if kind == SpaceEventKind::Join {
        if shutting_down {
            RouteOutcome::Fail(RouterError::ShuttingDown)
        } else {
            RouteOutcome::Forward(goc_token(entries, space.spec_bytes()))
        }
    } else if slot_of(entries, space.spec_bytes()) is Some {
        RouteOutcome::Forward(slot_of(entries, space.spec_bytes())->Some_0.token)
    } else {
        match spec_classify(kind) {
            UnknownSpacePolicy::Create => RouteOutcome::Forward(0),  // unreachable: only join creates
            UnknownSpacePolicy::FailRouting => RouteOutcome::Fail(RouterError::RoutingSpace(space)),
            UnknownSpacePolicy::DropAndLog => RouteOutcome::Drop { logged: true },
            UnknownSpacePolicy::DropSilent => RouteOutcome::Drop { logged: false },
        }
    }
}

/// What routing one event leaves in the registry: only a join, outside
/// shutdown, changes it — by creating its space if absent.
pub open spec fn route_entries(
    entries: Seq<(KitsuneSpace, SpaceSlot)>,
    shutting_down: bool,
    kind: SpaceEventKind,
    space: KitsuneSpace,
) -> Seq<(KitsuneSpace, SpaceSlot)> {
    if kind == SpaceEventKind::Join && !shutting_down {
        goc_entries(entries, space)
    } else {
        entries
    }
}

/// Route one single-space event: forward to the space's actor when the
/// space is registered (creating it first for a join), otherwise apply
/// the central table. A routing failure is returned synchronously —
/// nothing hangs and nothing is silently swallowed for a caller that
/// awaits an answer.
pub fn route_event(reg: &mut SpaceRegistry, kind: SpaceEventKind, space: KitsuneSpace) -> (r:
    RouteOutcome)
    requires
        old(reg).wf(),
    ensures
        final(reg).wf(),
        final(reg).spec_shutting_down() == old(reg).spec_shutting_down(),
        r == route_result(
            old(reg).spec_entries(),
            old(reg).spec_shutting_down(),
            kind,
            space,
        ),
        final(reg).spec_entries() == route_entries(
            old(reg).spec_entries(),
            old(reg).spec_shutting_down(),
            kind,
            space,
        ),
{
    if let SpaceEventKind::Join = kind {
        return match reg.get_or_create(space) {
            Ok(token) => RouteOutcome::Forward(token),
            Err(e) => RouteOutcome::Fail(e),
        };
    }
    match reg.lookup(&space) {
        Some(token) => RouteOutcome::Forward(token),
        None => match classify(kind) {
            UnknownSpacePolicy::Create => RouteOutcome::Forward(0),
            UnknownSpacePolicy::FailRouting => RouteOutcome::Fail(RouterError::RoutingSpace(space)),
            UnknownSpacePolicy::DropAndLog => RouteOutcome::Drop { logged: true },
            UnknownSpacePolicy::DropSilent => RouteOutcome::Drop { logged: false },
        },
    }
}

/// The agent infos carried by the successful results, in order,
/// skipping failed spaces.
pub open spec fn flatten_oks(s: Seq<Result<Vec<AgentInfoSigned>, RouterError>>) -> Seq<
    AgentInfoSigned,
>
    decreases s.len(),
{
    if s.len() == 0 {
        Seq::empty()
    } else {
        flatten_oks(s.drop_last()) + (match s.last() {
            Ok(infos) => infos@,
            Err(_) => Seq::empty(),
        })
    }
}

/// Aggregate the per-space results of a fan-out that gathers agent
/// infos: every successful space's records are kept, in space order; a
/// failed space is skipped rather than failing the whole call.
pub fn aggregate_agent_infos(results: Vec<Result<Vec<AgentInfoSigned>, RouterError>>) -> (r: Vec<
    AgentInfoSigned,
>)
    ensures
        r@ == flatten_oks(results@),
{
    let mut out: Vec<AgentInfoSigned> = Vec::new();
    let n = results.len();
    let mut results = results;
    let ghost all = results@;
    let mut i: usize = 0;
    while i < n
        invariant
            n == all.len(),
            results@ == all.skip(i as int),
            0 <= i <= n,
            out@ == flatten_oks(all.take(i as int)),
        decreases n - i,
    {
        let item = results.remove(0);
        proof {
            assert(item == all[i as int]);
            assert(results@ =~= all.skip(i + 1));
            assert(all.take(i + 1).drop_last() =~= all.take(i as int));
            assert(all.take(i + 1).last() == all[i as int]);
        }
        match item {
            Ok(mut infos) => {
                out.append(&mut infos);
            },
            Err(_) => {},
        }
        i += 1;
    }
    proof {
        assert(all.take(n as int) =~= all);
    }
    out
}

} // verus!
