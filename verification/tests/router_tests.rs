use space_router::dispatch::{
    aggregate_agent_infos, classify, RouteOutcome, SpaceEventKind, UnknownSpacePolicy,
};
use space_router::error::RouterError;
use space_router::fetch_pool::{FetchKey, FetchPool, FetchRetryOutcome};
use space_router::permit::{NotifyPermits, PermitDecision};
use space_router::registry::SpaceRegistry;
use space_router::router::{
    plan_meta_net, BootstrapNet, FetchDecision, MetaNetPlan, RouterConfig, SpaceRouter,
    TransportConfig, WebRtcConfigChoice,
};
use space_router::types::{
    AgentInfoSigned, FetchContext, FetchSource, GossipModuleType, KitsuneAgent, KitsuneBasis,
    KitsuneOpHash, KitsuneSpace, OpHashSized, TransferMethod,
};

fn space(b: u8) -> KitsuneSpace {
    KitsuneSpace(vec![b; 36])
}

fn agent(b: u8) -> KitsuneAgent {
    KitsuneAgent(vec![b; 36])
}

fn op_hash(b: u8) -> KitsuneOpHash {
    KitsuneOpHash(vec![b; 36])
}

fn config() -> RouterConfig {
    RouterConfig {
        concurrent_limit_per_thread: 2,
        fetch_max_attempts: 3,
        fetch_initial_backoff_ms: 100,
        gossip_outbound_bytes_per_s: 1000,
        publish_outbound_bytes_per_s: 1000,
    }
}

#[test]
fn get_or_create_hands_every_caller_the_same_token() {
    let mut reg = SpaceRegistry::new();
    let first = reg.get_or_create(space(1)).unwrap();
    let second = reg.get_or_create(space(1)).unwrap();
    let third = reg.get_or_create(space(1)).unwrap();
    assert_eq!(first, second);
    assert_eq!(second, third);
    // construction happened exactly once
    assert_eq!(reg.len(), 1);
    // an unrelated space constructs separately, once
    let other = reg.get_or_create(space(2)).unwrap();
    assert_ne!(first, other);
    assert_eq!(reg.len(), 2);
}

#[test]
fn get_or_create_fails_fast_during_shutdown() {
    let mut reg = SpaceRegistry::new();
    reg.get_or_create(space(1)).unwrap();
    reg.begin_shutdown();
    assert_eq!(reg.get_or_create(space(2)), Err(RouterError::ShuttingDown));
    assert_eq!(reg.len(), 1);
}

#[test]
fn rpc_to_unregistered_space_fails_synchronously() {
    let mut router = SpaceRouter::new(config());
    let r = router.handle_rpc_single(space(9), agent(1), vec![1, 2, 3], Some(1000));
    match r {
        RouteOutcome::Fail(RouterError::RoutingSpace(s)) => assert_eq!(s, space(9)),
        other => panic!("expected a routing failure, got {:?}", other),
    }
    let r = router.handle_broadcast(
        space(9),
        KitsuneBasis(vec![0; 36]),
        1000,
        space_router::types::BroadcastData::User(vec![1]),
    );
    assert!(matches!(r, RouteOutcome::Fail(RouterError::RoutingSpace(_))));
    let r = router.handle_authority_for_hash(space(9), KitsuneBasis(vec![0; 36]));
    assert!(matches!(r, RouteOutcome::Fail(RouterError::RoutingSpace(_))));
}

#[test]
fn gossip_to_unregistered_space_drops_with_a_log() {
    let mut router = SpaceRouter::new(config());
    let r = router.handle_incoming_gossip(
        space(9),
        b"wss://peer.example".to_vec(),
        vec![1, 2, 3],
        GossipModuleType::ShardedRecent,
    );
    assert_eq!(r, RouteOutcome::Drop { logged: true });
    // metric exchange is best-effort too and owes a log line as well
    let r = router.handle_incoming_metric_exchange(space(9), vec![]);
    assert_eq!(r, RouteOutcome::Drop { logged: true });
    // a leave for a space never joined is silently complete
    let r = router.handle_leave(space(9), agent(1));
    assert_eq!(r, RouteOutcome::Drop { logged: false });
}

#[test]
fn join_creates_the_space_and_later_events_are_forwarded() {
    let mut router = SpaceRouter::new(config());
    let r = router.handle_join(space(1), agent(1), None, None);
    let token = match r {
        RouteOutcome::Forward(t) => t,
        other => panic!("join should forward, got {:?}", other),
    };
    let r = router.handle_rpc_single(space(1), agent(1), vec![], None);
    assert_eq!(r, RouteOutcome::Forward(token));
    let r = router.handle_leave(space(1), agent(1));
    assert_eq!(r, RouteOutcome::Forward(token));
}

#[test]
fn every_event_kind_has_exactly_one_policy() {
    let kinds = [
        SpaceEventKind::Join,
        SpaceEventKind::Leave,
        SpaceEventKind::RpcSingle,
        SpaceEventKind::RpcMulti,
        SpaceEventKind::Broadcast,
        SpaceEventKind::TargetedBroadcast,
        SpaceEventKind::NewIntegratedData,
        SpaceEventKind::AuthorityForHash,
        SpaceEventKind::GetDiagnostics,
        SpaceEventKind::IncomingDelegateBroadcast,
        SpaceEventKind::IncomingPublish,
        SpaceEventKind::ResolvePublishPendingDelegates,
        SpaceEventKind::IncomingGossip,
        SpaceEventKind::IncomingMetricExchange,
        SpaceEventKind::Fetch,
    ];
    let mut create = 0;
    let mut fail = 0;
    let mut drop_log = 0;
    let mut drop_silent = 0;
    for kind in kinds {
        match classify(kind) {
            UnknownSpacePolicy::Create => create += 1,
            UnknownSpacePolicy::FailRouting => fail += 1,
            UnknownSpacePolicy::DropAndLog => drop_log += 1,
            UnknownSpacePolicy::DropSilent => drop_silent += 1,
        }
    }
    assert_eq!(create, 1);
    assert_eq!(fail, 6);
    assert_eq!(drop_log, 6);
    assert_eq!(drop_silent, 2);
}

#[test]
fn fan_out_skips_a_failed_space_and_keeps_the_rest() {
    let infos_a = vec![AgentInfoSigned(vec![1]), AgentInfoSigned(vec![2])];
    let infos_c = vec![AgentInfoSigned(vec![3])];
    let results = vec![
        Ok(infos_a.clone()),
        Err(RouterError::Transport),
        Ok(infos_c.clone()),
    ];
    let all = aggregate_agent_infos(results);
    assert_eq!(
        all,
        vec![AgentInfoSigned(vec![1]), AgentInfoSigned(vec![2]), AgentInfoSigned(vec![3])]
    );
}

#[test]
fn fetch_pool_merges_contexts_by_bitwise_or() {
    let mut pool = FetchPool::new(3, 100);
    let key = FetchKey { op_hash: op_hash(7), space: space(1) };
    pool.push(key, FetchContext(0b0001), agent(1));
    let key = FetchKey { op_hash: op_hash(7), space: space(1) };
    pool.push(key, FetchContext(0b0100), agent(2));
    assert_eq!(pool.len(), 1);
    let e = pool.next_ready(0).unwrap();
    assert_eq!(e.context, FetchContext(0b0101));
    // the most recently seen source is preferred
    assert_eq!(e.source, agent(2));
}

#[test]
fn fetch_round_trip_removes_the_entry_for_good() {
    let mut pool = FetchPool::new(3, 100);
    let key = FetchKey { op_hash: op_hash(7), space: space(1) };
    pool.push(key, FetchContext(1), agent(1));
    assert_eq!(pool.len(), 1);
    // unsolicited data for the key arrives via the response path
    let removed = pool.on_unsolicited_data(&op_hash(7), &space(1));
    assert!(removed.is_some());
    assert_eq!(pool.len(), 0);
    // no further fetch attempt is made for it
    assert!(pool.next_ready(u64::MAX).is_none());
}

#[test]
fn fetch_failure_backs_off_then_drops_at_the_bound() {
    let mut pool = FetchPool::new(1, 100);
    let key = FetchKey { op_hash: op_hash(7), space: space(1) };
    pool.push(key, FetchContext(1), agent(1));
    // first failure: rescheduled with backoff
    let r = pool.on_fetch_failure(&op_hash(7), &space(1), 1000);
    assert_eq!(r, FetchRetryOutcome::Rescheduled);
    assert!(pool.next_ready(1000).is_none());
    assert!(pool.next_ready(1100).is_some());
    // second failure exceeds max_attempts == 1: dropped with a log
    let r = pool.on_fetch_failure(&op_hash(7), &space(1), 2000);
    assert_eq!(r, FetchRetryOutcome::Dropped);
    assert_eq!(pool.len(), 0);
    // a key that is not pending is reported unknown
    let r = pool.on_fetch_failure(&op_hash(7), &space(1), 3000);
    assert_eq!(r, FetchRetryOutcome::Unknown);
}

#[test]
fn pending_delegate_resolves_exactly_once() {
    let mut router = SpaceRouter::new(config());
    router.handle_join(space(1), agent(1), None, None);
    let hashes = vec![OpHashSized { hash: op_hash(7), size: Some(64) }];
    let missing = vec![true];
    let r = router.handle_incoming_publish(
        space(1),
        agent(1),
        agent(2),
        TransferMethod::Publish,
        hashes,
        FetchContext(1),
        Some((KitsuneBasis(vec![3; 36]), 4, 8)),
        &missing,
    );
    assert!(matches!(r, RouteOutcome::Forward(_)));

    // an unrelated hash is a no-op
    let cmd = router.handle_resolve_publish_pending_delegates(space(1), op_hash(8));
    assert!(cmd.is_none());

    // the matching hash hands the stored delegation out, exactly once
    let cmd = router
        .handle_resolve_publish_pending_delegates(space(1), op_hash(7))
        .expect("the pending delegation should resolve");
    assert_eq!(cmd.space, space(1));
    assert_eq!(cmd.basis, KitsuneBasis(vec![3; 36]));
    assert_eq!(cmd.to_agent, agent(1));
    assert_eq!(cmd.mod_idx, 4);
    assert_eq!(cmd.mod_cnt, 8);

    let cmd = router.handle_resolve_publish_pending_delegates(space(1), op_hash(7));
    assert!(cmd.is_none());
}

#[test]
fn publish_to_unknown_space_is_logged_and_dropped() {
    let mut router = SpaceRouter::new(config());
    let hashes = vec![OpHashSized { hash: op_hash(7), size: None }];
    let missing = vec![true];
    let r = router.handle_incoming_publish(
        space(1),
        agent(1),
        agent(2),
        TransferMethod::Publish,
        hashes,
        FetchContext(1),
        None,
        &missing,
    );
    assert_eq!(r, RouteOutcome::Drop { logged: true });
    assert!(router.next_fetch(u64::MAX).is_none());
}

#[test]
fn publish_enqueues_missing_hashes_for_the_fetch_task() {
    let mut router = SpaceRouter::new(config());
    router.handle_join(space(1), agent(1), None, None);
    let hashes = vec![
        OpHashSized { hash: op_hash(7), size: None },
        OpHashSized { hash: op_hash(8), size: None },
        OpHashSized { hash: op_hash(9), size: None },
    ];
    let missing = vec![true, false, true];
    router.handle_incoming_publish(
        space(1),
        agent(1),
        agent(2),
        TransferMethod::Publish,
        hashes,
        FetchContext(1),
        None,
        &missing,
    );
    let e = router.next_fetch(0).expect("a fetch should be pending");
    assert_eq!(e.key.op_hash, op_hash(7));
    assert_eq!(e.source, agent(2));
    // the present hash was not enqueued
    let removed = router.on_fetch_success(space(1), op_hash(8));
    assert!(removed.is_none());
}

#[test]
fn extra_broadcast_waits_until_a_permit_frees() {
    let mut permits = NotifyPermits::new(2);
    assert_eq!(permits.try_acquire(), PermitDecision::Granted);
    assert_eq!(permits.try_acquire(), PermitDecision::Granted);
    // the third broadcast must wait: it is not failed and not dropped
    assert_eq!(permits.try_acquire(), PermitDecision::MustWait);
    assert_eq!(permits.available(), 0);
    // one of the first two completes; the waiting caller is admitted
    permits.release();
    assert_eq!(permits.try_acquire(), PermitDecision::Granted);
}

#[test]
fn handle_fetch_wraps_the_key_for_the_space_actor() {
    let mut router = SpaceRouter::new(config());
    router.handle_join(space(1), agent(1), None, None);
    let key = FetchKey { op_hash: op_hash(7), space: space(1) };
    let r = router.handle_fetch(key, space(1), FetchSource::Agent(agent(5)));
    match r {
        FetchDecision::Notify(cmd) => {
            assert_eq!(cmd.agent, agent(5));
            assert_eq!(cmd.space, space(1));
            assert_eq!(cmd.keys.len(), 1);
            assert_eq!(cmd.keys[0].op_hash, op_hash(7));
        },
        other => panic!("expected a notify decision, got {:?}", other),
    }
    let key = FetchKey { op_hash: op_hash(7), space: space(2) };
    let r = router.handle_fetch(key, space(2), FetchSource::Agent(agent(5)));
    assert_eq!(r, FetchDecision::Dropped { logged: true });
}

#[test]
fn shutdown_plans_both_phases_and_refuses_new_spaces() {
    let mut router = SpaceRouter::new(config());
    router.handle_join(space(1), agent(1), None, None);
    router.handle_join(space(2), agent(1), None, None);
    let plan = router.handle_ghost_actor_shutdown();
    assert!(plan.close_host);
    assert!(plan.close_transport);
    assert_eq!(plan.space_tokens, vec![0, 1]);
    let r = router.handle_join(space(3), agent(1), None, None);
    assert_eq!(r, RouteOutcome::Fail(RouterError::ShuttingDown));
}

#[test]
fn plan_meta_net_picks_the_first_transport() {
    let r = plan_meta_net(vec![]);
    assert_eq!(r, Err(RouterError::NoValidTransport));

    let r = plan_meta_net(vec![TransportConfig::Mem {}]);
    assert_eq!(r, Ok((MetaNetPlan::Mem, BootstrapNet::Tx5)));

    let r = plan_meta_net(vec![TransportConfig::WebRTC {
        signal_url: b"wss://signal.example".to_vec(),
        webrtc_config: None,
    }]);
    assert_eq!(
        r,
        Ok((
            MetaNetPlan::WebRtc {
                signal_url: b"wss://signal.example".to_vec(),
                config: WebRtcConfigChoice::BuiltInDefault,
            },
            BootstrapNet::Tx5,
        ))
    );

    let r = plan_meta_net(vec![TransportConfig::WebRTC {
        signal_url: b"wss://signal.example".to_vec(),
        webrtc_config: Some(b"{}".to_vec()),
    }]);
    assert_eq!(
        r,
        Ok((
            MetaNetPlan::WebRtc {
                signal_url: b"wss://signal.example".to_vec(),
                config: WebRtcConfigChoice::Given(b"{}".to_vec()),
            },
            BootstrapNet::Tx5,
        ))
    );
}

#[test]
fn fan_out_targets_cover_every_registered_space() {
    let mut router = SpaceRouter::new(config());
    router.handle_join(space(1), agent(1), None, None);
    router.handle_join(space(2), agent(1), None, None);
    router.handle_join(space(3), agent(1), None, None);
    assert_eq!(router.handle_new_address(&b"wss://me.example".to_vec()), vec![0, 1, 2]);
    assert_eq!(router.handle_new_con(&b"wss://peer.example".to_vec()), vec![0, 1, 2]);
    assert_eq!(router.handle_del_con(&b"wss://peer.example".to_vec()), vec![0, 1, 2]);
    assert_eq!(router.handle_get_all_local_joined_agent_infos(), vec![0, 1, 2]);
    // a metrics dump filtered to one space covers exactly that space
    assert_eq!(router.handle_dump_network_metrics(Some(&space(2))), vec![1]);
    assert_eq!(router.handle_dump_network_metrics(Some(&space(9))), Vec::<u64>::new());
    assert_eq!(router.handle_dump_network_metrics(None), vec![0, 1, 2]);
}

#[test]
fn urls_to_close_flattens_displaced_urls_in_order() {
    let router = SpaceRouter::new(config());
    let puts = vec![
        space_router::types::AgentInfoPut {
            removed_urls: vec![b"wss://a.example".to_vec(), b"wss://b.example".to_vec()],
        },
        space_router::types::AgentInfoPut { removed_urls: vec![] },
        space_router::types::AgentInfoPut { removed_urls: vec![b"wss://c.example".to_vec()] },
    ];
    assert_eq!(
        router.urls_to_close(&puts),
        vec![
            b"wss://a.example".to_vec(),
            b"wss://b.example".to_vec(),
            b"wss://c.example".to_vec(),
        ]
    );
}
