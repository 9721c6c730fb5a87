use space_router::error::RouterError;
use space_router::event::{
    FetchOpDataEvtQuery, FetchOpDataQuery, GetActivityOptions, GetRequest, HolochainP2pEvent,
    RegionBounds,
};
use space_router::hash::{AgentPubKey, DnaHash};
use space_router::types::KitsuneOpHash;

fn dna(b: u8) -> DnaHash {
    DnaHash::from_raw_36(vec![b; 36])
}

fn agent(b: u8) -> AgentPubKey {
    AgentPubKey::from_raw_36(vec![b; 36])
}

#[test]
fn get_request_defaults_to_all() {
    assert!(matches!(GetRequest::default(), GetRequest::All));
}

#[test]
fn get_activity_options_default_includes_valid_activity_and_warrants() {
    let o = GetActivityOptions::default();
    assert!(o.include_valid_activity);
    assert!(o.include_warrants);
    assert!(!o.include_rejected_activity);
    assert!(!o.include_full_records);
}

#[test]
fn from_kitsune_retypes_each_hash() {
    let kit = FetchOpDataEvtQuery::Hashes {
        op_hash_list: vec![KitsuneOpHash(vec![5; 36]), KitsuneOpHash(vec![6; 36])],
        include_limbo: true,
    };
    match FetchOpDataQuery::from_kitsune(kit) {
        FetchOpDataQuery::Hashes { op_hash_list, include_limbo } => {
            assert!(include_limbo);
            assert_eq!(op_hash_list.len(), 2);
            assert_eq!(op_hash_list[0].get_raw_39()[0..3], [132, 36, 36]);
            assert_eq!(op_hash_list[0].get_raw_36(), &[5u8; 36][..]);
            assert_eq!(op_hash_list[1].get_raw_36(), &[6u8; 36][..]);
        },
        other => panic!("expected a hashes query, got {:?}", other),
    }

    let bounds = RegionBounds { x_min: 0, x_max: 10, t_min: 0, t_max: 100 };
    let kit = FetchOpDataEvtQuery::Regions(vec![bounds]);
    match FetchOpDataQuery::from_kitsune(kit) {
        FetchOpDataQuery::Regions(rs) => {
            assert_eq!(rs, vec![RegionBounds { x_min: 0, x_max: 10, t_min: 0, t_max: 100 }]);
        },
        other => panic!("expected a regions query, got {:?}", other),
    }
}

#[test]
fn dna_hash_is_read_off_every_event_variant() {
    let e = HolochainP2pEvent::Publish {
        dna_hash: dna(1),
        request_validation_receipt: false,
        countersigning_session: false,
        ops: vec![],
    };
    assert_eq!(e.dna_hash(), &dna(1));

    let e = HolochainP2pEvent::SignNetworkData {
        dna_hash: dna(2),
        to_agent: agent(3),
        data: vec![1, 2],
    };
    assert_eq!(e.dna_hash(), &dna(2));
}

#[test]
fn target_agents_is_read_off_single_target_events() {
    let e = HolochainP2pEvent::CallRemote {
        dna_hash: dna(1),
        to_agent: agent(7),
        zome_call_params_serialized: vec![],
        signature: vec![],
    };
    assert_eq!(e.target_agents(), &agent(7));
}

#[test]
fn error_kinds_name_themselves() {
    assert_eq!(RouterError::Timeout.kind_name(), "timeout");
    assert_eq!(RouterError::Transport.kind_name(), "transport failure");
    assert_eq!(RouterError::ShuttingDown.kind_name(), "shutting down");
    assert_eq!(RouterError::NoValidTransport.kind_name(), "no valid transport");
    assert_eq!(RouterError::InvalidStats.kind_name(), "invalid stats");
    assert_eq!(
        RouterError::RoutingSpace(space_router::types::KitsuneSpace(vec![1])).kind_name(),
        "routing space error"
    );
}
