use base64::Engine;
use space_router::error::RouterError;
use space_router::stats::{
    add_peer_record, agent_key_of, aggregate_metric_dumps, build_network_stats, dna_key_of,
    this_id_of, DocEntry, PeerStoreEntry, StatsVal,
};

fn doc(entries: Vec<(&[u8], StatsVal)>) -> StatsVal {
    StatsVal::Doc(
        entries
            .into_iter()
            .map(|(k, v)| DocEntry { key: k.to_vec(), val: v })
            .collect(),
    )
}

fn lookup<'a>(v: &'a StatsVal, key: &[u8]) -> Option<&'a StatsVal> {
    match v {
        StatsVal::Doc(es) => es.iter().find(|e| e.key == key).map(|e| &e.val),
        _ => None,
    }
}

fn b64(data: &[u8]) -> Vec<u8> {
    base64::engine::general_purpose::URL_SAFE_NO_PAD.encode(data).into_bytes()
}

#[test]
fn report_keys_carry_the_type_prefix_and_base64() {
    let space = [1u8, 2, 3, 4];
    let mut expected = b"uhC0k".to_vec();
    expected.extend(b64(&space));
    assert_eq!(dna_key_of(&space), expected);

    let agent = [9u8, 8, 7];
    let mut expected = b"uhCAk".to_vec();
    expected.extend(b64(&agent));
    assert_eq!(agent_key_of(&agent), expected);
}

#[test]
fn this_id_reads_the_transport_identity() {
    let stats = doc(vec![(b"thisId", StatsVal::Text(b"me".to_vec()))]);
    assert_eq!(this_id_of(&stats), b"me".to_vec());
    assert_eq!(this_id_of(&StatsVal::Null), Vec::<u8>::new());
    let stats = doc(vec![(b"thisId", StatsVal::UInt(3))]);
    assert_eq!(this_id_of(&stats), Vec::<u8>::new());
}

#[test]
fn add_peer_record_builds_the_nested_tables() {
    let stats = doc(vec![(b"thisId", StatsVal::Text(b"me".to_vec()))]);
    let out = add_peer_record(
        stats,
        b"peer-1".to_vec(),
        b"uhC0kAAAA".to_vec(),
        b"uhCAkBBBB".to_vec(),
        12345,
    )
    .unwrap();
    let peer = lookup(&out, b"peer-1").expect("the peer entry should exist");
    let by_dna = lookup(peer, b"hcDnaHashesToAgents").expect("the space table should exist");
    let agents = lookup(by_dna, b"uhC0kAAAA").expect("the agent table should exist");
    let record = lookup(agents, b"uhCAkBBBB").expect("the agent record should exist");
    assert_eq!(lookup(record, b"expiresAtMillis"), Some(&StatsVal::UInt(12345)));
    // the untouched entry is still served
    assert_eq!(lookup(&out, b"thisId"), Some(&StatsVal::Text(b"me".to_vec())));
}

#[test]
fn add_peer_record_refuses_a_non_document_level() {
    let stats = doc(vec![(b"peer-1", StatsVal::UInt(7))]);
    let r = add_peer_record(
        stats,
        b"peer-1".to_vec(),
        b"uhC0kAAAA".to_vec(),
        b"uhCAkBBBB".to_vec(),
        1,
    );
    assert_eq!(r, Err(RouterError::InvalidStats));

    let r = add_peer_record(
        StatsVal::Text(b"nope".to_vec()),
        b"peer-1".to_vec(),
        b"k".to_vec(),
        b"a".to_vec(),
        1,
    );
    assert_eq!(r, Err(RouterError::InvalidStats));
}

#[test]
fn build_network_stats_skips_self_and_url_less_peers() {
    let stats = doc(vec![(b"thisId", StatsVal::Text(b"me".to_vec()))]);
    let peers = vec![
        PeerStoreEntry {
            url_digest: None,
            space: vec![1; 36],
            agent: vec![2; 36],
            expires_at_ms: 10,
        },
        PeerStoreEntry {
            url_digest: Some(b"me".to_vec()),
            space: vec![1; 36],
            agent: vec![3; 36],
            expires_at_ms: 20,
        },
    ];
    let out = build_network_stats(stats, peers).unwrap();
    // only the transport identity remains: nothing was added
    match &out {
        StatsVal::Doc(es) => assert_eq!(es.len(), 1),
        other => panic!("expected a document, got {:?}", other),
    }
}

#[test]
fn build_network_stats_files_each_reachable_peer() {
    let stats = doc(vec![(b"thisId", StatsVal::Text(b"me".to_vec()))]);
    let space_bytes = vec![1u8; 36];
    let agent_bytes = vec![2u8; 36];
    let peers = vec![PeerStoreEntry {
        url_digest: Some(b"peer-1".to_vec()),
        space: space_bytes.clone(),
        agent: agent_bytes.clone(),
        expires_at_ms: 5000,
    }];
    let out = build_network_stats(stats, peers).unwrap();
    let peer = lookup(&out, b"peer-1").expect("the peer entry should exist");
    let by_dna = lookup(peer, b"hcDnaHashesToAgents").expect("the space table should exist");
    let dna_key = dna_key_of(&space_bytes);
    let agents = lookup(by_dna, &dna_key).expect("the agent table should exist");
    let agent_key = agent_key_of(&agent_bytes);
    let record = lookup(agents, &agent_key).expect("the agent record should exist");
    assert_eq!(lookup(record, b"expiresAtMillis"), Some(&StatsVal::UInt(5000)));
}

#[test]
fn build_network_stats_propagates_a_malformed_report() {
    let stats = StatsVal::List(vec![]);
    let peers = vec![PeerStoreEntry {
        url_digest: Some(b"peer-1".to_vec()),
        space: vec![1; 36],
        agent: vec![2; 36],
        expires_at_ms: 1,
    }];
    assert_eq!(build_network_stats(stats, peers), Err(RouterError::InvalidStats));
}

#[test]
fn metric_dumps_keep_the_spaces_that_answered() {
    let results = vec![Ok(StatsVal::UInt(1)), Ok(StatsVal::UInt(2))];
    assert_eq!(aggregate_metric_dumps(results), vec![StatsVal::UInt(1), StatsVal::UInt(2)]);

    // a space that could not be reached is skipped, not fatal
    let results = vec![
        Ok(StatsVal::UInt(1)),
        Err(RouterError::Timeout),
        Ok(StatsVal::UInt(3)),
    ];
    assert_eq!(aggregate_metric_dumps(results), vec![StatsVal::UInt(1), StatsVal::UInt(3)]);
}

#[test]
fn build_network_stats_still_files_peers_after_skipping_self() {
    let stats = doc(vec![(b"thisId", StatsVal::Text(b"me".to_vec()))]);
    let peers = vec![
        PeerStoreEntry {
            url_digest: Some(b"me".to_vec()),
            space: vec![1; 36],
            agent: vec![9; 36],
            expires_at_ms: 1,
        },
        PeerStoreEntry {
            url_digest: Some(b"peer-2".to_vec()),
            space: vec![1; 36],
            agent: vec![2; 36],
            expires_at_ms: 7777,
        },
    ];
    let out = build_network_stats(stats, peers).unwrap();
    // the local node gained no entry of its own
    assert!(lookup(&out, b"me").is_none());
    // the other peer was still processed
    let peer = lookup(&out, b"peer-2").expect("the peer entry should exist");
    let by_dna = lookup(peer, b"hcDnaHashesToAgents").expect("the space table should exist");
    let agents = lookup(by_dna, &dna_key_of(&[1u8; 36])).expect("the agent table should exist");
    let record = lookup(agents, &agent_key_of(&[2u8; 36])).expect("the agent record should exist");
    assert_eq!(lookup(record, b"expiresAtMillis"), Some(&StatsVal::UInt(7777)));
}
