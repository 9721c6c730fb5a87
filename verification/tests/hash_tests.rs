use space_router::error::HoloHashError;
use space_router::hash::{
    bytes_to_loc, holo_dht_location_bytes, AgentPubKey, AnyDhtHash, DhtOpHash, DnaHash, EntryHash,
    ExternalHash, HoloHash, NetIdHash, HOLO_HASH_UNTYPED_LEN,
};
use space_router::hash_type::{self, HashType};

fn assert_type<T: HashType>(t: &str, h: HoloHash<T>) {
    assert_eq!(3_688_618_971, h.get_loc().as_u32());
    assert_eq!(h.hash_type().hash_name(), t);
    assert_eq!(
        "[219, 219, 219, 219, 219, 219, 219, 219, 219, 219, 219, 219, 219, 219, 219, 219, 219, 219, 219, 219, 219, 219, 219, 219, 219, 219, 219, 219, 219, 219, 219, 219]",
        format!("{:?}", h.get_raw_32()),
    );
}

#[test]
fn test_enum_types() {
    assert_type("DnaHash", DnaHash::from_raw_36(vec![0xdb; HOLO_HASH_UNTYPED_LEN]));
    assert_type("NetIdHash", NetIdHash::from_raw_36(vec![0xdb; HOLO_HASH_UNTYPED_LEN]));
    assert_type("AgentPubKey", AgentPubKey::from_raw_36(vec![0xdb; HOLO_HASH_UNTYPED_LEN]));
    assert_type("EntryHash", EntryHash::from_raw_36(vec![0xdb; HOLO_HASH_UNTYPED_LEN]));
    assert_type("DhtOpHash", DhtOpHash::from_raw_36(vec![0xdb; HOLO_HASH_UNTYPED_LEN]));
    assert_type("ExternalHash", ExternalHash::from_raw_36(vec![0xdb; HOLO_HASH_UNTYPED_LEN]));
}

#[test]
fn test_try_from_raw_39_errors_with_bad_size() {
    let mut raw = vec![132, 45, 36];
    raw.extend(vec![0xdb; 35]);

    let res = DnaHash::try_from_raw_39(raw);
    assert_eq!(res, Err(HoloHashError::BadSize));
}

#[test]
fn test_try_from_raw_39_errors_with_bad_prefix() {
    let res = DnaHash::try_from_raw_39(vec![0xdb; 39]);
    assert!(matches!(res, Err(HoloHashError::BadPrefix { .. })));
}

#[test]
fn test_try_from_raw_36_and_type_errors_with_bad_size() {
    let res = HoloHash::try_from_raw_36_and_type(vec![0xdb; 35], hash_type::Dna);
    assert_eq!(res, Err(HoloHashError::BadSize));
}

#[test]
fn test_try_from_raw_36_and_type() {
    let res = HoloHash::try_from_raw_36_and_type(vec![0xdb; 36], hash_type::Dna);
    assert!(res.is_ok());
}

#[test]
fn test_from_raw_36_and_type() {
    HoloHash::from_raw_36_and_type(vec![0xdb; 36], hash_type::Dna);
}

#[test]
fn test_try_from_raw_39() {
    let mut raw = vec![132, 45, 36];
    raw.extend(vec![0xdb; 36]);

    let res = DnaHash::try_from_raw_39(raw);
    assert!(res.is_ok());
}

#[test]
fn test_from_raw_39() {
    let mut raw = vec![132, 45, 36];
    raw.extend(vec![0xdb; 36]);

    DnaHash::from_raw_39(raw);
}

#[test]
fn test_bytes_to_loc_little_endian() {
    assert_eq!(bytes_to_loc(&[0x78, 0x56, 0x34, 0x12]), 0x12345678);
    assert_eq!(bytes_to_loc(&[0, 0, 0, 0]), 0);
    assert_eq!(bytes_to_loc(&[0xff, 0xff, 0xff, 0xff]), u32::MAX);
}

#[test]
fn test_retype_swaps_prefix_and_keeps_untyped_bytes() {
    let dna = DnaHash::from_raw_36(vec![0xab; 36]);
    let entry: EntryHash = dna.retype(hash_type::Entry);
    assert_eq!(entry.get_raw_39()[0..3], [132, 33, 36]);
    assert_eq!(entry.get_raw_36(), &[0xab; 36][..]);
}

#[test]
fn test_any_dht_accepts_entry_and_action_prefixes() {
    let mut entry_raw = vec![132, 33, 36];
    entry_raw.extend(vec![7u8; 36]);
    let h = AnyDhtHash::try_from_raw_39(entry_raw).unwrap();
    assert_eq!(h.hash_type().hash_name(), "EntryHash");

    let mut action_raw = vec![132, 41, 36];
    action_raw.extend(vec![7u8; 36]);
    let h = AnyDhtHash::try_from_raw_39(action_raw).unwrap();
    assert_eq!(h.hash_type().hash_name(), "ActionHash");

    let mut dna_raw = vec![132, 45, 36];
    dna_raw.extend(vec![7u8; 36]);
    assert!(matches!(
        AnyDhtHash::try_from_raw_39(dna_raw),
        Err(HoloHashError::BadPrefix { .. })
    ));
}

#[test]
fn test_to_hex_writes_lower_case_pairs() {
    let h = DnaHash::from_raw_36(vec![0xdb; 36]);
    let hex = h.to_hex();
    assert_eq!(hex.len(), 78);
    assert!(hex.starts_with("842d24"));
    assert!(hex.ends_with("dbdbdb"));
}

#[test]
fn test_from_raw_32_computes_location_from_digest() {
    let core = vec![5u8; 32];
    let h = DnaHash::from_raw_32(core.clone());
    assert_eq!(h.get_raw_32(), &core[..]);

    let digest = blake2b_simd::Params::new()
        .hash_length(16)
        .to_state()
        .update(&core)
        .finalize();
    let d = digest.as_bytes();
    let expected = [
        d[0] ^ d[4] ^ d[8] ^ d[12],
        d[1] ^ d[5] ^ d[9] ^ d[13],
        d[2] ^ d[6] ^ d[10] ^ d[14],
        d[3] ^ d[7] ^ d[11] ^ d[15],
    ];
    assert_eq!(&h.get_raw_39()[35..39], &expected[..]);
    assert_eq!(holo_dht_location_bytes(&core), expected.to_vec());
}

#[test]
fn test_into_inner_returns_full_bytes() {
    let mut raw = vec![132, 45, 36];
    raw.extend(vec![0x11; 36]);
    let h = DnaHash::from_raw_39(raw.clone());
    assert_eq!(h.into_inner(), raw);
}
