use forest_core::content_id::Cid;
use forest_core::content_id::CidError;
use forest_core::content_id::CidParts;
use forest_core::content_id::Version;
use forest_core::content_id::BLAKE2B_256;
use forest_core::content_id::DAG_CBOR;
use forest_core::content_id::DAG_PB;
use forest_core::content_id::IDENTITY;
use forest_core::content_id::RAW;
use forest_core::content_id::SHA2_256;

fn outside(cid: &Cid) -> cid::Cid {
    let hash = cid::multihash::Multihash::<64>::wrap(cid.hash_code(), cid.digest()).unwrap();
    match cid.version() {
        Version::V0 => cid::Cid::new_v0(hash).unwrap(),
        Version::V1 => cid::Cid::new_v1(cid.codec(), hash),
    }
}

#[test]
fn new_v1_keeps_its_parts() {
    let cid = Cid::new_v1(DAG_CBOR, BLAKE2B_256, vec![7u8; 32]).unwrap();
    assert_eq!(cid.version(), Version::V1);
    assert_eq!(cid.codec(), 0x71);
    assert_eq!(cid.hash_code(), 0xb220);
    assert_eq!(cid.digest(), &vec![7u8; 32]);
}

#[test]
fn new_v1_takes_a_digest_of_64_bytes_and_no_longer() {
    assert!(Cid::new_v1(RAW, IDENTITY, vec![1u8; 64]).is_some());
    assert!(Cid::new_v1(RAW, IDENTITY, vec![1u8; 65]).is_none());
    assert!(Cid::new_v1(RAW, IDENTITY, Vec::new()).is_some());
}

#[test]
fn new_v0_takes_32_bytes_only() {
    let cid = Cid::new_v0(vec![9u8; 32]).unwrap();
    assert_eq!(cid.version(), Version::V0);
    assert_eq!(cid.codec(), DAG_PB);
    assert_eq!(cid.hash_code(), SHA2_256);
    assert!(Cid::new_v0(vec![9u8; 31]).is_none());
    assert!(Cid::new_v0(vec![9u8; 33]).is_none());
}

#[test]
fn from_parts_checks_version_0() {
    let good = CidParts { version: Version::V0, codec: DAG_PB, hash_code: SHA2_256, digest: vec![0u8; 32] };
    assert!(Cid::from_parts(good).is_some());
    let wrong_codec = CidParts { version: Version::V0, codec: RAW, hash_code: SHA2_256, digest: vec![0u8; 32] };
    assert!(Cid::from_parts(wrong_codec).is_none());
    let wrong_hash = CidParts { version: Version::V0, codec: DAG_PB, hash_code: BLAKE2B_256, digest: vec![0u8; 32] };
    assert!(Cid::from_parts(wrong_hash).is_none());
    let wrong_len = CidParts { version: Version::V0, codec: DAG_PB, hash_code: SHA2_256, digest: vec![0u8; 20] };
    assert!(Cid::from_parts(wrong_len).is_none());
    let long = CidParts { version: Version::V1, codec: RAW, hash_code: IDENTITY, digest: vec![0u8; 65] };
    assert!(Cid::from_parts(long).is_none());
}

#[test]
fn equality_is_by_parts() {
    let a = Cid::new_v1(DAG_CBOR, BLAKE2B_256, vec![1u8; 32]).unwrap();
    let b = Cid::new_v1(DAG_CBOR, BLAKE2B_256, vec![1u8; 32]).unwrap();
    let other_digest = Cid::new_v1(DAG_CBOR, BLAKE2B_256, vec![2u8; 32]).unwrap();
    let other_codec = Cid::new_v1(RAW, BLAKE2B_256, vec![1u8; 32]).unwrap();
    let other_hash = Cid::new_v1(DAG_CBOR, SHA2_256, vec![1u8; 32]).unwrap();
    assert_eq!(a, b);
    assert_eq!(a, a.clone());
    assert_ne!(a, other_digest);
    assert_ne!(a, other_codec);
    assert_ne!(a, other_hash);
}

#[test]
fn text_of_a_version_1_identifier() {
    let cid = Cid::new_v1(RAW, IDENTITY, b"fil/7/storagepower".to_vec()).unwrap();
    assert_eq!(cid.to_text(), "bafkqaetgnfwc6nzpon2g64tbm5sxa33xmvza");
    assert_eq!(cid.to_text(), outside(&cid).to_string());
}

#[test]
fn text_of_a_version_0_identifier() {
    let text = "QmdfTbBqBPQ7VNxZEYEj14VmRuZBkqFbiwReogJgS1zR1n";
    let cid = Cid::from_text(text).unwrap();
    assert_eq!(cid.version(), Version::V0);
    assert_eq!(cid.codec(), DAG_PB);
    assert_eq!(cid.hash_code(), SHA2_256);
    assert_eq!(cid.digest().len(), 32);
    assert_eq!(cid.to_text(), text);
}

#[test]
fn text_is_read_back() {
    let text = "bafkreieq5jui4j25lacwomsqgjeswwl3y5zcdrresptwgmfylxo2depppq";
    let cid = Cid::from_text(text).unwrap();
    assert_eq!(cid.version(), Version::V1);
    assert_eq!(cid.codec(), RAW);
    assert_eq!(cid.hash_code(), SHA2_256);
    assert_eq!(cid.digest().len(), 32);
    assert_eq!(cid.to_text(), text);
    let again = Cid::from_text(&cid.to_text()).unwrap();
    assert_eq!(again, cid);
}

#[test]
fn text_that_is_no_identifier_is_refused() {
    assert!(matches!(Cid::from_text(""), Err(CidError::Unreadable(_))));
    assert!(matches!(Cid::from_text("not a cid"), Err(CidError::Unreadable(_))));
    assert!(matches!(Cid::from_text("bafk"), Err(CidError::Unreadable(_))));
}
