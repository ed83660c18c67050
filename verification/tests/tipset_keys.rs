use forest_core::content_id::Cid;
use forest_core::content_id::BLAKE2B_256;
use forest_core::content_id::DAG_CBOR;
use forest_core::encoding::EncodingError;
use forest_core::file_backed::FileBacked;
use forest_core::file_backed::FileBackedObject;
use forest_core::frozen_cids::FrozenCids;
use forest_core::tipset_keys::TipsetKeys;

fn block(fill: u8) -> Cid {
    Cid::new_v1(DAG_CBOR, BLAKE2B_256, vec![fill; 32]).unwrap()
}

fn head_file() -> Vec<u8> {
    let mut bytes = vec![0x82];
    for fill in [0xaa, 0xbb] {
        bytes.extend_from_slice(&[0xd8, 0x2a, 0x58, 0x27, 0x00, 0x01, 0x71, 0xa0, 0xe4, 0x02, 0x20]);
        bytes.extend_from_slice(&[fill; 32]);
    }
    bytes
}

#[test]
fn tipset_keys_round_trip() {
    let path = "src/blocks/tests/calibnet/HEAD";
    let (obj1, _) = FileBacked::<TipsetKeys>::load_from_file_or_create(
        path.to_string(),
        Some(head_file()),
        Default::default,
    )
    .unwrap();
    let serialized = obj1.inner().serialize().unwrap();
    let deserialized = TipsetKeys::deserialize(&serialized).unwrap();

    assert_eq!(obj1.inner(), &deserialized);
}

#[test]
fn keys_are_built_from_a_set_or_from_a_list() {
    let list = vec![block(2), block(1), block(2)];
    let from_list = TipsetKeys::from(list.clone());
    let from_set = TipsetKeys::new(FrozenCids::from(list.clone()));
    assert_eq!(from_list, from_set);
    assert_eq!(Vec::<Cid>::from(from_list.cids()), list);
    assert_eq!(from_set.cids, FrozenCids::from(list));
}

#[test]
fn keys_keep_the_order_given() {
    let a = TipsetKeys::from(vec![block(1), block(2)]);
    let b = TipsetKeys::from(vec![block(2), block(1)]);
    assert_ne!(a, b);
    assert_eq!(a, a.clone());
    assert_eq!(TipsetKeys::default(), TipsetKeys::from(Vec::new()));
}

#[test]
fn keys_are_written_as_the_list_of_their_blocks() {
    let keys = TipsetKeys::from(vec![block(0xaa), block(0xbb)]);
    assert_eq!(keys.serialize().unwrap(), head_file());
    assert_eq!(TipsetKeys::default().serialize().unwrap(), vec![0x80]);
}

#[test]
fn keys_are_read_from_the_head_file() {
    let keys = TipsetKeys::deserialize(&head_file()).unwrap();
    assert_eq!(keys, TipsetKeys::from(vec![block(0xaa), block(0xbb)]));
}

#[test]
fn keys_written_under_older_rules_are_still_read() {
    let mut older = vec![0x98, 0x02];
    older.extend_from_slice(&head_file()[1..]);
    let keys = TipsetKeys::deserialize(&older).unwrap();
    assert_eq!(keys, TipsetKeys::from(vec![block(0xaa), block(0xbb)]));
    // Written again, they take the form of today.
    assert_eq!(keys.serialize().unwrap(), head_file());
}

#[test]
fn bytes_that_are_no_keys_are_refused_not_replaced() {
    let mut cut = head_file();
    cut.pop();
    assert!(matches!(TipsetKeys::deserialize(&cut), Err(EncodingError::Decode { .. })));
    for bytes in [Vec::new(), vec![0x00], vec![0xff], b"HEAD".to_vec()] {
        assert!(matches!(TipsetKeys::deserialize(&bytes), Err(EncodingError::NotAList)));
    }
}

#[test]
fn keys_as_json_are_a_list_of_texts() {
    let keys = TipsetKeys::from(vec![block(5)]);
    let text = keys.to_json().unwrap();
    assert_eq!(text, "[\"bafy2bzaceacqkbifaucqkbifaucqkbifaucqkbifaucqkbifaucqkbifaucqk\"]");
    assert_eq!(TipsetKeys::from_json(&text).unwrap(), keys);
    assert!(TipsetKeys::from_json("[\"nope\"]").is_err());
}
