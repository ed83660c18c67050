use forest_core::content_id::Cid;
use forest_core::content_id::BLAKE2B_256;
use forest_core::content_id::DAG_CBOR;
use forest_core::content_id::IDENTITY;
use forest_core::content_id::RAW;
use forest_core::content_id::SHA2_256;
use forest_core::frozen_cids::FrozenCids;
use forest_core::small_cid::SmallCid;

fn common(fill: u8) -> Cid {
    Cid::new_v1(DAG_CBOR, BLAKE2B_256, vec![fill; 32]).unwrap()
}

/// Identifiers of every kind: the common one, and those that differ from
/// it in one part each.
fn assorted() -> Vec<Cid> {
    vec![
        common(1),
        Cid::new_v0(vec![2u8; 32]).unwrap(),
        Cid::new_v1(RAW, BLAKE2B_256, vec![3u8; 32]).unwrap(),
        Cid::new_v1(DAG_CBOR, SHA2_256, vec![4u8; 32]).unwrap(),
        Cid::new_v1(DAG_CBOR, BLAKE2B_256, vec![5u8; 31]).unwrap(),
        Cid::new_v1(RAW, IDENTITY, b"fil/7/storagepower".to_vec()).unwrap(),
        Cid::new_v1(RAW, IDENTITY, Vec::new()).unwrap(),
        Cid::new_v1(DAG_CBOR, BLAKE2B_256, vec![6u8; 64]).unwrap(),
        common(0),
        common(255),
    ]
}

#[test]
fn small_cid_gives_back_every_kind_of_identifier() {
    for cid in assorted() {
        let small = SmallCid::from(cid.clone());
        assert_eq!(small.to_cid(), cid);
        assert_eq!(small.clone(), small);
    }
}

#[test]
fn small_cids_are_equal_exactly_when_their_identifiers_are() {
    let all = assorted();
    for (i, a) in all.iter().enumerate() {
        for (j, b) in all.iter().enumerate() {
            let equal = SmallCid::from(a.clone()) == SmallCid::from(b.clone());
            assert_eq!(equal, i == j);
            assert_eq!(equal, a == b);
        }
    }
}

#[test]
fn round_trip_keeps_order_and_duplicates() {
    let mut given = assorted();
    given.push(common(1));
    given.push(common(1));
    given.insert(0, Cid::new_v0(vec![2u8; 32]).unwrap());
    let frozen = FrozenCids::from(given.clone());
    assert_eq!(frozen.len(), 13);
    assert_eq!(Vec::<Cid>::from(&frozen), given);
    assert_eq!(Vec::<Cid>::from(frozen), given);
}

#[test]
fn round_trip_of_the_empty_list() {
    let frozen = FrozenCids::from(Vec::new());
    assert!(frozen.is_empty());
    assert_eq!(frozen.len(), 0);
    assert_eq!(Vec::<Cid>::from(frozen), Vec::<Cid>::new());
}

#[test]
fn cidvec_to_vec_of_cids_to_cidvec() {
    let lists = vec![Vec::new(), vec![common(9)], assorted(), vec![common(3), common(3)]];
    for list in lists {
        let cidvec = FrozenCids::from(list);
        assert_eq!(cidvec, FrozenCids::from(Vec::<Cid>::from(cidvec.clone())));
    }
}

#[test]
fn default_is_empty() {
    let frozen = FrozenCids::default();
    assert!(frozen.is_empty());
    assert_eq!(frozen, FrozenCids::from(Vec::new()));
    assert!(!frozen.contains(common(1)));
    assert!(frozen.get(0).is_none());
    assert!(frozen.iter().next().is_none());
}

#[test]
fn is_empty_tells_one_item_from_none() {
    assert!(!FrozenCids::from(vec![common(1)]).is_empty());
    assert!(FrozenCids::from(Vec::new()).is_empty());
}

#[test]
fn contains_finds_what_was_given_and_nothing_else() {
    let frozen = FrozenCids::from(assorted());
    for cid in assorted() {
        assert!(frozen.contains(cid));
    }
    assert!(!frozen.contains(common(77)));
    assert!(!frozen.contains(Cid::new_v0(vec![1u8; 32]).unwrap()));
    assert!(!frozen.contains(Cid::new_v1(RAW, BLAKE2B_256, vec![1u8; 32]).unwrap()));
    assert!(!frozen.contains(Cid::new_v1(RAW, IDENTITY, b"fil/7/storagemarket".to_vec()).unwrap()));
}

#[test]
fn get_counts_from_zero() {
    let given = assorted();
    let frozen = FrozenCids::from(given.clone());
    for (i, cid) in given.iter().enumerate() {
        assert_eq!(frozen.get(i).as_ref(), Some(cid));
    }
    assert!(frozen.get(given.len()).is_none());
    assert!(frozen.get(usize::MAX).is_none());
}

#[test]
fn iteration_is_in_order_and_can_start_again() {
    let given = vec![common(3), common(1), common(3), common(2)];
    let frozen = FrozenCids::from(given.clone());
    for _ in 0..2 {
        let mut seen = Vec::new();
        let mut walk = frozen.iter();
        while let Some(cid) = walk.next() {
            seen.push(cid);
        }
        assert_eq!(seen, given);
        assert!(walk.next().is_none());
        assert!(walk.next().is_none());
    }
    assert_eq!(frozen.len(), 4);
}

#[test]
fn equality_is_by_contents_in_order() {
    let a = FrozenCids::from(vec![common(1), common(2)]);
    let same = FrozenCids::from(vec![common(1), common(2)]);
    let swapped = FrozenCids::from(vec![common(2), common(1)]);
    let shorter = FrozenCids::from(vec![common(1)]);
    let doubled = FrozenCids::from(vec![common(1), common(2), common(2)]);
    assert_eq!(a, same);
    assert_eq!(a, a.clone());
    assert_ne!(a, swapped);
    assert_ne!(a, shorter);
    assert_ne!(a, doubled);
}
