use forest_core::content_id::Cid;
use forest_core::content_id::BLAKE2B_256;
use forest_core::content_id::DAG_CBOR;
use forest_core::file_backed::FileBacked;
use forest_core::file_backed::FileBackedObject;
use forest_core::file_backed::WritePlan;
use forest_core::file_backed::STAGING_SUFFIX;
use forest_core::tipset_keys::TipsetKeys;
use std::cell::Cell;

fn block(fill: u8) -> Cid {
    Cid::new_v1(DAG_CBOR, BLAKE2B_256, vec![fill; 32]).unwrap()
}

fn genesis() -> TipsetKeys {
    TipsetKeys::from(vec![block(1), block(2)])
}

/// A file system of one file: carrying out a plan puts its bytes there.
fn carry_out(disk: &mut Option<Vec<u8>>, plan: WritePlan) {
    assert_eq!(plan.staging, format!("{}{}", plan.target, STAGING_SUFFIX));
    *disk = Some(plan.bytes);
}

#[test]
fn missing_file_is_created_from_the_factory_called_once() {
    let calls = Cell::new(0);
    let (held, plan) = FileBacked::<TipsetKeys>::load_from_file_or_create("chain/HEAD".to_string(), None, || {
        calls.set(calls.get() + 1);
        genesis()
    })
    .unwrap();
    assert_eq!(calls.get(), 1);
    assert_eq!(held.inner(), &genesis());
    assert_eq!(held.path(), "chain/HEAD");
    let plan = plan.unwrap();
    assert_eq!(plan.target, "chain/HEAD");
    assert_eq!(plan.staging, "chain/HEAD.tmp");
    assert_eq!(plan.bytes, genesis().serialize().unwrap());
}

#[test]
fn second_load_returns_what_the_first_persisted() {
    let mut disk: Option<Vec<u8>> = None;
    let first_calls = Cell::new(0);
    let (first, plan) = FileBacked::<TipsetKeys>::load_from_file_or_create("HEAD".to_string(), disk.clone(), || {
        first_calls.set(first_calls.get() + 1);
        genesis()
    })
    .unwrap();
    carry_out(&mut disk, plan.unwrap());
    assert_eq!(first_calls.get(), 1);

    let second_calls = Cell::new(0);
    let (second, plan) = FileBacked::<TipsetKeys>::load_from_file_or_create("HEAD".to_string(), disk.clone(), || {
        second_calls.set(second_calls.get() + 1);
        TipsetKeys::default()
    })
    .unwrap();
    assert_eq!(second_calls.get(), 0);
    assert!(plan.is_none());
    assert_eq!(second.inner(), first.inner());
    assert_eq!(second.inner(), &genesis());
}

#[test]
fn corrupt_file_is_replaced_by_a_fresh_value() {
    let calls = Cell::new(0);
    let (held, plan) = FileBacked::<TipsetKeys>::load_from_file_or_create(
        "HEAD".to_string(),
        Some(b"garbage".to_vec()),
        || {
            calls.set(calls.get() + 1);
            genesis()
        },
    )
    .unwrap();
    assert_eq!(calls.get(), 1);
    assert_eq!(held.inner(), &genesis());
    assert_eq!(plan.unwrap().bytes, genesis().serialize().unwrap());
}

#[test]
fn empty_file_is_replaced_by_a_fresh_value() {
    let (held, plan) =
        FileBacked::<TipsetKeys>::load_from_file_or_create("HEAD".to_string(), Some(Vec::new()), TipsetKeys::default)
            .unwrap();
    assert_eq!(held.inner(), &TipsetKeys::default());
    assert_eq!(plan.unwrap().bytes, vec![0x80]);
}

#[test]
fn save_then_load_gives_the_saved_value() {
    let mut disk: Option<Vec<u8>> = None;
    let (mut head, plan) =
        FileBacked::<TipsetKeys>::load_from_file_or_create("HEAD".to_string(), None, TipsetKeys::default).unwrap();
    carry_out(&mut disk, plan.unwrap());
    assert_eq!(disk, Some(vec![0x80]));

    let next = TipsetKeys::from(vec![block(7)]);
    let plan = head.set_inner(next.clone()).unwrap();
    assert_eq!(head.inner(), &next);
    assert_eq!(plan.target, "HEAD");
    assert_eq!(plan.staging, "HEAD.tmp");
    carry_out(&mut disk, plan);

    let (again, plan) =
        FileBacked::<TipsetKeys>::load_from_file_or_create("HEAD".to_string(), disk, TipsetKeys::default).unwrap();
    assert!(plan.is_none());
    assert_eq!(again.inner(), &next);
}

#[test]
fn new_holds_the_value_without_a_plan() {
    let held = FileBacked::new(genesis(), "some/where".to_string());
    assert_eq!(held.inner(), &genesis());
    assert_eq!(held.path(), "some/where");
    let plan = held.flush_to_file().unwrap();
    assert_eq!(plan.target, "some/where");
    assert_eq!(plan.staging, "some/where.tmp");
    assert_eq!(plan.bytes, genesis().serialize().unwrap());
}
