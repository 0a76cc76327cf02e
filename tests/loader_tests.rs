use seed_retriever::loader::{LoadAction, LoadEvent, LoadProgress, SnapshotLoad, BATCH_SIZE};
use seed_retriever::uspk_set::{LoadError, UnspentScriptPubKeysSet, UspkSetStatus};

#[test]
fn progress_reports_at_batch_boundaries() {
    let mut p = LoadProgress::new(350_000);
    p.records_done = BATCH_SIZE - 2;
    assert!(!p.record_loaded());
    assert!(p.record_loaded());
    let r = p.complete_batch(120_000_000);
    assert_eq!(p.average_batch_micros, 120_000_000);
    assert_eq!(r.records_done, 100_000);
    assert_eq!(r.total_records, 350_000);
    assert_eq!(r.eta_minutes, 1 + (120_000_000u128 * 2) / 60_000_000);
    let r = p.complete_batch(60_000_000);
    assert_eq!(p.average_batch_micros, 90_000_000);
    assert_eq!(r.eta_minutes, 1 + 90_000_000u128 / 60_000_000);
    let r = p.complete_batch(30_000_000);
    assert_eq!(p.average_batch_micros, 70_000_000);
    assert_eq!(r.eta_minutes, 1);
}

#[test]
fn load_steps_through_a_snapshot() {
    let mut load = SnapshotLoad::new(2);
    assert_eq!(load.set.get_status(), UspkSetStatus::Populating);
    assert_eq!(load.step(LoadEvent::Record { script: vec![1, 2], batch_micros: 5 }), LoadAction::ReadNext);
    assert_eq!(load.step(LoadEvent::Record { script: vec![3], batch_micros: 5 }), LoadAction::ReadNext);
    assert_eq!(load.step(LoadEvent::EndOfSnapshot), LoadAction::Finished);
    assert_eq!(load.set.get_status(), UspkSetStatus::Ready);
    assert_eq!(load.set.len(), 2);
    assert!(load.set.contains(&[3]));
}

#[test]
fn cancelled_load_keeps_partial_set() {
    let mut load = SnapshotLoad::new(10);
    load.step(LoadEvent::Record { script: vec![9], batch_micros: 0 });
    assert_eq!(load.step(LoadEvent::Cancelled), LoadAction::Finished);
    assert_eq!(load.set.get_status(), UspkSetStatus::Ready);
    assert_eq!(load.set.len(), 1);
}

#[test]
fn failed_load_returns_to_empty() {
    let mut load = SnapshotLoad::new(10);
    load.step(LoadEvent::Record { script: vec![9], batch_micros: 0 });
    assert_eq!(load.step(LoadEvent::DecodeFailed), LoadAction::Failed(LoadError::SnapshotDecodeError));
    assert_eq!(load.set.get_status(), UspkSetStatus::Empty);
    assert!(load.set.is_empty());
}

#[test]
fn load_guards_against_reentry() {
    let mut set = UnspentScriptPubKeysSet::new();
    assert_eq!(set.get_status(), UspkSetStatus::Empty);
    assert_eq!(set.begin_populating(), Ok(()));
    assert_eq!(set.begin_populating(), Err(LoadError::LoadInProgress));
    set.insert_script(vec![1]);
    set.finish_populating();
    assert_eq!(set.begin_populating(), Err(LoadError::AlreadyLoaded));
    set.fail_populating();
    assert_eq!(set.get_status(), UspkSetStatus::Empty);
    assert_eq!(set.len(), 0);
}

#[test]
fn report_comes_at_the_hundred_thousandth_record() {
    let mut load = SnapshotLoad::new(200_000);
    for i in 0..(BATCH_SIZE - 1) {
        let a = load.step(LoadEvent::Record { script: (i as u32).to_le_bytes().to_vec(), batch_micros: 7 });
        assert_eq!(a, LoadAction::ReadNext);
    }
    let a = load.step(LoadEvent::Record { script: vec![0xff; 5], batch_micros: 7 });
    match a {
        LoadAction::Report(r) => {
            assert_eq!(r.records_done, 100_000);
            assert_eq!(r.eta_minutes, 1);
        },
        _ => panic!("expected a report"),
    }
    assert_eq!(load.set.len(), 100_000);
}

#[test]
fn truncated_snapshot_fails_to_load() {
    let mut load = SnapshotLoad::new(3);
    load.step(LoadEvent::Record { script: vec![1], batch_micros: 0 });
    assert_eq!(load.step(LoadEvent::EndOfSnapshot), LoadAction::Failed(LoadError::SnapshotDecodeError));
    assert_eq!(load.set.get_status(), UspkSetStatus::Empty);
    assert!(load.set.is_empty());
}
