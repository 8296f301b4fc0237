use automerge::transaction::Transactable;
use automerge::AutoCommit;
use automerge::ReadDoc;
use server::change::ChangeData;
use server::codec::empty_snapshot;
use server::error::AppError;
use server::merge::fold_plan;
use server::merge::merge_changes;
use server::merge::run_merge;
use server::merge::settle;
use server::merge::MergePlan;
use server::merge::MergeStep;
use server::merge::SchedulerAction;
use server::merge::SchedulerEvent;
use server::merge::SchedulerState;
use server::merge::Settlement;
use server::merge::MERGE_INTERVAL_SECS;
use server::rooms::Connection;
use server::rooms::Rooms;

/// Three changes made one after the other on one document.
fn three_changes() -> Vec<Vec<u8>> {
    let mut doc = AutoCommit::new();
    let mut changes = Vec::new();
    for (key, value) in [("a", "one"), ("b", "two"), ("a", "three")] {
        doc.put(automerge::ROOT, key, value).unwrap();
        changes.push(doc.get_last_local_change().unwrap().raw_bytes().to_vec());
    }
    changes
}

fn records(changes: Vec<Vec<u8>>) -> Vec<ChangeData> {
    changes
        .into_iter()
        .enumerate()
        .map(|(i, update)| ChangeData { id: 100 + i as u128, update })
        .collect()
}

fn text_at(doc: &AutoCommit, key: &str) -> Option<String> {
    doc.get(automerge::ROOT, key).unwrap().map(|(value, _)| value.to_str().unwrap().to_string())
}

#[test]
fn the_interval_is_five_minutes() {
    assert_eq!(MERGE_INTERVAL_SECS, 300);
}

/// The engine's fold, as the driver of a merge cycle performs it.
fn engine_fold(snapshot: &[u8], payloads: Vec<Vec<u8>>) -> Result<Vec<u8>, String> {
    let mut doc = AutoCommit::load(snapshot).map_err(|err| err.to_string())?;
    for payload in payloads {
        let change = automerge::Change::from_bytes(payload).map_err(|err| err.to_string())?;
        doc.apply_changes(vec![change]).map_err(|err| err.to_string())?;
    }
    Ok(doc.save())
}

/// One whole cycle on a snapshot that loads.
fn cycle(snapshot: &[u8], log: Vec<ChangeData>) -> Result<MergePlan, AppError> {
    match merge_changes(Ok(()), log)? {
        MergeStep::Unchanged => Ok(MergePlan::Unchanged),
        MergeStep::Fold { payloads, ids } => fold_plan(ids, engine_fold(snapshot, payloads)),
    }
}

#[test]
fn an_empty_log_changes_nothing() {
    assert_eq!(merge_changes(Ok(()), Vec::new()), Ok(MergeStep::Unchanged));
}

#[test]
fn a_log_that_decodes_is_handed_to_the_engine_in_order() {
    let changes = three_changes();
    assert_eq!(
        merge_changes(Ok(()), records(changes.clone())),
        Ok(MergeStep::Fold { payloads: changes, ids: vec![100, 101, 102] })
    );
}

#[test]
fn three_changes_fold_into_the_snapshot() {
    let changes = three_changes();
    let plan = cycle(&empty_snapshot(), records(changes.clone())).ok().unwrap();
    let MergePlan::Fold { snapshot, ids } = plan else {
        panic!("the log was not folded");
    };
    assert_eq!(ids, vec![100, 101, 102]);
    let merged = AutoCommit::load(&snapshot).unwrap();
    assert_eq!(text_at(&merged, "a"), Some("three".to_string()));
    assert_eq!(text_at(&merged, "b"), Some("two".to_string()));
    let mut expected = AutoCommit::load(&empty_snapshot()).unwrap();
    for change in changes {
        expected.apply_changes(vec![automerge::Change::from_bytes(change).unwrap()]).unwrap();
    }
    assert_eq!(snapshot, expected.save());
}

#[test]
fn a_merged_snapshot_survives_loading_and_saving() {
    let plan = cycle(&empty_snapshot(), records(three_changes())).ok().unwrap();
    let MergePlan::Fold { snapshot, .. } = plan else {
        panic!("the log was not folded");
    };
    let resaved = AutoCommit::load(&snapshot).unwrap().save();
    let again = AutoCommit::load(&resaved).unwrap();
    assert_eq!(text_at(&again, "a"), Some("three".to_string()));
    assert_eq!(text_at(&again, "b"), Some("two".to_string()));
}

#[test]
fn merging_in_two_cycles_gives_the_same_document() {
    let changes = three_changes();
    let first = cycle(&empty_snapshot(), records(changes[..1].to_vec())).ok().unwrap();
    let MergePlan::Fold { snapshot, .. } = first else {
        panic!("the log was not folded");
    };
    let second = cycle(&snapshot, records(changes[1..].to_vec())).ok().unwrap();
    let MergePlan::Fold { snapshot, ids } = second else {
        panic!("the log was not folded");
    };
    assert_eq!(ids, vec![100, 101]);
    let merged = AutoCommit::load(&snapshot).unwrap();
    assert_eq!(text_at(&merged, "a"), Some("three".to_string()));
    assert_eq!(text_at(&merged, "b"), Some("two".to_string()));
}

#[test]
fn a_record_that_does_not_decode_fails_the_cycle() {
    let mut log = records(three_changes());
    log[1].update = b"garbage".to_vec();
    let Err(AppError::InternalServer(detail)) = merge_changes(Ok(()), log) else {
        panic!("a malformed record was merged");
    };
    assert!(detail.starts_with("Failed deserialize change: "), "{detail}");
    assert!(detail.len() > "Failed deserialize change: ".len());
}

#[test]
fn a_snapshot_that_does_not_load_fails_the_cycle() {
    let refusal = AutoCommit::load(b"no snapshot").unwrap_err().to_string();
    assert_eq!(
        merge_changes(Err(refusal.clone()), records(three_changes())),
        Err(AppError::InternalServer(refusal.clone()))
    );
    assert_eq!(
        merge_changes(Err(refusal.clone()), Vec::new()),
        Err(AppError::InternalServer(refusal))
    );
}

#[test]
fn a_plan_holds_the_saved_document_and_the_records() {
    assert_eq!(
        fold_plan(vec![7, 8], Ok(vec![1, 2])),
        Ok(MergePlan::Fold { snapshot: vec![1, 2], ids: vec![7, 8] })
    );
    assert_eq!(
        fold_plan(Vec::new(), Ok(Vec::new())),
        Ok(MergePlan::Fold { snapshot: Vec::new(), ids: Vec::new() })
    );
}

#[test]
fn a_refusal_of_the_engine_fails_the_cycle_with_its_description() {
    assert_eq!(
        fold_plan(vec![7, 8], Err("refused".to_string())),
        Err(AppError::InternalServer("refused".to_string()))
    );
}

/// The first change of a document made by the actor `actor`.
fn first_change_of(actor: &[u8], key: &str) -> Vec<u8> {
    let mut doc = AutoCommit::new().with_actor(automerge::ActorId::from(actor));
    doc.put(automerge::ROOT, key, 1u64).unwrap();
    doc.get_last_local_change().unwrap().raw_bytes().to_vec()
}

#[test]
fn a_change_that_the_engine_refuses_fails_the_cycle() {
    let first = first_change_of(&[7; 16], "a");
    let second = first_change_of(&[7; 16], "b");
    let mut engine = AutoCommit::new();
    engine.apply_changes(vec![automerge::Change::from_bytes(first.clone()).unwrap()]).unwrap();
    let refusal = engine
        .apply_changes(vec![automerge::Change::from_bytes(second.clone()).unwrap()])
        .unwrap_err();
    assert_eq!(
        cycle(&empty_snapshot(), records(vec![first, second])),
        Err(AppError::InternalServer(refusal.to_string()))
    );
}

#[test]
fn a_cycle_commits_only_on_success() {
    assert_eq!(settle(&Ok(())), Settlement::Commit);
    assert_eq!(settle(&Err(AppError::NotFound)), Settlement::Rollback);
    assert_eq!(settle(&Err(AppError::InternalServer("x".to_string()))), Settlement::Rollback);
}

fn rooms_with(doc: u128) -> Rooms {
    let mut rooms = Rooms::new();
    rooms.add_connection(doc, Connection { id: 1 });
    rooms
}

#[test]
fn a_scheduler_starts_idle() {
    let scheduler = run_merge(9);
    assert_eq!(scheduler.doc_id(), 9);
    assert_eq!(scheduler.state(), SchedulerState::Idle);
}

#[test]
fn a_tick_merges_while_the_room_exists() {
    let rooms = rooms_with(9);
    let mut scheduler = run_merge(9);
    assert_eq!(scheduler.step(&rooms, SchedulerEvent::Tick), SchedulerAction::Merge);
    assert_eq!(scheduler.state(), SchedulerState::Merging);
    assert_eq!(scheduler.step(&rooms, SchedulerEvent::Merged), SchedulerAction::Wait);
    assert_eq!(scheduler.state(), SchedulerState::Idle);
    assert_eq!(scheduler.step(&rooms, SchedulerEvent::Tick), SchedulerAction::Merge);
}

#[test]
fn a_tick_without_the_room_ends_the_scheduler() {
    let mut rooms = rooms_with(9);
    let mut scheduler = run_merge(9);
    rooms.remove_connection(9, 1);
    assert_eq!(scheduler.step(&rooms, SchedulerEvent::Tick), SchedulerAction::Stop);
    assert_eq!(scheduler.state(), SchedulerState::Terminated);
}

#[test]
fn a_room_of_another_document_does_not_count() {
    let rooms = rooms_with(8);
    let mut scheduler = run_merge(9);
    assert_eq!(scheduler.step(&rooms, SchedulerEvent::Tick), SchedulerAction::Stop);
}

#[test]
fn cancellation_ends_the_scheduler_from_any_state() {
    let rooms = rooms_with(9);
    let mut idle = run_merge(9);
    assert_eq!(idle.step(&rooms, SchedulerEvent::Cancelled), SchedulerAction::Stop);
    assert_eq!(idle.state(), SchedulerState::Terminated);
    let mut merging = run_merge(9);
    merging.step(&rooms, SchedulerEvent::Tick);
    assert_eq!(merging.step(&rooms, SchedulerEvent::Cancelled), SchedulerAction::Stop);
    assert_eq!(merging.state(), SchedulerState::Terminated);
}

#[test]
fn an_ended_scheduler_stays_ended() {
    let rooms = rooms_with(9);
    let mut scheduler = run_merge(9);
    scheduler.step(&rooms, SchedulerEvent::Cancelled);
    for event in [SchedulerEvent::Tick, SchedulerEvent::Merged, SchedulerEvent::Cancelled] {
        assert_eq!(scheduler.step(&rooms, event), SchedulerAction::Stop);
        assert_eq!(scheduler.state(), SchedulerState::Terminated);
    }
}

#[test]
fn a_tick_during_a_merge_starts_no_second_one() {
    let rooms = rooms_with(9);
    let mut scheduler = run_merge(9);
    scheduler.step(&rooms, SchedulerEvent::Tick);
    assert_eq!(scheduler.step(&rooms, SchedulerEvent::Tick), SchedulerAction::Wait);
    assert_eq!(scheduler.state(), SchedulerState::Merging);
}

