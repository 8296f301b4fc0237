//! Log compaction: the merge cycle that folds the logged changes of a
//! document into its snapshot, and the scheduler that runs it while the
//! document has a room.
//!
//! The cycle decides; its driver performs. The driver reads snapshot and
//! log inside one transaction and has the engine load the snapshot;
//! [`merge_changes`] says what follows. Where that is a fold, the driver
//! has the engine fold the payloads into the loaded document and save it,
//! and [`fold_plan`] says what to write for the engine's answer. The driver
//! keeps whatever the engine does on a payload from ending the cycle's
//! task, and reports such a failure as a refusal.

use crate::change::change_ids;
use crate::change::change_payloads;
use crate::change::frames_of;
use crate::change::ChangeData;
use crate::codec::change_decodes;
use crate::codec::decode_change;
use crate::error::AppError;
use crate::error::AppResult;
use crate::rooms::Rooms;
use vstd::prelude::*;

verus! {

/// The seconds between two merge cycles of a document.
pub const MERGE_INTERVAL_SECS: u64 = 300;

/// What a merge cycle does once snapshot and log are read and the
/// snapshot is loaded.
#[derive(Debug, Clone, PartialEq, Eq)]
pub enum MergeStep {
    /// The log is empty: nothing is written, and the transaction commits.
    Unchanged,
    /// The engine folds `payloads` into the loaded document, one after the
    /// other in this order, stops at the first that it refuses, and saves
    /// the document; `ids` are the records that the payloads came from.
    Fold { payloads: Vec<Vec<u8>>, ids: Vec<u128> },
}

/// What a merge cycle writes before it commits.
#[derive(Debug, Clone, PartialEq, Eq)]
pub enum MergePlan {
    /// The log is empty: nothing is written.
    Unchanged,
    /// `snapshot` replaces the stored snapshot, and the records `ids` leave
    /// the log, both in one transaction.
    Fold { snapshot: Vec<u8>, ids: Vec<u128> },
}

/// Whether every payload of `changes` decodes.
pub open spec fn all_decode(changes: Seq<ChangeData>) -> bool {
    forall|i: int| 0 <= i < changes.len() ==> change_decodes(#[trigger] changes[i].update@)
}

/// What the detail of a record that does not decode begins with.
pub open spec fn undecodable_prefix() -> Seq<char> {
    "Failed deserialize change: "@
}

/// Whether `error` is the internal error of a record that does not decode:
/// its detail is the prefix, then the engine's description.
pub open spec fn is_undecodable(error: AppError) -> bool {
    error matches AppError::InternalServer(text) && text@.len() >= undecodable_prefix().len()
        && text@.take(undecodable_prefix().len() as int) == undecodable_prefix()
}

/// Whether `result` is an internal error with the detail `detail`.
pub open spec fn fails_with<T>(result: AppResult<T>, detail: Seq<char>) -> bool {
    result matches Err(AppError::InternalServer(text)) && text@ == detail
}

/// Whether `step` is what a merge cycle does on the log `changes`, given
/// whether the engine `loaded` the stored snapshot. A snapshot that does
/// not load fails the cycle with the engine's description. An empty log
/// leaves all as it is. A record that does not decode fails the cycle.
/// Else the engine is asked to fold every payload of the log, in log order.
pub open spec fn is_merge_step(
    loaded: Result<(), String>,
    changes: Seq<ChangeData>,
    step: AppResult<MergeStep>,
) -> bool {
    match loaded {
        Err(detail) => fails_with(step, detail@),
        Ok(_) => if changes.len() == 0 {
            step matches Ok(MergeStep::Unchanged)
        } else if !all_decode(changes) {
            step matches Err(error) && is_undecodable(error)
        } else {
            step matches Ok(MergeStep::Fold { payloads, ids }) && frames_of(payloads@)
                == change_payloads(changes) && ids@ == change_ids(changes)
        },
    }
}

/// Whether `plan` is what a merge cycle writes for the engine's answer
/// `folded` to the fold of the records `ids`: the saved document replaces
/// the snapshot and exactly these records leave the log, or the engine's
/// refusal fails the cycle.
pub open spec fn is_fold_plan(
    ids: Seq<u128>,
    folded: Result<Vec<u8>, String>,
    plan: AppResult<MergePlan>,
) -> bool {
    match folded {
        Ok(saved) => plan matches Ok(MergePlan::Fold { snapshot, ids: gone }) && snapshot@
            == saved@ && gone@ == ids,
        Err(refusal) => fails_with(plan, refusal@),
    }
}

/// The error of a log record that does not decode.
fn undecodable(detail: &str) -> (error: AppError)
    ensures
        error matches AppError::InternalServer(text) && text@ == undecodable_prefix() + detail@,
        is_undecodable(error),
{
    let mut text = "Failed deserialize change: ".to_owned();
    text.append(detail);
    assert(text@.take(undecodable_prefix().len() as int) == undecodable_prefix());
    AppError::InternalServer(text)
}

/// Decodes every record of the log, in order; the first that does not
/// decode fails the whole.
fn decode_all(changes: &Vec<ChangeData>) -> (decoded: AppResult<()>)
    ensures
        decoded is Ok <==> all_decode(changes@),
        decoded matches Err(error) ==> is_undecodable(error),
{
    let mut i: usize = 0;
    while i < changes.len()
        invariant
            i <= changes.len(),
            forall|k: int| 0 <= k < i ==> change_decodes(#[trigger] changes[k].update@),
        decreases changes.len() - i,
    {
        match decode_change(&changes[i].update) {
            Ok(_) => {},
            Err(detail) => {
                return Err(undecodable(detail.as_str()));
            },
        }
        i += 1;
    }
    Ok(())
}

/// What a merge cycle does on what its transaction read: the log
/// `changes` in the order of insertion, and whether the engine `loaded`
/// the stored snapshot.
///
/// Every failure is an internal error, on which the caller rolls back: the
/// log keeps the record at fault.
pub fn merge_changes(loaded: Result<(), String>, changes: Vec<ChangeData>) -> (step: AppResult<
    MergeStep,
>)
    ensures
        is_merge_step(loaded, changes@, step),
{
    match loaded {
        Ok(_) => {},
        Err(detail) => {
            return Err(AppError::InternalServer(detail));
        },
    }
    if changes.len() == 0 {
        return Ok(MergeStep::Unchanged);
    }
    match decode_all(&changes) {
        Ok(_) => {},
        Err(error) => {
            return Err(error);
        },
    }
    let (ids, payloads) = ChangeData::split_data(changes);
    Ok(MergeStep::Fold { payloads, ids })
}

/// What a merge cycle writes for the engine's answer `folded` to the fold
/// of the records `ids`.
pub fn fold_plan(ids: Vec<u128>, folded: Result<Vec<u8>, String>) -> (plan: AppResult<MergePlan>)
    ensures
        is_fold_plan(ids@, folded, plan),
{
    match folded {
        Ok(snapshot) => Ok(MergePlan::Fold { snapshot, ids }),
        Err(refusal) => Err(AppError::InternalServer(refusal)),
    }
}

/// The snapshot and the change log of one document, as the store holds
/// them: each record with its identifier and its payload, in log order.
pub struct DocumentLog {
    pub snapshot: Seq<u8>,
    pub records: Seq<(u128, Seq<u8>)>,
}

/// The identifiers of `records`, in order.
pub open spec fn record_ids(records: Seq<(u128, Seq<u8>)>) -> Seq<u128> {
    records.map_values(|record: (u128, Seq<u8>)| record.0)
}

/// Whether the record `record` is none of `ids`.
pub open spec fn is_none_of(ids: Seq<u128>) -> spec_fn((u128, Seq<u8>)) -> bool {
    |record: (u128, Seq<u8>)| !ids.contains(record.0)
}

/// What the store holds once the transaction that wrote `plan` has
/// committed.
pub open spec fn log_after_commit(log: DocumentLog, plan: MergePlan) -> DocumentLog {
    match plan {
        MergePlan::Unchanged => log,
        MergePlan::Fold { snapshot, ids } => DocumentLog {
            snapshot: snapshot@,
            records: log.records.filter(is_none_of(ids@)),
        },
    }
}

/// What the store holds once the transaction has ended in `end`: a
/// rollback leaves all as it was.
pub open spec fn log_after(log: DocumentLog, plan: MergePlan, end: Settlement) -> DocumentLog {
    match end {
        Settlement::Commit => log_after_commit(log, plan),
        Settlement::Rollback => log,
    }
}

/// A merge is all or nothing. Where the log holds the records `merged`
/// that the cycle listed, followed by the records `later` that came in
/// since, each under an identifier of its own: a rollback leaves snapshot
/// and log as they were; a commit of a plan that folds `merged` leaves the
/// plan's snapshot and exactly `later`, the records that the snapshot does
/// not yet hold, in their order; a commit on an empty listing changes
/// nothing.
pub proof fn lemma_merge_is_atomic(
    log: DocumentLog,
    merged: Seq<(u128, Seq<u8>)>,
    later: Seq<(u128, Seq<u8>)>,
    plan: MergePlan,
)
    requires
        log.records == merged + later,
        record_ids(log.records).no_duplicates(),
        plan matches MergePlan::Fold { ids, .. } ==> ids@ == record_ids(merged),
        plan is Unchanged ==> merged.len() == 0,
    ensures
        log_after(log, plan, Settlement::Rollback) == log,
        log_after(log, plan, Settlement::Commit).records == later,
        plan matches MergePlan::Fold { snapshot, .. } ==> log_after(
            log,
            plan,
            Settlement::Commit,
        ).snapshot == snapshot@,
        plan is Unchanged ==> log_after(log, plan, Settlement::Commit) == log,
{
    match plan {
        MergePlan::Unchanged => {
            assert(log.records == later);
        },
        MergePlan::Fold { snapshot, ids } => {
            lemma_filter_splits(merged, later);
        },
    }
}

/// Of the records `merged + later`, each under an identifier of its own,
/// those that are none of `merged` are `later`.
proof fn lemma_filter_splits(merged: Seq<(u128, Seq<u8>)>, later: Seq<(u128, Seq<u8>)>)
    requires
        record_ids(merged + later).no_duplicates(),
    ensures
        (merged + later).filter(is_none_of(record_ids(merged))) == later,
{
    let gone = is_none_of(record_ids(merged));
    let all = merged + later;
    assert forall|i: int| 0 <= i < merged.len() implies !gone(#[trigger] merged[i]) by {
        assert(record_ids(merged)[i] == merged[i].0);
    }
    assert forall|j: int| 0 <= j < later.len() implies gone(#[trigger] later[j]) by {
        if record_ids(merged).contains(later[j].0) {
            let k = choose|k: int| 0 <= k < merged.len() && record_ids(merged)[k] == later[j].0;
            assert(record_ids(all)[k] == later[j].0);
            assert(record_ids(all)[merged.len() + j] == later[j].0);
        }
    }
    lemma_filter_none(merged, gone);
    lemma_filter_all(later, gone);
    Seq::filter_distributes_over_add(merged, later, gone);
}

/// A filter that no element passes leaves nothing.
proof fn lemma_filter_none<A>(items: Seq<A>, keep: spec_fn(A) -> bool)
    requires
        forall|i: int| 0 <= i < items.len() ==> !keep(#[trigger] items[i]),
    ensures
        items.filter(keep) == Seq::<A>::empty(),
    decreases items.len(),
{
    if items.len() == 0 {
        reveal(Seq::filter);
    } else {
        let front = items.drop_last();
        lemma_filter_none(front, keep);
        assert(items == front.push(items.last()));
        front.lemma_filter_push(items.last(), keep);
    }
}

/// A filter that every element passes leaves all.
proof fn lemma_filter_all<A>(items: Seq<A>, keep: spec_fn(A) -> bool)
    requires
        forall|i: int| 0 <= i < items.len() ==> keep(#[trigger] items[i]),
    ensures
        items.filter(keep) == items,
    decreases items.len(),
{
    if items.len() == 0 {
        reveal(Seq::filter);
    } else {
        let front = items.drop_last();
        lemma_filter_all(front, keep);
        assert(items == front.push(items.last()));
        front.lemma_filter_push(items.last(), keep);
    }
}

/// How a merge cycle's transaction ends.
#[derive(Debug, Clone, Copy, PartialEq, Eq, Structural)]
pub enum Settlement {
    Commit,
    Rollback,
}

/// The end of the transaction of a cycle whose steps had the outcome
/// `outcome`: commit where every step succeeded, else roll back.
pub fn settle(outcome: &AppResult<()>) -> (end: Settlement)
    ensures
        end == if outcome is Ok {
            Settlement::Commit
        } else {
            Settlement::Rollback
        },
{
    match outcome {
        Ok(_) => Settlement::Commit,
        Err(_) => Settlement::Rollback,
    }
}

/// Where a scheduler stands.
#[derive(Debug, Clone, Copy, PartialEq, Eq, Structural)]
pub enum SchedulerState {
    /// Waiting for a tick or for cancellation.
    Idle,
    /// Running one merge cycle.
    Merging,
    /// Exited: no merge will follow.
    Terminated,
}

/// What happens to a scheduler.
#[derive(Debug, Clone, Copy, PartialEq, Eq, Structural)]
pub enum SchedulerEvent {
    /// The merge interval has passed.
    Tick,
    /// The merge cycle has ended, in success or in failure.
    Merged,
    /// The cancellation token has fired.
    Cancelled,
}

/// What a scheduler's task does next.
#[derive(Debug, Clone, Copy, PartialEq, Eq, Structural)]
pub enum SchedulerAction {
    /// Wait for the next tick or for cancellation.
    Wait,
    /// Run one merge cycle, then report `Merged`.
    Merge,
    /// Exit.
    Stop,
}

/// The scheduler's transition. A tick starts a cycle while the room exists
/// and ends the scheduler once it is gone; the end of a cycle, in success or
/// failure, leads back to waiting; cancellation ends the scheduler from any
/// state; nothing leads out of `Terminated`.
pub open spec fn scheduler_next(
    state: SchedulerState,
    room_exists: bool,
    event: SchedulerEvent,
) -> (SchedulerState, SchedulerAction) {
    match (state, event) {
        (SchedulerState::Terminated, _) => (SchedulerState::Terminated, SchedulerAction::Stop),
        (_, SchedulerEvent::Cancelled) => (SchedulerState::Terminated, SchedulerAction::Stop),
        (SchedulerState::Idle, SchedulerEvent::Tick) => if room_exists {
            (SchedulerState::Merging, SchedulerAction::Merge)
        } else {
            (SchedulerState::Terminated, SchedulerAction::Stop)
        },
        (SchedulerState::Idle, SchedulerEvent::Merged) => (
            SchedulerState::Idle,
            SchedulerAction::Wait,
        ),
        (SchedulerState::Merging, SchedulerEvent::Merged) => (
            SchedulerState::Idle,
            SchedulerAction::Wait,
        ),
        (SchedulerState::Merging, SchedulerEvent::Tick) => (
            SchedulerState::Merging,
            SchedulerAction::Wait,
        ),
    }
}

/// Cancellation ends a scheduler, and an ended scheduler stays ended: from
/// any state `Cancelled` leads to `Terminated`, nothing leads out of it, and
/// a merge cycle starts only at a tick of an idle scheduler whose room
/// exists.
pub proof fn lemma_cancellation_ends_scheduler(
    state: SchedulerState,
    room_exists: bool,
    event: SchedulerEvent,
)
    ensures
        scheduler_next(state, room_exists, SchedulerEvent::Cancelled) == (
            SchedulerState::Terminated,
            SchedulerAction::Stop,
        ),
        scheduler_next(SchedulerState::Terminated, room_exists, event) == (
            SchedulerState::Terminated,
            SchedulerAction::Stop,
        ),
        scheduler_next(state, room_exists, event).1 is Merge ==> state is Idle && event is Tick
            && room_exists,
        scheduler_next(state, room_exists, event).0 is Terminated <==> state is Terminated
            || event is Cancelled || (state is Idle && event is Tick && !room_exists),
{
}

/// The state of a scheduler after `events`, taken in order; `rooms[i]`
/// says whether the room exists when `events[i]` is taken.
pub open spec fn scheduler_after(
    start: SchedulerState,
    rooms: Seq<bool>,
    events: Seq<SchedulerEvent>,
) -> SchedulerState
    recommends
        rooms.len() == events.len(),
    decreases events.len(),
{
    if events.len() == 0 {
        start
    } else {
        scheduler_next(
            scheduler_after(start, rooms.drop_last(), events.drop_last()),
            rooms.last(),
            events.last(),
        ).0
    }
}

/// After cancellation no merge begins: once `Cancelled` is among the
/// events a scheduler has taken, it is terminated, whatever came after.
pub proof fn lemma_no_merge_after_cancellation(
    start: SchedulerState,
    rooms: Seq<bool>,
    events: Seq<SchedulerEvent>,
)
    requires
        rooms.len() == events.len(),
        events.contains(SchedulerEvent::Cancelled),
    ensures
        scheduler_after(start, rooms, events) is Terminated,
    decreases events.len(),
{
    let i = choose|i: int| 0 <= i < events.len() && events[i] == SchedulerEvent::Cancelled;
    if i < events.len() - 1 {
        assert(events.drop_last()[i] == SchedulerEvent::Cancelled);
        lemma_no_merge_after_cancellation(start, rooms.drop_last(), events.drop_last());
    }
}

/// The scheduler of one document's merges.
#[derive(Debug, Clone, Copy, PartialEq, Eq, Structural)]
pub struct MergeScheduler {
    doc_id: u128,
    state: SchedulerState,
}

/// The scheduler for the room of `id` that has just been created: idle
/// until its first tick.
pub fn run_merge(id: u128) -> (scheduler: MergeScheduler)
    ensures
        scheduler.spec_doc_id() == id,
        scheduler.spec_state() == SchedulerState::Idle,
{
    MergeScheduler { doc_id: id, state: SchedulerState::Idle }
}

impl MergeScheduler {
    pub closed spec fn spec_doc_id(self) -> u128 {
        self.doc_id
    }

    pub closed spec fn spec_state(self) -> SchedulerState {
        self.state
    }

    pub fn doc_id(&self) -> (id: u128)
        ensures
            id == self.spec_doc_id(),
    {
        self.doc_id
    }

    pub fn state(&self) -> (state: SchedulerState)
        ensures
            state == self.spec_state(),
    {
        self.state
    }

    /// Takes `event` and says what the task does next.
    pub fn step(&mut self, rooms: &Rooms, event: SchedulerEvent) -> (action: SchedulerAction)
        ensures
            final(self).spec_doc_id() == old(self).spec_doc_id(),
            (final(self).spec_state(), action) == scheduler_next(
                old(self).spec_state(),
                rooms@.contains_key(old(self).spec_doc_id()),
                event,
            ),
    {
        let (state, action) = match (self.state, event) {
            (SchedulerState::Terminated, _) => (SchedulerState::Terminated, SchedulerAction::Stop),
            (_, SchedulerEvent::Cancelled) => (SchedulerState::Terminated, SchedulerAction::Stop),
            (SchedulerState::Idle, SchedulerEvent::Tick) => if rooms.room_exists(self.doc_id) {
                (SchedulerState::Merging, SchedulerAction::Merge)
            } else {
                (SchedulerState::Terminated, SchedulerAction::Stop)
            },
            (SchedulerState::Idle, SchedulerEvent::Merged) => (
                SchedulerState::Idle,
                SchedulerAction::Wait,
            ),
            (SchedulerState::Merging, SchedulerEvent::Merged) => (
                SchedulerState::Idle,
                SchedulerAction::Wait,
            ),
            (SchedulerState::Merging, SchedulerEvent::Tick) => (
                SchedulerState::Merging,
                SchedulerAction::Wait,
            ),
        };
        self.state = state;
        action
    }
}

} // verus!
