//! How rooms and merge schedulers go together: a scheduler is started for
//! the connection that creates a room, and ends itself at the first tick
//! that finds the room gone.

use crate::merge::scheduler_next;
use crate::merge::SchedulerEvent;
use crate::merge::SchedulerState;
use crate::rooms::rooms_after_add;
use crate::rooms::rooms_after_remove;
use crate::rooms::RoomsView;
use vstd::prelude::*;

verus! {

/// What happens around the room of one document.
pub enum RoomStep {
    /// A session has caught up, and its connection joins.
    Join(u128),
    /// An active session ends, and its connection leaves.
    Leave(u128),
    /// The merge interval of a running scheduler has passed.
    Tick,
}

/// The registry, and the number of schedulers that run for one document.
pub struct Coupling {
    pub rooms: RoomsView,
    pub schedulers: nat,
}

/// The state after `step`. A join starts a scheduler where it creates the
/// room, as the session says; a tick ends the scheduler that ticks where
/// the scheduler's transition says so.
pub open spec fn coupling_next(before: Coupling, doc: u128, step: RoomStep) -> Coupling {
    match step {
        RoomStep::Join(id) => Coupling {
            rooms: rooms_after_add(before.rooms, doc, id),
            schedulers: if before.rooms.contains_key(doc) {
                before.schedulers
            } else {
                before.schedulers + 1
            },
        },
        RoomStep::Leave(id) => Coupling {
            rooms: rooms_after_remove(before.rooms, doc, id),
            schedulers: before.schedulers,
        },
        RoomStep::Tick => Coupling {
            rooms: before.rooms,
            schedulers: if before.schedulers > 0 && scheduler_next(
                SchedulerState::Idle,
                before.rooms.contains_key(doc),
                SchedulerEvent::Tick,
            ).0 is Terminated {
                (before.schedulers - 1) as nat
            } else {
                before.schedulers
            },
        },
    }
}

/// The state after `steps`, taken in order.
pub open spec fn coupling_after(start: Coupling, doc: u128, steps: Seq<RoomStep>) -> Coupling
    decreases steps.len(),
{
    if steps.len() == 0 {
        start
    } else {
        coupling_next(coupling_after(start, doc, steps.drop_last()), doc, steps.last())
    }
}

/// One scheduler runs while the room exists, and none while it does not.
pub open spec fn coupled(state: Coupling, doc: u128) -> bool {
    state.schedulers == if state.rooms.contains_key(doc) {
        1nat
    } else {
        0nat
    }
}

/// The room is gone and a scheduler has not ticked since: the state is
/// not quiescent.
pub open spec fn awaits_tick(state: Coupling, doc: u128) -> bool {
    !state.rooms.contains_key(doc) && state.schedulers > 0
}

/// No connection joins between the departure that deletes the room and
/// the tick at which the room's scheduler finds it gone.
pub open spec fn joins_when_quiescent(start: Coupling, doc: u128, steps: Seq<RoomStep>) -> bool {
    forall|i: int|
        0 <= i < steps.len() && #[trigger] steps[i] is Join ==> !awaits_tick(
            coupling_after(start, doc, steps.take(i)),
            doc,
        )
}

/// Room and scheduler are coupled at every quiescent point: from a coupled
/// state, after any joins, departures and ticks of which no join falls
/// between the deletion of the room and its scheduler's next tick, either
/// one scheduler runs and the room exists, or none runs and there is no
/// room, or the room is gone and its one scheduler has yet to tick.
pub proof fn lemma_room_scheduler_coupling(start: Coupling, doc: u128, steps: Seq<RoomStep>)
    requires
        coupled(start, doc),
        joins_when_quiescent(start, doc, steps),
    ensures
        coupling_after(start, doc, steps).schedulers <= 1,
        !awaits_tick(coupling_after(start, doc, steps), doc) ==> coupled(
            coupling_after(start, doc, steps),
            doc,
        ),
    decreases steps.len(),
{
    if steps.len() > 0 {
        let front = steps.drop_last();
        assert forall|i: int| 0 <= i < front.len() && #[trigger] front[i] is Join implies !awaits_tick(
            coupling_after(start, doc, front.take(i)),
            doc,
        ) by {
            assert(steps[i] is Join);
            assert(front.take(i) == steps.take(i));
        }
        lemma_room_scheduler_coupling(start, doc, front);
        let before = coupling_after(start, doc, front);
        if steps.last() is Join {
            assert(steps[steps.len() - 1] is Join);
            assert(steps.take(steps.len() - 1) == front);
        }
    }
}

} // verus!
