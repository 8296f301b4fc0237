//! The room registry: which connections are subscribed to which document.

use dashmap::DashMap;
use vstd::prelude::*;

verus! {

/// A live connection, known to the registry by its identifier alone. The
/// transport handle of the peer stays with the program that owns the socket.
#[derive(Debug, Clone, Copy, PartialEq, Eq, Structural)]
pub struct Connection {
    pub id: u128,
}

/// The identifiers of a list of connections, in order.
pub open spec fn ids_of(members: Seq<Connection>) -> Seq<u128> {
    members.map_values(|c: Connection| c.id)
}

/// `dashmap::DashMap`, held as an opaque value: what it contains is spoken
/// of through [`room_table`] alone.
#[verifier::external_type_specification]
#[verifier::external_body]
#[verifier::reject_recursive_types(K)]
#[verifier::reject_recursive_types(V)]
#[verifier::reject_recursive_types(S)]
pub struct ExDashMap<K, V, S>(DashMap<K, V, S>);

/// The registry as a mathematical map: for each document with a room, the
/// identifiers of its members in the order in which they joined.
pub type RoomsView = Map<u128, Seq<u128>>;

/// The table behind the registry.
pub type RoomTable = DashMap<u128, Vec<Connection>>;

/// What a room table holds: for each document with a room, the identifiers
/// of its members in the order in which they joined.
pub uninterp spec fn room_table(table: RoomTable) -> RoomsView;

/// `DashMap::new`: a table without entries.
#[verifier::external_body]
fn table_new() -> (table: RoomTable)
    ensures
        room_table(table) == RoomsView::empty(),
{
    DashMap::new()
}

/// `DashMap::get`: a copy of the value stored under `doc`, if there is one.
#[verifier::external_body]
fn table_get(table: &RoomTable, doc: u128) -> (found: Option<Vec<Connection>>)
    ensures
        found is Some <==> room_table(*table).contains_key(doc),
        found matches Some(members) ==> ids_of(members@) == room_table(*table)[doc],
{
    table.get(&doc).map(|entry| entry.value().clone())
}

/// `DashMap::insert`: stores `members` under `doc`, replacing what was there;
/// no other entry changes.
#[verifier::external_body]
fn table_insert(table: &mut RoomTable, doc: u128, members: Vec<Connection>)
    ensures
        room_table(*final(table)) == room_table(*old(table)).insert(doc, ids_of(members@)),
{
    table.insert(doc, members);
}

/// `DashMap::remove`: removes the entry under `doc`, if there is one; no
/// other entry changes.
#[verifier::external_body]
fn table_remove(table: &mut RoomTable, doc: u128)
    ensures
        room_table(*final(table)) == room_table(*old(table)).remove(doc),
{
    table.remove(&doc);
}

/// The registry of rooms, keyed by document identifier.
///
/// A registry has one owner. Each operation is one step on it: tasks that
/// share a registry reach it under a lock, so that a step sees the registry
/// as the step before left it.
pub struct Rooms {
    value: RoomTable,
}

impl View for Rooms {
    type V = RoomsView;

    closed spec fn view(&self) -> RoomsView {
        room_table(self.value)
    }
}

/// No room exists as an empty entry.
pub open spec fn rooms_nonempty(rooms: RoomsView) -> bool {
    forall|doc: u128| #[trigger] rooms.contains_key(doc) ==> rooms[doc].len() > 0
}

/// No connection is listed twice in a room.
pub open spec fn rooms_distinct(rooms: RoomsView) -> bool {
    forall|doc: u128| #[trigger] rooms.contains_key(doc) ==> rooms[doc].no_duplicates()
}

/// The predicate "is not the connection `id`".
pub open spec fn is_other_than(id: u128) -> spec_fn(u128) -> bool {
    |member: u128| member != id
}

/// `members` without the connection `id`, the others in their order.
pub open spec fn without(members: Seq<u128>, id: u128) -> Seq<u128> {
    members.filter(is_other_than(id))
}

/// The registry after `id` has joined the room of `doc`: a first member
/// creates the room, a further one is listed last, and a connection that is
/// in the room already is not listed again.
pub open spec fn rooms_after_add(rooms: RoomsView, doc: u128, id: u128) -> RoomsView {
    if !rooms.contains_key(doc) {
        rooms.insert(doc, seq![id])
    } else if rooms[doc].contains(id) {
        rooms
    } else {
        rooms.insert(doc, rooms[doc].push(id))
    }
}

/// The registry after `id` has left the room of `doc`: the room goes with
/// its last member.
pub open spec fn rooms_after_remove(rooms: RoomsView, doc: u128, id: u128) -> RoomsView {
    if !rooms.contains_key(doc) {
        rooms
    } else if without(rooms[doc], id).len() == 0 {
        rooms.remove(doc)
    } else {
        rooms.insert(doc, without(rooms[doc], id))
    }
}

/// Who is sent a change that `origin` made to `doc`: every member of the
/// room but `origin`, in the order in which they joined.
pub open spec fn recipients(rooms: RoomsView, doc: u128, origin: u128) -> Seq<u128> {
    if rooms.contains_key(doc) {
        without(rooms[doc], origin)
    } else {
        Seq::empty()
    }
}

/// What stays in a room when `id` leaves: `id` is gone, every other
/// member is still there, and nobody has been added.
pub proof fn lemma_without(members: Seq<u128>, id: u128)
    ensures
        !without(members, id).contains(id),
        forall|member: u128|
            members.contains(member) && member != id ==> #[trigger] without(members, id).contains(
                member,
            ),
        forall|member: u128| #[trigger]
            without(members, id).contains(member) ==> members.contains(member),
        without(members, id).len() <= members.len(),
    decreases members.len(),
{
    if members.len() == 0 {
        reveal(Seq::filter);
    } else {
        let front = members.drop_last();
        let last = members.last();
        let kept = without(front, id);
        lemma_without(front, id);
        assert(members == front.push(last));
        front.lemma_filter_push(last, is_other_than(id));
        assert(without(members, id) == if last != id {
            kept.push(last)
        } else {
            kept
        });
        assert forall|member: u128| members.contains(member) && member != id implies #[trigger]
            without(members, id).contains(member) by {
            let i = choose|i: int| 0 <= i < members.len() && members[i] == member;
            if i < front.len() {
                assert(front[i] == member);
                assert(kept.contains(member));
                let j = choose|j: int| 0 <= j < kept.len() && kept[j] == member;
                assert(without(members, id)[j] == member);
            } else {
                assert(without(members, id)[kept.len() as int] == member);
            }
        }
        assert forall|member: u128| #[trigger]
            without(members, id).contains(member) implies members.contains(member) by {
            let j = choose|j: int|
                0 <= j < without(members, id).len() && without(members, id)[j] == member;
            if j < kept.len() {
                assert(kept[j] == member);
                assert(kept.contains(member));
                let i = choose|i: int| 0 <= i < front.len() && front[i] == member;
                assert(members[i] == member);
            } else {
                assert(members[members.len() - 1] == member);
            }
        }
        if without(members, id).contains(id) {
            let j = choose|j: int|
                0 <= j < without(members, id).len() && without(members, id)[j] == id;
            if j < kept.len() {
                assert(kept[j] == id);
                assert(kept.contains(id));
            }
        }
    }
}

/// No room exists as an empty entry: the registry starts without rooms,
/// and neither a join nor a departure leaves an empty one behind.
pub proof fn lemma_rooms_stay_nonempty(rooms: RoomsView, doc: u128, id: u128)
    requires
        rooms_nonempty(rooms),
    ensures
        rooms_nonempty(RoomsView::empty()),
        rooms_nonempty(rooms_after_add(rooms, doc, id)),
        rooms_nonempty(rooms_after_remove(rooms, doc, id)),
{
    assert forall|other: u128| #[trigger]
        rooms_after_add(rooms, doc, id).contains_key(other) implies rooms_after_add(
        rooms,
        doc,
        id,
    )[other].len() > 0 by {
        if other != doc || (rooms.contains_key(doc) && rooms[doc].contains(id)) {
            assert(rooms.contains_key(other));
        }
    }
    assert forall|other: u128| #[trigger]
        rooms_after_remove(rooms, doc, id).contains_key(other) implies rooms_after_remove(
        rooms,
        doc,
        id,
    )[other].len() > 0 by {
        assert(rooms.contains_key(other));
    }
}

/// No connection is listed twice in a room: the registry starts without
/// rooms, and neither a join nor a departure lists anyone a second time.
pub proof fn lemma_rooms_stay_distinct(rooms: RoomsView, doc: u128, id: u128)
    requires
        rooms_distinct(rooms),
    ensures
        rooms_distinct(RoomsView::empty()),
        rooms_distinct(rooms_after_add(rooms, doc, id)),
        rooms_distinct(rooms_after_remove(rooms, doc, id)),
{
    assert forall|other: u128| #[trigger]
        rooms_after_remove(rooms, doc, id).contains_key(other) implies rooms_after_remove(
        rooms,
        doc,
        id,
    )[other].no_duplicates() by {
        assert(rooms.contains_key(other));
        if other == doc {
            lemma_without_keeps_distinct(rooms[doc], id);
        }
    }
    assert forall|other: u128| #[trigger]
        rooms_after_add(rooms, doc, id).contains_key(other) implies rooms_after_add(
        rooms,
        doc,
        id,
    )[other].no_duplicates() by {
        if other != doc || (rooms.contains_key(doc) && rooms[doc].contains(id)) {
            assert(rooms.contains_key(other));
        }
    }
}

/// Taking a member out of a list without duplicates leaves none.
proof fn lemma_without_keeps_distinct(members: Seq<u128>, id: u128)
    requires
        members.no_duplicates(),
    ensures
        without(members, id).no_duplicates(),
    decreases members.len(),
{
    if members.len() == 0 {
        reveal(Seq::filter);
    } else {
        let front = members.drop_last();
        let last = members.last();
        lemma_without_keeps_distinct(front, id);
        lemma_without(front, id);
        assert(members == front.push(last));
        front.lemma_filter_push(last, is_other_than(id));
        if without(front, id).contains(last) {
            let i = choose|i: int| 0 <= i < front.len() && front[i] == last;
            assert(members[i] == members[members.len() - 1]);
        }
    }
}

/// The originator of a change is never among those it is sent to, every
/// other member of its room is, and nobody outside the room is.
pub proof fn lemma_fan_out_excludes_origin(rooms: RoomsView, doc: u128, origin: u128)
    ensures
        !recipients(rooms, doc, origin).contains(origin),
        forall|member: u128|
            rooms.contains_key(doc) && rooms[doc].contains(member) && member != origin
                ==> #[trigger] recipients(rooms, doc, origin).contains(member),
        forall|member: u128| #[trigger]
            recipients(rooms, doc, origin).contains(member) ==> rooms.contains_key(doc)
                && rooms[doc].contains(member),
{
    if rooms.contains_key(doc) {
        lemma_without(rooms[doc], origin);
    }
}

/// A connection that has left a room gets nothing that is sent there
/// afterwards.
pub proof fn lemma_departed_gets_nothing(rooms: RoomsView, doc: u128, left: u128, origin: u128)
    ensures
        !recipients(rooms_after_remove(rooms, doc, left), doc, origin).contains(left),
{
    let after = rooms_after_remove(rooms, doc, left);
    if after.contains_key(doc) {
        lemma_without(rooms[doc], left);
        lemma_without(after[doc], origin);
    }
}

/// The members of `members` other than `id`, in order.
fn others(members: &Vec<Connection>, id: u128) -> (kept: Vec<Connection>)
    ensures
        ids_of(kept@) == without(ids_of(members@), id),
{
    let mut kept: Vec<Connection> = Vec::new();
    let mut i: usize = 0;
    assert(ids_of(members@.take(0)) == Seq::<u128>::empty());
    proof {
        reveal(Seq::filter);
    }
    while i < members.len()
        invariant
            i <= members.len(),
            ids_of(kept@) == without(ids_of(members@.take(i as int)), id),
        decreases members.len() - i,
    {
        let conn = members[i];
        proof {
            let before = ids_of(members@.take(i as int));
            assert(ids_of(members@.take(i + 1)) == before.push(conn.id));
            before.lemma_filter_push(conn.id, is_other_than(id));
        }
        if conn.id != id {
            let ghost kept_before = kept@;
            kept.push(conn);
            assert(ids_of(kept@) == ids_of(kept_before).push(conn.id));
        }
        i += 1;
    }
    assert(members@.take(i as int) == members@);
    kept
}

/// Whether the connection `id` is among `members`.
fn holds(members: &Vec<Connection>, id: u128) -> (found: bool)
    ensures
        found == ids_of(members@).contains(id),
{
    let mut i: usize = 0;
    while i < members.len()
        invariant
            i <= members.len(),
            forall|k: int| 0 <= k < i ==> ids_of(members@)[k] != id,
        decreases members.len() - i,
    {
        if members[i].id == id {
            assert(ids_of(members@)[i as int] == id);
            return true;
        }
        i += 1;
    }
    false
}

impl Default for Rooms {
    fn default() -> (rooms: Self)
        ensures
            rooms@ == RoomsView::empty(),
            rooms_nonempty(rooms@),
            rooms_distinct(rooms@),
    {
        Rooms::new()
    }
}

impl Rooms {
    /// A registry without rooms.
    pub fn new() -> (rooms: Rooms)
        ensures
            rooms@ == RoomsView::empty(),
            rooms_nonempty(rooms@),
            rooms_distinct(rooms@),
    {
        Rooms { value: table_new() }
    }

    /// Whether `room_id` has a room.
    pub fn room_exists(&self, room_id: u128) -> (present: bool)
        ensures
            present == self@.contains_key(room_id),
    {
        table_get(&self.value, room_id).is_some()
    }

    /// The members of the room of `room_id` in the order in which they
    /// joined; none where there is no room.
    pub fn members(&self, room_id: u128) -> (members: Vec<Connection>)
        ensures
            ids_of(members@) == if self@.contains_key(room_id) {
                self@[room_id]
            } else {
                Seq::empty()
            },
    {
        match table_get(&self.value, room_id) {
            Some(members) => members,
            None => {
                let members: Vec<Connection> = Vec::new();
                assert(ids_of(members@) == Seq::<u128>::empty());
                members
            },
        }
    }

    /// Adds `conn` to the room of `room_id`, creating the room if there is
    /// none. A connection that is in the room already stays listed once.
    /// Returns whether this call created the room.
    pub fn add_connection(&mut self, room_id: u128, conn: Connection) -> (was_empty: bool)
        ensures
            was_empty == !old(self)@.contains_key(room_id),
            final(self)@ == rooms_after_add(old(self)@, room_id, conn.id),
            rooms_nonempty(old(self)@) ==> rooms_nonempty(final(self)@),
            rooms_distinct(old(self)@) ==> rooms_distinct(final(self)@),
    {
        proof {
            if rooms_nonempty(old(self)@) {
                lemma_rooms_stay_nonempty(old(self)@, room_id, conn.id);
            }
            if rooms_distinct(old(self)@) {
                lemma_rooms_stay_distinct(old(self)@, room_id, conn.id);
            }
        }
        let found = table_get(&self.value, room_id);
        match found {
            Some(mut members) => {
                if !holds(&members, conn.id) {
                    members.push(conn);
                    assert(ids_of(members@) == old(self)@[room_id].push(conn.id));
                    table_insert(&mut self.value, room_id, members);
                }
                false
            },
            None => {
                let members = vec![conn];
                assert(ids_of(members@) == seq![conn.id]);
                table_insert(&mut self.value, room_id, members);
                true
            },
        }
    }

    /// Removes the connection `connection_id` from the room of `room_id`. A
    /// room that becomes empty is deleted.
    pub fn remove_connection(&mut self, room_id: u128, connection_id: u128)
        ensures
            final(self)@ == rooms_after_remove(old(self)@, room_id, connection_id),
            rooms_nonempty(old(self)@) ==> rooms_nonempty(final(self)@),
            rooms_distinct(old(self)@) ==> rooms_distinct(final(self)@),
    {
        proof {
            if rooms_nonempty(old(self)@) {
                lemma_rooms_stay_nonempty(old(self)@, room_id, connection_id);
            }
            if rooms_distinct(old(self)@) {
                lemma_rooms_stay_distinct(old(self)@, room_id, connection_id);
            }
        }
        let found = table_get(&self.value, room_id);
        match found {
            Some(members) => {
                let kept = others(&members, connection_id);
                if kept.len() == 0 {
                    table_remove(&mut self.value, room_id);
                } else {
                    table_insert(&mut self.value, room_id, kept);
                }
            },
            None => {},
        }
    }

    /// The connections to which a change that `connection_id` made in the
    /// room of `room_id` is sent: every member but its originator. The list
    /// is the room as it is at the call; who leaves later is still in it.
    pub fn send_change(&self, room_id: u128, connection_id: u128) -> (targets: Vec<Connection>)
        ensures
            ids_of(targets@) == recipients(self@, room_id, connection_id),
            !ids_of(targets@).contains(connection_id),
    {
        proof {
            lemma_fan_out_excludes_origin(self@, room_id, connection_id);
        }
        match table_get(&self.value, room_id) {
            Some(members) => others(&members, connection_id),
            None => {
                let targets: Vec<Connection> = Vec::new();
                assert(ids_of(targets@) == Seq::<u128>::empty());
                targets
            },
        }
    }
}

} // verus!
