//! The session of one connection: catch-up on opening, then the handling of
//! inbound frames until the connection closes.
//!
//! The session decides; its driver performs. The driver hands each event to
//! [`Session::step`], carries out the action that comes back, and reports
//! the outcome as the next event.

use crate::ack::ack_frame;
use crate::ack::acknowledge;
use crate::change::change_payloads;
use crate::change::frames_of;
use crate::change::ChangeData;
use crate::codec::admit_change;
use crate::codec::change_decodes;
use crate::error::AppError;
use crate::error::AppResult;
use crate::ids::parse_document_id;
use crate::ids::uuid_of_text;
use crate::rooms::ids_of;
use crate::rooms::lemma_fan_out_excludes_origin;
use crate::rooms::lemma_without;
use crate::rooms::recipients;
use crate::rooms::rooms_after_add;
use crate::rooms::rooms_after_remove;
use crate::rooms::Connection;
use crate::rooms::Rooms;
use crate::rooms::RoomsView;
use vstd::prelude::*;

verus! {

/// Where a session stands. `Listing` and `Replaying` together are the
/// catching-up of a client that has not joined its room yet.
#[derive(Debug, Clone, Copy, PartialEq, Eq, Structural)]
pub enum SessionState {
    /// The protocol upgrade is under way.
    Opening,
    /// Catching up: the change log is being listed.
    Listing,
    /// Catching up: the logged changes are being sent.
    Replaying,
    /// Joined: inbound frames are handled.
    Active,
    /// Left the room; the sink is being closed.
    Closing,
    /// Over.
    Closed,
}

/// What happens to a session.
#[derive(Debug, PartialEq, Eq)]
pub enum SessionEvent {
    /// The protocol upgrade has completed.
    Upgraded,
    /// The store has listed the change log, in the order of insertion.
    Listed(Vec<ChangeData>),
    /// The store could not list the change log.
    ListFailed(AppError),
    /// Every frame of the last action has been sent to the peer.
    Sent,
    /// A frame of the last action could not be sent to the peer.
    SendFailed,
    /// A text frame has come in.
    Text(String),
    /// A binary frame has come in.
    Binary(Vec<u8>),
    /// The store has answered the append of `payload`.
    Stored { payload: Vec<u8>, outcome: AppResult<()> },
    /// A close frame has come in.
    Close,
    /// The transport has failed.
    TransportError,
    /// The inbound stream has ended.
    EndOfStream,
    /// Another frame has come in: a ping, a pong, a continuation.
    Other,
    /// The root cancellation token has fired.
    Cancelled,
    /// The sink has been closed, cleanly or not.
    SinkClosed,
}

/// What the driver of a session does next.
#[derive(Debug, Clone, PartialEq, Eq)]
pub enum SessionAction {
    /// Wait for the next event.
    Idle,
    /// List the change log of the document; report `Listed` or
    /// `ListFailed`.
    ListChanges,
    /// Send these binary frames in this order; report `Sent`, or
    /// `SendFailed` at the first that fails.
    Replay(Vec<Vec<u8>>),
    /// The connection has joined its room: start a merge scheduler for the
    /// document if `start_merge`, then wait for the next event.
    Listen { start_merge: bool },
    /// Send this text frame; report `Sent` or `SendFailed`.
    Echo(String),
    /// Append this payload to the change log of the document; report
    /// `Stored` with the payload and the store's answer.
    Append(Vec<u8>),
    /// Send this binary frame; report `Sent` or `SendFailed`.
    Ack(Vec<u8>),
    /// Send `payload` as a binary frame to each of `targets`, a failure
    /// being logged and skipped; then send `ack` as a binary frame to the
    /// peer and report `Sent` or `SendFailed`.
    Fanout { payload: Vec<u8>, targets: Vec<Connection>, ack: Vec<u8> },
    /// Close the sink and report `SinkClosed`. Holds the error that ended
    /// the session, if one did.
    Hangup(Option<AppError>),
}

/// The session of one connection to one document.
#[derive(Debug, Clone, Copy, PartialEq, Eq, Structural)]
pub struct Session {
    doc_id: u128,
    conn: Connection,
    state: SessionState,
}

/// A session as its contracts see it.
pub struct SessionView {
    pub doc_id: u128,
    pub conn_id: u128,
    pub state: SessionState,
}

impl View for Session {
    type V = SessionView;

    closed spec fn view(&self) -> SessionView {
        SessionView { doc_id: self.doc_id, conn_id: self.conn.id, state: self.state }
    }
}

/// Whether `event` ends a session wherever it stands: a close frame, a
/// transport error, the end of the stream, cancellation.
pub open spec fn ends_session(event: SessionEvent) -> bool {
    event is Close || event is TransportError || event is EndOfStream || event is Cancelled
}

/// The state that follows `event`.
pub open spec fn state_after(pre: SessionView, event: SessionEvent) -> SessionState {
    match pre.state {
        SessionState::Opening => if event is Upgraded {
            SessionState::Listing
        } else if ends_session(event) {
            SessionState::Closing
        } else {
            SessionState::Opening
        },
        SessionState::Listing => if event is Listed {
            SessionState::Replaying
        } else if event is ListFailed || ends_session(event) {
            SessionState::Closing
        } else {
            SessionState::Listing
        },
        SessionState::Replaying => if event is Sent {
            SessionState::Active
        } else if event is SendFailed || ends_session(event) {
            SessionState::Closing
        } else {
            SessionState::Replaying
        },
        SessionState::Active => if event is SendFailed || ends_session(event) {
            SessionState::Closing
        } else {
            SessionState::Active
        },
        SessionState::Closing => if event is SinkClosed {
            SessionState::Closed
        } else {
            SessionState::Closing
        },
        SessionState::Closed => SessionState::Closed,
    }
}

/// The registry after `event`: the connection joins when its catch-up has
/// been sent, and leaves when an active session ends; nothing else touches
/// the registry.
pub open spec fn rooms_after(pre: SessionView, rooms: RoomsView, event: SessionEvent) -> RoomsView {
    match pre.state {
        SessionState::Replaying => if event is Sent {
            rooms_after_add(rooms, pre.doc_id, pre.conn_id)
        } else {
            rooms
        },
        SessionState::Active => if event is SendFailed || ends_session(event) {
            rooms_after_remove(rooms, pre.doc_id, pre.conn_id)
        } else {
            rooms
        },
        _ => rooms,
    }
}

/// Whether `action` is what a session in `pre` answers `event` with.
pub open spec fn action_fits(
    pre: SessionView,
    rooms: RoomsView,
    event: SessionEvent,
    action: SessionAction,
) -> bool {
    if pre.state is Closing || pre.state is Closed {
        action is Idle
    } else if ends_session(event) {
        action matches SessionAction::Hangup(None)
    } else {
        match pre.state {
            SessionState::Opening => match event {
                SessionEvent::Upgraded => action is ListChanges,
                _ => action is Idle,
            },
            SessionState::Listing => match event {
                SessionEvent::Listed(changes) => action matches SessionAction::Replay(frames)
                    && frames_of(frames@) == change_payloads(changes@),
                SessionEvent::ListFailed(error) => action matches SessionAction::Hangup(
                    Some(cause),
                ) && cause == error,
                _ => action is Idle,
            },
            SessionState::Replaying => match event {
                SessionEvent::Sent => action matches SessionAction::Listen { start_merge }
                    && start_merge == !rooms.contains_key(pre.doc_id),
                SessionEvent::SendFailed => action matches SessionAction::Hangup(None),
                _ => action is Idle,
            },
            SessionState::Active => match event {
                SessionEvent::Text(text) => action matches SessionAction::Echo(echo) && echo@
                    == text@,
                SessionEvent::Binary(payload) => if change_decodes(payload@) {
                    action matches SessionAction::Append(change) && change@ == payload@
                } else {
                    action matches SessionAction::Ack(ack) && ack@ == ack_frame(
                        Err::<(), AppError>(AppError::BadRequest),
                    )
                },
                SessionEvent::Stored { payload, outcome } => match outcome {
                    Ok(_) => action matches SessionAction::Fanout { payload: change, targets, ack }
                        && change@ == payload@ && ids_of(targets@) == recipients(
                        rooms,
                        pre.doc_id,
                        pre.conn_id,
                    ) && ack@ == ack_frame(outcome),
                    Err(_) => action matches SessionAction::Ack(ack) && ack@ == ack_frame(
                        outcome,
                    ),
                },
                SessionEvent::SendFailed => action matches SessionAction::Hangup(None),
                _ => action is Idle,
            },
            _ => action is Idle,
        }
    }
}

/// Whether the connection `conn` is a member of the room of `doc`.
pub open spec fn is_member(rooms: RoomsView, doc: u128, conn: u128) -> bool {
    rooms.contains_key(doc) && rooms[doc].contains(conn)
}

/// The session as it is after `event`.
pub open spec fn session_after(pre: SessionView, event: SessionEvent) -> SessionView {
    SessionView { state: state_after(pre, event), ..pre }
}

/// A connection is in its room only while its session is active.
pub open spec fn member_only_if_active(session: SessionView, rooms: RoomsView) -> bool {
    is_member(rooms, session.doc_id, session.conn_id) ==> session.state is Active
}

/// A connection is registered only while its session is active, whatever
/// happens: a session that ends before it has joined leaves the registry
/// as it is, and an active session that ends takes its connection out.
pub proof fn lemma_registered_only_while_active(
    pre: SessionView,
    rooms: RoomsView,
    event: SessionEvent,
)
    requires
        member_only_if_active(pre, rooms),
    ensures
        member_only_if_active(session_after(pre, event), rooms_after(pre, rooms, event)),
        !(pre.state is Active) && !(state_after(pre, event) is Active) ==> rooms_after(
            pre,
            rooms,
            event,
        ) == rooms,
{
    if pre.state is Active && (event is SendFailed || ends_session(event)) {
        if rooms.contains_key(pre.doc_id) {
            lemma_without(rooms[pre.doc_id], pre.conn_id);
        }
    }
}

/// Catch-up comes before fan-out. A connection that is not in its room
/// gets no fan-out; it joins only at the event that reports its replay as
/// sent; the replay starts only with the listing of the log; and its
/// frames are the payloads of that listing, all of them, in log order.
pub proof fn lemma_catch_up_precedes_fan_out(
    pre: SessionView,
    rooms: RoomsView,
    event: SessionEvent,
    action: SessionAction,
    origin: u128,
)
    requires
        !is_member(rooms, pre.doc_id, pre.conn_id),
        action_fits(pre, rooms, event, action),
    ensures
        !recipients(rooms, pre.doc_id, origin).contains(pre.conn_id),
        is_member(rooms_after(pre, rooms, event), pre.doc_id, pre.conn_id) ==> pre.state
            is Replaying && event is Sent,
        state_after(pre, event) is Replaying ==> pre.state is Replaying || (pre.state is Listing
            && event is Listed),
        pre.state is Listing && event is Listed ==> action is Replay && frames_of(
            action->Replay_0@,
        ) == change_payloads(event->Listed_0@),
{
    lemma_fan_out_excludes_origin(rooms, pre.doc_id, origin);
    if pre.state is Active && (event is SendFailed || ends_session(event)) {
        if rooms.contains_key(pre.doc_id) {
            lemma_without(rooms[pre.doc_id], pre.conn_id);
        }
    }
}

/// A session with its registry, and what it has handed out for replay.
pub struct Progress {
    pub session: SessionView,
    pub rooms: RoomsView,
    /// The frames of the replay, once the log has been listed.
    pub replayed: Option<Seq<Seq<u8>>>,
}

/// The progress after `event`: the replay is the payloads of the log that
/// a listing session is given.
pub open spec fn progress_next(before: Progress, event: SessionEvent) -> Progress {
    Progress {
        session: session_after(before.session, event),
        rooms: rooms_after(before.session, before.rooms, event),
        replayed: if before.session.state is Listing && event is Listed {
            Some(change_payloads(event->Listed_0@))
        } else {
            before.replayed
        },
    }
}

/// The progress after `events`, taken in order.
pub open spec fn progress_after(start: Progress, events: Seq<SessionEvent>) -> Progress
    decreases events.len(),
{
    if events.len() == 0 {
        start
    } else {
        progress_next(progress_after(start, events.drop_last()), events.last())
    }
}

/// Whoever is in a room has caught up. Of a session that opens while its
/// connection is in no room, whatever events follow: the connection is in
/// its room only while the session is active, and then the log has been
/// listed and its payloads have been handed out for replay, and reported
/// as sent, before the connection joined.
pub proof fn lemma_joined_means_caught_up(
    doc: u128,
    conn: u128,
    rooms: RoomsView,
    events: Seq<SessionEvent>,
)
    requires
        !is_member(rooms, doc, conn),
    ensures
        ({
            let start = Progress {
                session: SessionView { doc_id: doc, conn_id: conn, state: SessionState::Opening },
                rooms,
                replayed: None,
            };
            let end = progress_after(start, events);
            &&& end.session.doc_id == doc
            &&& end.session.conn_id == conn
            &&& is_member(end.rooms, doc, conn) ==> end.session.state is Active
            &&& end.session.state is Replaying || end.session.state is Active
                ==> end.replayed is Some
        }),
    decreases events.len(),
{
    if events.len() > 0 {
        let start = Progress {
            session: SessionView { doc_id: doc, conn_id: conn, state: SessionState::Opening },
            rooms,
            replayed: None,
        };
        lemma_joined_means_caught_up(doc, conn, rooms, events.drop_last());
        let before = progress_after(start, events.drop_last());
        lemma_registered_only_while_active(before.session, before.rooms, events.last());
    }
}

/// Cancellation closes a session within the step that takes it: the
/// session is closing or closed, its connection is out of the registry,
/// and the driver is told to hang up unless the session was ending
/// already.
pub proof fn lemma_cancellation_closes_session(
    pre: SessionView,
    rooms: RoomsView,
    action: SessionAction,
)
    requires
        member_only_if_active(pre, rooms),
        action_fits(pre, rooms, SessionEvent::Cancelled, action),
    ensures
        state_after(pre, SessionEvent::Cancelled) is Closing || state_after(
            pre,
            SessionEvent::Cancelled,
        ) is Closed,
        !is_member(rooms_after(pre, rooms, SessionEvent::Cancelled), pre.doc_id, pre.conn_id),
        !(pre.state is Closing || pre.state is Closed) ==> action is Hangup,
{
    lemma_registered_only_while_active(pre, rooms, SessionEvent::Cancelled);
}

/// A session that is closing or closed does nothing more: it asks nothing
/// of its driver, leaves the registry as it is, and never becomes active
/// again.
pub proof fn lemma_closed_is_final(
    pre: SessionView,
    rooms: RoomsView,
    event: SessionEvent,
    action: SessionAction,
)
    requires
        pre.state is Closing || pre.state is Closed,
        action_fits(pre, rooms, event, action),
    ensures
        action is Idle,
        rooms_after(pre, rooms, event) == rooms,
        state_after(pre, event) is Closing || state_after(pre, event) is Closed,
        pre.state is Closed ==> state_after(pre, event) is Closed,
{
}

/// Whether `event` ends a session wherever it stands.
fn ends(event: &SessionEvent) -> (ending: bool)
    ensures
        ending == ends_session(*event),
{
    match event {
        SessionEvent::Close => true,
        SessionEvent::TransportError => true,
        SessionEvent::EndOfStream => true,
        SessionEvent::Cancelled => true,
        _ => false,
    }
}

impl Session {
    /// Opens the session of `connection` to the document that `doc_id`
    /// names. A malformed identifier is a bad request, and no session.
    pub fn open(doc_id: &str, connection: Connection) -> (opened: AppResult<Session>)
        ensures
            match uuid_of_text(doc_id@) {
                Some(id) => opened matches Ok(session) && session@ == (SessionView {
                    doc_id: id,
                    conn_id: connection.id,
                    state: SessionState::Opening,
                }),
                None => opened matches Err(AppError::BadRequest),
            },
    {
        match parse_document_id(doc_id) {
            Ok(id) => Ok(Session { doc_id: id, conn: connection, state: SessionState::Opening }),
            Err(error) => Err(error),
        }
    }

    /// The session of `connection` to the document `doc_id`, before its
    /// upgrade.
    pub fn new(doc_id: u128, connection: Connection) -> (session: Session)
        ensures
            session@ == (SessionView {
                doc_id,
                conn_id: connection.id,
                state: SessionState::Opening,
            }),
    {
        Session { doc_id, conn: connection, state: SessionState::Opening }
    }

    pub fn doc_id(&self) -> (id: u128)
        ensures
            id == self@.doc_id,
    {
        self.doc_id
    }

    pub fn connection(&self) -> (connection: Connection)
        ensures
            connection.id == self@.conn_id,
    {
        self.conn
    }

    pub fn state(&self) -> (state: SessionState)
        ensures
            state == self@.state,
    {
        self.state
    }

    /// Takes `event` and says what the driver does next.
    pub fn step(&mut self, rooms: &mut Rooms, event: SessionEvent) -> (action: SessionAction)
        ensures
            final(self)@ == (SessionView { state: state_after(old(self)@, event), ..old(self)@ }),
            final(rooms)@ == rooms_after(old(self)@, old(rooms)@, event),
            action_fits(old(self)@, old(rooms)@, event, action),
    {
        match self.state {
            SessionState::Closed => SessionAction::Idle,
            SessionState::Closing => {
                if let SessionEvent::SinkClosed = event {
                    self.state = SessionState::Closed;
                }
                SessionAction::Idle
            },
            SessionState::Active => self.step_active(rooms, event),
            _ => self.step_joining(rooms, event),
        }
    }

    /// A step of a session that has not joined its room yet.
    fn step_joining(&mut self, rooms: &mut Rooms, event: SessionEvent) -> (action: SessionAction)
        requires
            old(self)@.state is Opening || old(self)@.state is Listing || old(self)@.state
                is Replaying,
        ensures
            final(self)@ == (SessionView { state: state_after(old(self)@, event), ..old(self)@ }),
            final(rooms)@ == rooms_after(old(self)@, old(rooms)@, event),
            action_fits(old(self)@, old(rooms)@, event, action),
    {
        if ends(&event) {
            self.state = SessionState::Closing;
            return SessionAction::Hangup(None);
        }
        match (self.state, event) {
            (SessionState::Opening, SessionEvent::Upgraded) => {
                self.state = SessionState::Listing;
                SessionAction::ListChanges
            },
            (SessionState::Listing, SessionEvent::Listed(changes)) => {
                self.state = SessionState::Replaying;
                SessionAction::Replay(send_existing_changes(changes))
            },
            (SessionState::Listing, SessionEvent::ListFailed(error)) => {
                self.state = SessionState::Closing;
                SessionAction::Hangup(Some(error))
            },
            (SessionState::Replaying, SessionEvent::Sent) => {
                let start_merge = rooms.add_connection(self.doc_id, self.conn);
                self.state = SessionState::Active;
                SessionAction::Listen { start_merge }
            },
            (SessionState::Replaying, SessionEvent::SendFailed) => {
                self.state = SessionState::Closing;
                SessionAction::Hangup(None)
            },
            _ => SessionAction::Idle,
        }
    }

    /// A step of a session that has joined its room.
    fn step_active(&mut self, rooms: &mut Rooms, event: SessionEvent) -> (action: SessionAction)
        requires
            old(self)@.state is Active,
        ensures
            final(self)@ == (SessionView { state: state_after(old(self)@, event), ..old(self)@ }),
            final(rooms)@ == rooms_after(old(self)@, old(rooms)@, event),
            action_fits(old(self)@, old(rooms)@, event, action),
    {
        if ends(&event) {
            rooms.remove_connection(self.doc_id, self.conn.id);
            self.state = SessionState::Closing;
            return SessionAction::Hangup(None);
        }
        match event {
            SessionEvent::Text(text) => SessionAction::Echo(text),
            SessionEvent::Binary(payload) => {
                let admitted = admit_change(&payload);
                match admitted {
                    Ok(_) => SessionAction::Append(payload),
                    Err(_) => SessionAction::Ack(acknowledge(&admitted)),
                }
            },
            SessionEvent::Stored { payload, outcome } => {
                let pushed = push_change(rooms, self.doc_id, self.conn.id, outcome);
                let ack = acknowledge(&pushed);
                match pushed {
                    Ok(targets) => SessionAction::Fanout { payload, targets, ack },
                    Err(_) => SessionAction::Ack(ack),
                }
            },
            SessionEvent::SendFailed => {
                rooms.remove_connection(self.doc_id, self.conn.id);
                self.state = SessionState::Closing;
                SessionAction::Hangup(None)
            },
            _ => SessionAction::Idle,
        }
    }
}

/// The catch-up of a joining client: the payloads of the logged changes, as
/// the binary frames to send, in log order.
pub fn send_existing_changes(changes: Vec<ChangeData>) -> (frames: Vec<Vec<u8>>)
    ensures
        frames_of(frames@) == change_payloads(changes@),
{
    let (_, frames) = ChangeData::split_data(changes);
    frames
}

/// The fan-out of a change that `conn_id` made to `doc_id`, given the
/// store's answer to its append: a change that was not stored is sent to
/// nobody and its error is the result; one that was stored goes to every
/// member of the room but its originator.
pub fn push_change(rooms: &Rooms, doc_id: u128, conn_id: u128, stored: AppResult<()>) -> (pushed:
    AppResult<Vec<Connection>>)
    ensures
        match stored {
            Ok(_) => pushed matches Ok(targets) && ids_of(targets@) == recipients(
                rooms@,
                doc_id,
                conn_id,
            ),
            Err(error) => pushed matches Err(cause) && cause == error,
        },
{
    match stored {
        Ok(_) => Ok(rooms.send_change(doc_id, conn_id)),
        Err(error) => Err(error),
    }
}

} // verus!
