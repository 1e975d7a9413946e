//! The relay as a whole: one room and all the sessions that act on it.
//!
//! This file holds no executable code. It states what holds of the room
//! and its sessions together, whatever the connections do and in whatever
//! order their events are served.

use vstd::prelude::*;
use crate::room::RoomView;
use crate::session::{EventView, SessionView, step};

verus! {

/// A room and the sessions that were started on it, in the order they
/// were started.
pub struct RelayView {
    pub room: RoomView,
    pub sessions: Seq<SessionView>,
}

/// One thing that happens to a relay.
pub enum RelayOp {
    /// A connection is accepted and gets a session that awaits its join.
    Connect,
    /// A session is handed an event from its connection.
    Deliver { session: int, event: EventView },
}

/// A relay that nobody has connected to yet.
pub open spec fn new_relay(limit: nat) -> RelayView {
    RelayView {
        room: RoomView {
            names: Set::empty(),
            history: Seq::empty(),
            limit,
            inboxes: Map::empty(),
        },
        sessions: Seq::empty(),
    }
}

/// The relay after one thing happened. An event for a session that does
/// not exist changes nothing.
pub open spec fn relay_step(relay: RelayView, op: RelayOp) -> RelayView {
    match op {
        RelayOp::Connect => RelayView {
            sessions: relay.sessions.push(SessionView::AwaitingJoin),
            ..relay
        },
        RelayOp::Deliver { session, event } => if 0 <= session < relay.sessions.len() {
            let next = step(relay.sessions[session], relay.room, event);
            RelayView { room: next.room, sessions: relay.sessions.update(session, next.session) }
        } else {
            relay
        },
    }
}

/// Whether session `i` is active under `name`.
pub open spec fn holds(relay: RelayView, i: int, name: Seq<char>) -> bool {
    &&& 0 <= i < relay.sessions.len()
    &&& relay.sessions[i] is Active
    &&& relay.sessions[i]->username == name
}

/// Whether session `i` is active as subscriber `id`.
pub open spec fn listens(relay: RelayView, i: int, id: usize) -> bool {
    &&& 0 <= i < relay.sessions.len()
    &&& relay.sessions[i] is Active
    &&& relay.sessions[i]->subscription == id
}

/// The room and the sessions agree: no two active sessions share a name or
/// a subscription, the registry holds the names of the active sessions and
/// no others, and the bus has the subscribers of the active sessions and no
/// others.
pub open spec fn consistent(relay: RelayView) -> bool {
    &&& forall|i: int, j: int, name: Seq<char>|
        #[trigger] holds(relay, i, name) && #[trigger] holds(relay, j, name) ==> i == j
    &&& forall|i: int, j: int, id: usize|
        #[trigger] listens(relay, i, id) && #[trigger] listens(relay, j, id) ==> i == j
    &&& forall|name: Seq<char>| #[trigger]
        relay.room.names.contains(name) <==> exists|i: int| holds(relay, i, name)
    &&& forall|id: usize| #[trigger]
        relay.room.inboxes.contains_key(id) <==> exists|i: int| listens(relay, i, id)
}

/// A relay that nobody has connected to is consistent.
pub proof fn new_relay_is_consistent(limit: nat)
    ensures
        consistent(new_relay(limit)),
{
}

/// Whatever happens, the room and the sessions keep agreeing. So at every
/// moment a name has one active holder at most, a session that is over
/// holds no name, and a name is free again as soon as its holder is over.
pub proof fn relay_stays_consistent(relay: RelayView, op: RelayOp)
    requires
        consistent(relay),
    ensures
        consistent(relay_step(relay, op)),
{
    let after = relay_step(relay, op);
    match op {
        RelayOp::Connect => {
            assert forall|i: int, name: Seq<char>| holds(after, i, name) == holds(relay, i, name) by {}
            assert forall|i: int, id: usize| listens(after, i, id) == listens(relay, i, id) by {}
        },
        RelayOp::Deliver { session, event } => {
            if 0 <= session < relay.sessions.len() {
                let before = relay.sessions[session];
                let next = step(before, relay.room, event);
                assert forall|i: int, name: Seq<char>| i != session implies holds(after, i, name)
                    == holds(relay, i, name) by {}
                assert forall|i: int, id: usize| i != session implies listens(after, i, id)
                    == listens(relay, i, id) by {}
                match (before, next.session) {
                    (SessionView::AwaitingJoin, SessionView::Active { username, subscription }) => {
                        assert(holds(after, session, username));
                        assert(listens(after, session, subscription));
                        assert(!relay.room.names.contains(username));
                        assert(!relay.room.inboxes.contains_key(subscription));
                    },
                    (SessionView::Active { username, subscription }, SessionView::Terminated) => {
                        assert(holds(relay, session, username));
                        assert(listens(relay, session, subscription));
                    },
                    (SessionView::Active { username, subscription }, _) => {
                        assert(next.session == before);
                        assert forall|name: Seq<char>| holds(after, session, name) == holds(
                            relay,
                            session,
                            name,
                        ) by {}
                        assert forall|id: usize| listens(after, session, id) == listens(
                            relay,
                            session,
                            id,
                        ) by {}
                    },
                    _ => {
                        assert(next.room == relay.room);
                    },
                }
            }
        },
    }
}

/// The relay after the things `ops` happened in order.
pub open spec fn relay_after(relay: RelayView, ops: Seq<RelayOp>) -> RelayView
    decreases ops.len(),
{
    if ops.len() == 0 {
        relay
    } else {
        relay_after(relay_step(relay, ops[0]), ops.drop_first())
    }
}

/// Every relay that can come about is consistent: start with a relay that
/// nobody has connected to, let connections come and events be served in
/// any order, and the room and the sessions agree at the end.
pub proof fn relay_is_always_consistent(limit: nat, ops: Seq<RelayOp>)
    ensures
        consistent(relay_after(new_relay(limit), ops)),
{
    new_relay_is_consistent(limit);
    lemma_run_keeps_consistent(new_relay(limit), ops);
}

proof fn lemma_run_keeps_consistent(relay: RelayView, ops: Seq<RelayOp>)
    requires
        consistent(relay),
    ensures
        consistent(relay_after(relay, ops)),
    decreases ops.len(),
{
    if ops.len() > 0 {
        relay_stays_consistent(relay, ops[0]);
        lemma_run_keeps_consistent(relay_step(relay, ops[0]), ops.drop_first());
    }
}

} // verus!
