//! The room: the registry, the history and the bus that all sessions of
//! one relay share.

use vstd::prelude::*;
use crate::bus::{Bus, published};
use crate::history::{History, last_of};
use crate::message::{Message, MessageView};
use crate::registry::Registry;

verus! {

/// The mathematical model of a [`Room`].
pub struct RoomView {
    /// The names that active sessions hold.
    pub names: Set<Seq<char>>,
    /// The last messages that were broadcast, oldest first.
    pub history: Seq<MessageView>,
    /// The number of messages the history keeps at most.
    pub limit: nat,
    /// What waits for each subscriber of the bus.
    pub inboxes: Map<usize, Seq<MessageView>>,
}

/// The room after `message` was broadcast: the history has it as its
/// newest entry and every subscriber has it at the end of its inbox.
pub open spec fn broadcast(room: RoomView, message: MessageView) -> RoomView {
    RoomView {
        history: last_of(room.history.push(message), room.limit),
        inboxes: published(room.inboxes, message),
        ..room
    }
}

/// The shared state of one relay.
pub struct Room {
    /// The names that active sessions hold.
    pub registry: Registry,
    /// The last messages that were broadcast.
    pub history: History,
    /// The subscribers and what waits for each.
    pub bus: Bus,
}

impl View for Room {
    type V = RoomView;

    open spec fn view(&self) -> RoomView {
        RoomView {
            names: self.registry@,
            history: self.history@,
            limit: self.history.limit(),
            inboxes: self.bus@,
        }
    }
}

impl Room {
    /// An empty room whose history keeps the last `capacity` messages.
    pub fn new(capacity: usize) -> (room: Room)
        ensures
            room@ == (RoomView {
                names: Set::empty(),
                history: Seq::empty(),
                limit: capacity as nat,
                inboxes: Map::empty(),
            }),
    {
        Room { registry: Registry::new(), history: History::new(capacity), bus: Bus::new() }
    }

    /// Broadcasts a message: to the inbox of every subscriber, and into the
    /// history.
    pub fn publish(&mut self, message: Message)
        ensures
            final(self)@ == broadcast(old(self)@, message@),
    {
        self.bus.publish(&message);
        self.history.append(message);
    }
}

} // verus!
