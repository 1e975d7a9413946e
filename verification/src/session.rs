//! The session: what one connection does to the room, event by event.
//!
//! A session waits for a join, is active while its connection lives, and is
//! terminated after that. The caller owns the connection: it hands each
//! event to the session and carries out the actions that come back.

use vstd::prelude::*;
use crate::bus::{after_drain, next_id, subscribed, waiting};
use crate::message::{Message, MessageType, MessageView, views};
use crate::room::{Room, RoomView, broadcast};
use crate::wire::{DecodeFault, WsMessageToChatMessageError, decoded, decodes_as};

verus! {

/// What happened on a connection.
#[derive(Clone, Debug, PartialEq, Eq)]
pub enum Event {
    /// A frame came in.
    Frame(Vec<u8>),
    /// The inbound stream ended or failed.
    Closed,
    /// A relayed message could not be sent.
    SendFailed,
    /// Messages may wait for this session on the bus.
    Wake,
}

/// The mathematical model of an [`Event`].
pub enum EventView {
    Frame(Seq<u8>),
    Closed,
    SendFailed,
    Wake,
}

impl View for Event {
    type V = EventView;

    open spec fn view(&self) -> EventView {
        match *self {
            Event::Frame(bytes) => EventView::Frame(bytes@),
            Event::Closed => EventView::Closed,
            Event::SendFailed => EventView::SendFailed,
            Event::Wake => EventView::Wake,
        }
    }
}

/// What the caller has to do on the connection.
#[derive(Clone, Debug, PartialEq, Eq)]
pub enum Action {
    /// Send an entry of the history. A failure to send is skipped.
    Replay(Message),
    /// Send a message from the bus. A failure to send comes back as
    /// [`Event::SendFailed`].
    Relay(Message),
    /// Send a refusal to this connection only. A failure to send is skipped.
    Reject(Message),
    /// Release the connection.
    Close,
}

/// The mathematical model of an [`Action`].
pub enum ActionView {
    Replay(MessageView),
    Relay(MessageView),
    Reject(MessageView),
    Close,
}

impl View for Action {
    type V = ActionView;

    open spec fn view(&self) -> ActionView {
        match *self {
            Action::Replay(m) => ActionView::Replay(m@),
            Action::Relay(m) => ActionView::Relay(m@),
            Action::Reject(m) => ActionView::Reject(m@),
            Action::Close => ActionView::Close,
        }
    }
}

/// The views of a sequence of actions, in order.
pub open spec fn action_views(actions: Seq<Action>) -> Seq<ActionView> {
    actions.map_values(|a: Action| a@)
}

/// The state of a session.
pub enum SessionView {
    /// No join was accepted yet.
    AwaitingJoin,
    /// The session holds `username` and subscriber `subscription`.
    Active { username: Seq<char>, subscription: usize },
    /// The session is over.
    Terminated,
}

/// A session together with the room it acts on and the actions it asks for.
pub struct Step {
    pub session: SessionView,
    pub room: RoomView,
    pub actions: Seq<ActionView>,
}

/// The message without content that tells of `username` under `kind`.
pub open spec fn notice(kind: MessageType, username: Seq<char>) -> MessageView {
    MessageView { kind, username, content: None }
}

/// The room after a session joined under `username`: the name is held, the
/// session is subscribed, and the join was broadcast, to the new subscriber
/// too.
pub open spec fn joined(room: RoomView, username: Seq<char>) -> RoomView {
    broadcast(
        RoomView {
            names: room.names.insert(username),
            inboxes: subscribed(room.inboxes),
            ..room
        },
        notice(MessageType::Join, username),
    )
}

/// The room after the session of `username` left: its subscription is gone,
/// the leave was broadcast to the others, and the name is free.
pub open spec fn departed(room: RoomView, username: Seq<char>, subscription: usize) -> RoomView {
    let left = broadcast(
        RoomView { inboxes: room.inboxes.remove(subscription), ..room },
        notice(MessageType::Leave, username),
    );
    RoomView { names: left.names.remove(username), ..left }
}

/// The step that ends a session which never got active.
pub open spec fn closed(room: RoomView) -> Step {
    Step { session: SessionView::Terminated, room, actions: seq![ActionView::Close] }
}

/// What a session does with the outcome of decoding a frame.
///
/// Awaiting a join, anything but a join under a name that is not empty ends
/// the session; a name that is held is refused to this connection; a free
/// one makes the session active, with the history as it stood for replay,
/// unless the bus has no subscriber id left, which ends the session. An
/// active session broadcasts what decodes, as it is, and drops the rest.
pub open spec fn on_message_step(
    session: SessionView,
    room: RoomView,
    outcome: Result<MessageView, DecodeFault>,
) -> Step {
    match session {
        SessionView::AwaitingJoin => match outcome {
            Ok(message) => if message.kind != MessageType::Join || message.username.len() == 0 {
                closed(room)
            } else if room.names.contains(message.username) {
                Step {
                    session: SessionView::Terminated,
                    room,
                    actions: seq![
                        ActionView::Reject(notice(MessageType::UsernameTaken, message.username)),
                        ActionView::Close,
                    ],
                }
            } else {
                match next_id(room.inboxes) {
                    Some(subscription) => Step {
                        session: SessionView::Active { username: message.username, subscription },
                        room: joined(room, message.username),
                        actions: room.history.map_values(|m: MessageView| ActionView::Replay(m)),
                    },
                    None => closed(room),
                }
            },
            Err(_) => closed(room),
        },
        SessionView::Active { .. } => match outcome {
            Ok(message) => Step { session, room: broadcast(room, message), actions: seq![] },
            Err(_) => Step { session, room, actions: seq![] },
        },
        SessionView::Terminated => Step { session, room, actions: seq![] },
    }
}

/// What a session does when its connection is lost: an active one leaves
/// the room, one that awaits a join just ends, and a terminated one does
/// nothing.
pub open spec fn on_closed_step(session: SessionView, room: RoomView) -> Step {
    match session {
        SessionView::AwaitingJoin => closed(room),
        SessionView::Active { username, subscription } => Step {
            session: SessionView::Terminated,
            room: departed(room, username, subscription),
            actions: seq![ActionView::Close],
        },
        SessionView::Terminated => Step { session, room, actions: seq![] },
    }
}

/// What a session does when it is woken: an active one takes all that
/// waits for it on the bus and relays it in order.
pub open spec fn on_wake_step(session: SessionView, room: RoomView) -> Step {
    match session {
        SessionView::Active { username, subscription } => Step {
            session,
            room: RoomView { inboxes: after_drain(room.inboxes, subscription), ..room },
            actions: waiting(room.inboxes, subscription).map_values(
                |m: MessageView| ActionView::Relay(m),
            ),
        },
        _ => Step { session, room, actions: seq![] },
    }
}

/// What a session does on an event.
pub open spec fn step(session: SessionView, room: RoomView, event: EventView) -> Step {
    match event {
        EventView::Frame(bytes) => on_message_step(session, room, decoded(bytes)),
        EventView::Closed => on_closed_step(session, room),
        EventView::SendFailed => on_closed_step(session, room),
        EventView::Wake => on_wake_step(session, room),
    }
}

/// Whether an event tells that the connection is lost.
pub open spec fn ends(event: EventView) -> bool {
    event is Closed || event is SendFailed
}

/// Whether the session leaves the room on the event: it is active and the
/// connection is lost.
pub open spec fn departs(session: SessionView, event: EventView) -> bool {
    session is Active && ends(event)
}

/// How often a session leaves the room while it handles `events` in order,
/// where `rooms[i]` is the room as the session finds it at its event `i`,
/// after whatever other sessions did to it.
pub open spec fn departures(session: SessionView, rooms: Seq<RoomView>, events: Seq<EventView>) -> nat
    decreases events.len(),
{
    if events.len() == 0 || rooms.len() != events.len() {
        0
    } else {
        let now: nat = if departs(session, events[0]) {
            1
        } else {
            0
        };
        now + departures(
            step(session, rooms[0], events[0]).session,
            rooms.drop_first(),
            events.drop_first(),
        )
    }
}

/// When an active session loses its connection it leaves the room: the
/// session is over, its subscription is gone, its name is free, and the
/// leave under its name is the newest entry of the history and the newest
/// message of every other subscriber.
pub proof fn departure_frees_the_name(session: SessionView, room: RoomView, event: EventView)
    requires
        departs(session, event),
    ensures
        step(session, room, event).session is Terminated,
        step(session, room, event).room == departed(
            room,
            session->username,
            session->subscription,
        ),
        !step(session, room, event).room.names.contains(session->username),
        !step(session, room, event).room.inboxes.contains_key(session->subscription),
        room.limit > 0 ==> step(session, room, event).room.history.last() == notice(
            MessageType::Leave,
            session->username,
        ),
        forall|id: usize|
            room.inboxes.contains_key(id) && id != session->subscription ==> #[trigger] step(
                session,
                room,
                event,
            ).room.inboxes[id] == room.inboxes[id].push(
                notice(MessageType::Leave, session->username),
            ),
{
}

/// No other step takes a name from the registry: unless the session
/// leaves on the event, every name that was held is still held.
pub proof fn names_stay_until_departure(session: SessionView, room: RoomView, event: EventView)
    requires
        !departs(session, event),
    ensures
        room.names.subset_of(step(session, room, event).room.names),
{
}

/// A session leaves the room once at most, whatever it is handed and
/// whatever happens to the room in between. One that is active leaves
/// exactly once if an event tells that its connection is lost, and not
/// before that.
pub proof fn session_leaves_once(session: SessionView, rooms: Seq<RoomView>, events: Seq<EventView>)
    requires
        rooms.len() == events.len(),
    ensures
        departures(session, rooms, events) <= 1,
        session is Terminated ==> departures(session, rooms, events) == 0,
        session is Active ==> departures(session, rooms, events) == (if exists|i: int|
            0 <= i < events.len() && ends(#[trigger] events[i]) {
            1nat
        } else {
            0nat
        }),
    decreases events.len(),
{
    if events.len() > 0 {
        let next = step(session, rooms[0], events[0]).session;
        let later = events.drop_first();
        session_leaves_once(next, rooms.drop_first(), later);
        if session is Active {
            if ends(events[0]) {
                assert(next is Terminated);
            } else {
                assert(next == session);
                if exists|i: int| 0 <= i < events.len() && ends(#[trigger] events[i]) {
                    let i = choose|i: int| 0 <= i < events.len() && ends(#[trigger] events[i]);
                    assert(ends(later[i - 1]));
                } else {
                    assert forall|j: int| 0 <= j < later.len() implies !ends(#[trigger] later[j]) by {
                        assert(later[j] == events[j + 1]);
                    }
                }
            }
        }
    }
}

#[derive(Clone, Copy, Debug, PartialEq, Eq, Structural)]
enum Phase {
    AwaitingJoin,
    Active,
    Terminated,
}

/// The coordinator of one connection.
#[derive(Debug)]
pub struct Session {
    phase: Phase,
    username: String,
    subscription: usize,
}

impl View for Session {
    type V = SessionView;

    closed spec fn view(&self) -> SessionView {
        match self.phase {
            Phase::AwaitingJoin => SessionView::AwaitingJoin,
            Phase::Active => SessionView::Active {
                username: self.username@,
                subscription: self.subscription,
            },
            Phase::Terminated => SessionView::Terminated,
        }
    }
}

/// Each message as an entry of the history to replay.
fn replays(messages: &Vec<Message>) -> (actions: Vec<Action>)
    ensures
        action_views(actions@) == views(messages@).map_values(|m: MessageView| ActionView::Replay(m)),
{
    let mut actions: Vec<Action> = Vec::new();
    let mut i: usize = 0;
    while i < messages.len()
        invariant
            i <= messages@.len(),
            actions@.len() == i,
            forall|k: int| 0 <= k < i ==> (#[trigger] actions@[k])@ == ActionView::Replay(messages@[k]@),
        decreases messages@.len() - i,
    {
        actions.push(Action::Replay(messages[i].copy()));
        i += 1;
    }
    assert(action_views(actions@) =~= views(messages@).map_values(
        |m: MessageView| ActionView::Replay(m),
    ));
    actions
}

/// Each message as one to relay from the bus.
fn relays(messages: &Vec<Message>) -> (actions: Vec<Action>)
    ensures
        action_views(actions@) == views(messages@).map_values(|m: MessageView| ActionView::Relay(m)),
{
    let mut actions: Vec<Action> = Vec::new();
    let mut i: usize = 0;
    while i < messages.len()
        invariant
            i <= messages@.len(),
            actions@.len() == i,
            forall|k: int| 0 <= k < i ==> (#[trigger] actions@[k])@ == ActionView::Relay(messages@[k]@),
        decreases messages@.len() - i,
    {
        actions.push(Action::Relay(messages[i].copy()));
        i += 1;
    }
    assert(action_views(actions@) =~= views(messages@).map_values(
        |m: MessageView| ActionView::Relay(m),
    ));
    actions
}

/// The model of a decoding outcome.
pub open spec fn outcome_view(outcome: Result<Message, WsMessageToChatMessageError>) -> Result<
    MessageView,
    DecodeFault,
> {
    match outcome {
        Ok(message) => Ok(message@),
        Err(error) => Err(error.fault),
    }
}

impl Session {
    /// A session that awaits its join.
    pub fn new() -> (session: Session)
        ensures
            session@ == SessionView::AwaitingJoin,
    {
        Session { phase: Phase::AwaitingJoin, username: String::new(), subscription: 0 }
    }

    /// Whether the session is active.
    pub fn is_active(&self) -> (active: bool)
        ensures
            active == (self@ is Active),
    {
        self.phase == Phase::Active
    }

    /// Whether the session is over.
    pub fn is_terminated(&self) -> (over: bool)
        ensures
            over == (self@ is Terminated),
    {
        self.phase == Phase::Terminated
    }

    /// The name that the session holds while it is active.
    pub fn username(&self) -> (name: Option<&str>)
        ensures
            match name {
                Some(n) => self@ is Active && self@->username == n@,
                None => !(self@ is Active),
            },
    {
        if self.phase == Phase::Active {
            Some(self.username.as_str())
        } else {
            None
        }
    }

    /// The subscriber of the bus that the session is while it is active.
    pub fn subscription(&self) -> (id: Option<usize>)
        ensures
            match id {
                Some(i) => self@ is Active && self@->subscription == i,
                None => !(self@ is Active),
            },
    {
        if self.phase == Phase::Active {
            Some(self.subscription)
        } else {
            None
        }
    }

    fn terminate(&mut self)
        ensures
            final(self)@ == SessionView::Terminated,
    {
        self.phase = Phase::Terminated;
    }

    /// Handles the outcome of decoding one inbound frame.
    pub fn on_message(
        &mut self,
        room: &mut Room,
        outcome: Result<Message, WsMessageToChatMessageError>,
    ) -> (actions: Vec<Action>)
        ensures
            (Step {
                session: final(self)@,
                room: final(room)@,
                actions: action_views(actions@),
            }) == on_message_step(old(self)@, old(room)@, outcome_view(outcome)),
    {
        match self.phase {
            Phase::AwaitingJoin => match outcome {
                Ok(message) => {
                    if message.kind() != MessageType::Join || message.username().is_empty() {
                        self.terminate();
                        let actions = vec![Action::Close];
                        assert(action_views(actions@) =~= seq![ActionView::Close]);
                        return actions;
                    }
                    let name = message.username().to_owned();
                    if room.registry.contains(name.as_str()) {
                        self.terminate();
                        let refusal = Message::new(MessageType::UsernameTaken, name, None);
                        let actions = vec![Action::Reject(refusal), Action::Close];
                        assert(action_views(actions@) =~= seq![
                            ActionView::Reject(notice(MessageType::UsernameTaken, message@.username)),
                            ActionView::Close,
                        ]);
                        return actions;
                    }
                    let subscription = match room.bus.subscribe() {
                        Some(subscription) => subscription,
                        None => {
                            self.terminate();
                            let actions = vec![Action::Close];
                            assert(action_views(actions@) =~= seq![ActionView::Close]);
                            return actions;
                        },
                    };
                    room.registry.try_join(name.as_str());
                    let history = room.history.snapshot();
                    room.publish(Message::new(MessageType::Join, name.clone(), None));
                    self.phase = Phase::Active;
                    self.username = name;
                    self.subscription = subscription;
                    replays(&history)
                },
                Err(_) => {
                    self.terminate();
                    let actions = vec![Action::Close];
                    assert(action_views(actions@) =~= seq![ActionView::Close]);
                    actions
                },
            },
            Phase::Active => {
                match outcome {
                    Ok(message) => {
                        room.publish(message);
                    },
                    Err(_) => {},
                }
                let actions: Vec<Action> = Vec::new();
                assert(action_views(actions@) =~= seq![]);
                actions
            },
            Phase::Terminated => {
                let actions: Vec<Action> = Vec::new();
                assert(action_views(actions@) =~= seq![]);
                actions
            },
        }
    }

    /// Handles one inbound frame: decodes it and acts on the outcome.
    pub fn on_frame(&mut self, room: &mut Room, bytes: &[u8]) -> (actions: Vec<Action>)
        ensures
            (Step {
                session: final(self)@,
                room: final(room)@,
                actions: action_views(actions@),
            }) == step(old(self)@, old(room)@, EventView::Frame(bytes@)),
    {
        let outcome = Message::decode(bytes);
        self.on_message(room, outcome)
    }

    /// Handles the loss of the connection, inbound or outbound.
    pub fn on_closed(&mut self, room: &mut Room) -> (actions: Vec<Action>)
        ensures
            (Step {
                session: final(self)@,
                room: final(room)@,
                actions: action_views(actions@),
            }) == on_closed_step(old(self)@, old(room)@),
    {
        match self.phase {
            Phase::AwaitingJoin => {
                self.terminate();
                let actions = vec![Action::Close];
                assert(action_views(actions@) =~= seq![ActionView::Close]);
                actions
            },
            Phase::Active => {
                room.bus.unsubscribe(self.subscription);
                room.publish(Message::new(MessageType::Leave, self.username.clone(), None));
                room.registry.leave(self.username.as_str());
                self.terminate();
                let actions = vec![Action::Close];
                assert(action_views(actions@) =~= seq![ActionView::Close]);
                actions
            },
            Phase::Terminated => {
                let actions: Vec<Action> = Vec::new();
                assert(action_views(actions@) =~= seq![]);
                actions
            },
        }
    }

    /// Handles a wake-up: takes what waits on the bus for relaying.
    pub fn on_wake(&mut self, room: &mut Room) -> (actions: Vec<Action>)
        ensures
            (Step {
                session: final(self)@,
                room: final(room)@,
                actions: action_views(actions@),
            }) == on_wake_step(old(self)@, old(room)@),
    {
        match self.phase {
            Phase::Active => {
                let waiting = room.bus.drain(self.subscription);
                relays(&waiting)
            },
            _ => {
                let actions: Vec<Action> = Vec::new();
                assert(action_views(actions@) =~= seq![]);
                actions
            },
        }
    }

    /// Handles one event.
    pub fn handle(&mut self, room: &mut Room, event: Event) -> (actions: Vec<Action>)
        ensures
            (Step {
                session: final(self)@,
                room: final(room)@,
                actions: action_views(actions@),
            }) == step(old(self)@, old(room)@, event@),
    {
        match event {
            Event::Frame(bytes) => self.on_frame(room, bytes.as_slice()),
            Event::Closed => self.on_closed(room),
            Event::SendFailed => self.on_closed(room),
            Event::Wake => self.on_wake(room),
        }
    }
}

} // verus!
