//! The broadcast bus: every published message goes to the inbox of every
//! subscriber, and each subscriber takes its messages in publishing order.

use std::collections::VecDeque;
use vstd::prelude::*;
use crate::message::{Message, MessageView, views};

verus! {

/// The inboxes after `message` was published: each has it at its end.
pub open spec fn published(
    inboxes: Map<usize, Seq<MessageView>>,
    message: MessageView,
) -> Map<usize, Seq<MessageView>> {
    Map::new(|id: usize| inboxes.contains_key(id), |id: usize| inboxes[id].push(message))
}

/// What waits for subscriber `id`; nothing where there is no such subscriber.
pub open spec fn waiting(inboxes: Map<usize, Seq<MessageView>>, id: usize) -> Seq<MessageView> {
    if inboxes.contains_key(id) {
        inboxes[id]
    } else {
        Seq::empty()
    }
}

/// The inboxes after subscriber `id` took its oldest message.
pub open spec fn after_poll(inboxes: Map<usize, Seq<MessageView>>, id: usize) -> Map<
    usize,
    Seq<MessageView>,
> {
    if waiting(inboxes, id).len() > 0 {
        inboxes.insert(id, inboxes[id].drop_first())
    } else {
        inboxes
    }
}

/// The inboxes after subscriber `id` took all that waited for it.
pub open spec fn after_drain(inboxes: Map<usize, Seq<MessageView>>, id: usize) -> Map<
    usize,
    Seq<MessageView>,
> {
    if inboxes.contains_key(id) {
        inboxes.insert(id, Seq::empty())
    } else {
        inboxes
    }
}

/// Whether `id` is the smallest id that no subscriber has. The largest
/// number of the machine is no id.
pub open spec fn is_next_id(inboxes: Map<usize, Seq<MessageView>>, id: usize) -> bool {
    &&& id < usize::MAX
    &&& !inboxes.contains_key(id)
    &&& forall|lower: usize| lower < id ==> #[trigger] inboxes.contains_key(lower)
}

/// The id that the next subscriber gets: the smallest that is free, or
/// none where every id is taken.
pub open spec fn next_id(inboxes: Map<usize, Seq<MessageView>>) -> Option<usize> {
    if exists|id: usize| is_next_id(inboxes, id) {
        Some(choose|id: usize| is_next_id(inboxes, id))
    } else {
        None
    }
}

/// There is one smallest free id at most.
pub proof fn next_id_is_unique(inboxes: Map<usize, Seq<MessageView>>, id: usize)
    requires
        is_next_id(inboxes, id),
    ensures
        next_id(inboxes) == Some(id),
{
    let other = choose|other: usize| is_next_id(inboxes, other);
    if other < id {
        assert(inboxes.contains_key(other));
    } else if id < other {
        assert(inboxes.contains_key(id));
    }
}

/// The inboxes after a subscriber was added under the smallest free id,
/// with nothing waiting for it. Where every id is taken, nothing changes.
pub open spec fn subscribed(inboxes: Map<usize, Seq<MessageView>>) -> Map<usize, Seq<MessageView>> {
    match next_id(inboxes) {
        Some(id) => inboxes.insert(id, Seq::empty()),
        None => inboxes,
    }
}

/// One request to a bus.
pub enum BusOp {
    /// A message is published.
    Publish(MessageView),
    /// A subscriber is added.
    Subscribe,
    /// A subscriber is removed.
    Unsubscribe(usize),
    /// A subscriber takes its oldest message.
    Poll(usize),
    /// A subscriber takes all that waits for it.
    Drain(usize),
}

/// The inboxes after one request.
pub open spec fn after_bus_op(inboxes: Map<usize, Seq<MessageView>>, op: BusOp) -> Map<
    usize,
    Seq<MessageView>,
> {
    match op {
        BusOp::Publish(message) => published(inboxes, message),
        BusOp::Subscribe => subscribed(inboxes),
        BusOp::Unsubscribe(id) => inboxes.remove(id),
        BusOp::Poll(id) => after_poll(inboxes, id),
        BusOp::Drain(id) => after_drain(inboxes, id),
    }
}

/// The messages that one request hands to subscriber `id`.
pub open spec fn handed_to(inboxes: Map<usize, Seq<MessageView>>, op: BusOp, id: usize) -> Seq<
    MessageView,
> {
    match op {
        BusOp::Poll(who) if who == id => if waiting(inboxes, id).len() > 0 {
            seq![waiting(inboxes, id)[0]]
        } else {
            Seq::empty()
        },
        BusOp::Drain(who) if who == id => waiting(inboxes, id),
        _ => Seq::empty(),
    }
}

/// The inboxes after the requests `ops` were served in order.
pub open spec fn after_bus_ops(inboxes: Map<usize, Seq<MessageView>>, ops: Seq<BusOp>) -> Map<
    usize,
    Seq<MessageView>,
>
    decreases ops.len(),
{
    if ops.len() == 0 {
        inboxes
    } else {
        after_bus_ops(after_bus_op(inboxes, ops[0]), ops.drop_first())
    }
}

/// All that the requests `ops`, served in order, hand to subscriber `id`.
pub open spec fn delivered_to(inboxes: Map<usize, Seq<MessageView>>, ops: Seq<BusOp>, id: usize) -> Seq<
    MessageView,
>
    decreases ops.len(),
{
    if ops.len() == 0 {
        Seq::empty()
    } else {
        handed_to(inboxes, ops[0], id) + delivered_to(
            after_bus_op(inboxes, ops[0]),
            ops.drop_first(),
            id,
        )
    }
}

/// The messages that the requests `ops` publish, in order.
pub open spec fn publications(ops: Seq<BusOp>) -> Seq<MessageView>
    decreases ops.len(),
{
    if ops.len() == 0 {
        Seq::empty()
    } else {
        let first = match ops[0] {
            BusOp::Publish(message) => seq![message],
            _ => Seq::empty(),
        };
        first + publications(ops.drop_first())
    }
}

/// A subscriber gets every message once and in publishing order: as long
/// as it stays subscribed, what it has taken so far followed by what still
/// waits for it is what waited at the start followed by all that was
/// published since, whatever other subscribers did in between.
pub proof fn subscriber_receives_in_order(
    inboxes: Map<usize, Seq<MessageView>>,
    ops: Seq<BusOp>,
    id: usize,
)
    requires
        inboxes.contains_key(id),
        forall|i: int| 0 <= i < ops.len() ==> ops[i] != BusOp::Unsubscribe(id),
    ensures
        after_bus_ops(inboxes, ops).contains_key(id),
        delivered_to(inboxes, ops, id) + after_bus_ops(inboxes, ops)[id] == inboxes[id]
            + publications(ops),
    decreases ops.len(),
{
    if ops.len() == 0 {
        assert(delivered_to(inboxes, ops, id) + inboxes[id] =~= inboxes[id] + publications(ops));
    } else {
        let next = after_bus_op(inboxes, ops[0]);
        let rest = ops.drop_first();
        assert forall|i: int| 0 <= i < rest.len() implies rest[i] != BusOp::Unsubscribe(id) by {
            assert(rest[i] == ops[i + 1]);
        }
        assert(ops[0] != BusOp::Unsubscribe(id));
        subscriber_receives_in_order(next, rest, id);
        // What the first request hands over and leaves behind is what waited
        // and what the request published.
        let handed = handed_to(inboxes, ops[0], id);
        let first = match ops[0] {
            BusOp::Publish(message) => seq![message],
            _ => Seq::empty(),
        };
        assert(handed + next[id] =~= inboxes[id] + first);
        let end = after_bus_ops(next, rest)[id];
        assert(delivered_to(inboxes, ops, id) + end =~= handed + (delivered_to(next, rest, id)
            + end));
        assert(handed + (next[id] + publications(rest)) =~= (handed + next[id]) + publications(
            rest,
        ));
        assert(inboxes[id] + publications(ops) =~= (inboxes[id] + first) + publications(rest));
    }
}

/// The subscribers of a room, each with the messages that wait for it.
pub struct Bus {
    slots: Vec<Option<VecDeque<Message>>>,
}

impl View for Bus {
    type V = Map<usize, Seq<MessageView>>;

    closed spec fn view(&self) -> Map<usize, Seq<MessageView>> {
        inboxes_of(self.slots@)
    }
}

spec fn inboxes_of(slots: Seq<Option<VecDeque<Message>>>) -> Map<usize, Seq<MessageView>> {
    Map::new(
        |id: usize| id < slots.len() && slots[id as int] is Some,
        |id: usize| views(slots[id as int]->Some_0@),
    )
}

impl Bus {
    /// A bus without subscribers.
    pub fn new() -> (bus: Bus)
        ensures
            bus@ == Map::<usize, Seq<MessageView>>::empty(),
    {
        let bus = Bus { slots: Vec::new() };
        assert(bus@ =~= Map::<usize, Seq<MessageView>>::empty());
        bus
    }

    /// Whether `id` is a subscriber.
    pub fn is_subscribed(&self, id: usize) -> (subscribed: bool)
        ensures
            subscribed == self@.contains_key(id),
    {
        id < self.slots.len() && self.slots[id].is_some()
    }

    /// The number of messages that wait for `id`.
    pub fn pending(&self, id: usize) -> (count: usize)
        ensures
            count == waiting(self@, id).len(),
    {
        if id < self.slots.len() {
            match &self.slots[id] {
                Some(queue) => queue.len(),
                None => 0,
            }
        } else {
            0
        }
    }

    /// Adds a subscriber with an empty inbox and returns its id: the
    /// smallest that no current subscriber has. Where every id is taken, it
    /// adds none.
    pub fn subscribe(&mut self) -> (id: Option<usize>)
        ensures
            id == next_id(old(self)@),
            final(self)@ == subscribed(old(self)@),
    {
        let mut i: usize = 0;
        while i < self.slots.len() && self.slots[i].is_some()
            invariant
                i <= self.slots@.len(),
                self.slots@ == old(self).slots@,
                forall|k: int| 0 <= k < i ==> #[trigger] self.slots@[k] is Some,
            decreases self.slots@.len() - i,
        {
            i += 1;
        }
        proof {
            assert forall|lower: usize| lower < i implies #[trigger] old(self)@.contains_key(
                lower,
            ) by {
                assert(old(self).slots@[lower as int] is Some);
            }
        }
        if i == usize::MAX {
            assert forall|id: usize| !is_next_id(old(self)@, id) by {
                if id < usize::MAX {
                    assert(old(self)@.contains_key(id));
                }
            }
            return None;
        }
        proof {
            next_id_is_unique(old(self)@, i);
        }
        let inbox: VecDeque<Message> = VecDeque::new();
        assert(views(inbox@) =~= Seq::<MessageView>::empty());
        if i < self.slots.len() {
            self.slots.set(i, Some(inbox));
        } else {
            self.slots.push(Some(inbox));
        }
        assert(final(self)@ =~= old(self)@.insert(i, Seq::empty()));
        Some(i)
    }

    /// Removes subscriber `id` with all that waits for it. Where there is
    /// no such subscriber, nothing changes.
    pub fn unsubscribe(&mut self, id: usize)
        ensures
            final(self)@ == old(self)@.remove(id),
    {
        if id < self.slots.len() {
            self.slots.set(id, None);
        }
        assert(final(self)@ =~= old(self)@.remove(id));
    }

    /// Puts a copy of `message` at the end of every subscriber's inbox.
    pub fn publish(&mut self, message: &Message)
        ensures
            final(self)@ == published(old(self)@, message@),
    {
        let mut i: usize = 0;
        while i < self.slots.len()
            invariant
                i <= self.slots@.len(),
                self.slots@.len() == old(self).slots@.len(),
                forall|k: int|
                    0 <= k < self.slots@.len() ==> (#[trigger] self.slots@[k] is Some) == (old(
                        self,
                    ).slots@[k] is Some),
                forall|k: int|
                    0 <= k < i && old(self).slots@[k] is Some ==> views(
                        (#[trigger] self.slots@[k])->Some_0@,
                    ) == views(old(self).slots@[k]->Some_0@).push(message@),
                forall|k: int|
                    i <= k < self.slots@.len() ==> #[trigger] self.slots@[k] == old(self).slots@[k],
            decreases self.slots@.len() - i,
        {
            let mut slot: Option<VecDeque<Message>> = None;
            self.slots.set_and_swap(i, &mut slot);
            match slot {
                Some(mut queue) => {
                    let ghost before = queue@;
                    queue.push_back(message.copy());
                    assert(views(queue@) =~= views(before).push(message@));
                    self.slots.set(i, Some(queue));
                },
                None => {},
            }
            i += 1;
        }
        assert(final(self)@ =~= published(old(self)@, message@));
    }

    /// Takes the oldest message that waits for `id`; `None` where nothing
    /// waits or there is no such subscriber.
    pub fn poll(&mut self, id: usize) -> (message: Option<Message>)
        ensures
            final(self)@ == after_poll(old(self)@, id),
            match message {
                Some(m) => waiting(old(self)@, id).len() > 0 && m@ == waiting(old(self)@, id)[0],
                None => waiting(old(self)@, id).len() == 0,
            },
    {
        if id >= self.slots.len() {
            return None;
        }
        let mut slot: Option<VecDeque<Message>> = None;
        self.slots.set_and_swap(id, &mut slot);
        match slot {
            Some(mut queue) => {
                let ghost before = queue@;
                let message = queue.pop_front();
                assert(views(queue@) =~= if before.len() > 0 {
                    views(before).drop_first()
                } else {
                    views(before)
                });
                self.slots.set(id, Some(queue));
                assert(final(self)@ =~= after_poll(old(self)@, id));
                message
            },
            None => {
                assert(final(self)@ =~= old(self)@);
                None
            },
        }
    }

    /// Takes all that waits for `id`, oldest first; nothing where there is
    /// no such subscriber.
    pub fn drain(&mut self, id: usize) -> (messages: Vec<Message>)
        ensures
            final(self)@ == after_drain(old(self)@, id),
            views(messages@) == waiting(old(self)@, id),
    {
        let mut messages: Vec<Message> = Vec::new();
        if id >= self.slots.len() {
            assert(views(messages@) =~= waiting(old(self)@, id));
            return messages;
        }
        let mut slot: Option<VecDeque<Message>> = None;
        self.slots.set_and_swap(id, &mut slot);
        match slot {
            Some(mut queue) => {
                let ghost all = queue@;
                while queue.len() > 0
                    invariant
                        messages@.len() + queue@.len() == all.len(),
                        forall|k: int| 0 <= k < messages@.len() ==> #[trigger] messages@[k] == all[k],
                        forall|k: int|
                            0 <= k < queue@.len() ==> #[trigger] queue@[k] == all[messages@.len() + k],
                    decreases queue@.len(),
                {
                    match queue.pop_front() {
                        Some(message) => {
                            messages.push(message);
                        },
                        None => {},
                    }
                }
                assert(messages@ =~= all);
                self.slots.set(id, Some(queue));
                assert(views(queue@) =~= Seq::<MessageView>::empty());
                assert(final(self)@ =~= after_drain(old(self)@, id));
                messages
            },
            None => {
                assert(final(self)@ =~= old(self)@);
                assert(views(messages@) =~= waiting(old(self)@, id));
                messages
            },
        }
    }
}

} // verus!
