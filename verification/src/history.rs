//! The history ring: the last messages that went over the bus, up to a
//! fixed number, kept for replay to sessions that join later.

use std::collections::VecDeque;
use vstd::prelude::*;
use crate::message::{Message, MessageView, views};

verus! {

/// How many messages the history of a room keeps unless told otherwise.
pub const DEFAULT_HISTORY_CAPACITY: usize = 25;

/// The last `limit` entries of `messages`, oldest first; all of them where
/// there are no more than `limit`.
pub open spec fn last_of(messages: Seq<MessageView>, limit: nat) -> Seq<MessageView> {
    if messages.len() <= limit {
        messages
    } else {
        messages.subrange(messages.len() - limit, messages.len() as int)
    }
}

/// A history holding `kept` after each of `messages` was appended in turn.
pub open spec fn after_appends(kept: Seq<MessageView>, limit: nat, messages: Seq<MessageView>) -> Seq<
    MessageView,
>
    decreases messages.len(),
{
    if messages.len() == 0 {
        kept
    } else {
        after_appends(last_of(kept.push(messages[0]), limit), limit, messages.drop_first())
    }
}

/// A history keeps the tail of what was appended: after any number of
/// appends it holds the last `limit` of what it held before followed by the
/// appended messages, oldest first. Started empty and given more than
/// `limit` messages, it holds exactly the last `limit` of them.
pub proof fn history_keeps_the_last(kept: Seq<MessageView>, limit: nat, messages: Seq<MessageView>)
    requires
        kept.len() <= limit,
    ensures
        after_appends(kept, limit, messages) == last_of(kept + messages, limit),
        kept.len() == 0 && messages.len() > limit ==> after_appends(kept, limit, messages)
            == messages.subrange(messages.len() - limit, messages.len() as int),
    decreases messages.len(),
{
    if messages.len() == 0 {
        assert(kept + messages =~= kept);
    } else {
        let next = last_of(kept.push(messages[0]), limit);
        let rest = messages.drop_first();
        history_keeps_the_last(next, limit, rest);
        assert(last_of(next + rest, limit) =~= last_of(kept + messages, limit));
    }
    if kept.len() == 0 {
        assert(kept + messages =~= messages);
    }
}

/// The last messages of a room, oldest first, never more than its capacity.
pub struct History {
    items: VecDeque<Message>,
    capacity: usize,
}

impl View for History {
    type V = Seq<MessageView>;

    closed spec fn view(&self) -> Seq<MessageView> {
        views(self.items@)
    }
}

impl History {
    #[verifier::type_invariant]
    spec fn bounded(&self) -> bool {
        self.items@.len() <= self.capacity
    }

    /// The number of messages the history keeps at most.
    pub closed spec fn limit(&self) -> nat {
        self.capacity as nat
    }

    /// An empty history that keeps the last `capacity` messages.
    pub fn new(capacity: usize) -> (history: History)
        ensures
            history@ == Seq::<MessageView>::empty(),
            history.limit() == capacity,
    {
        let history = History { items: VecDeque::new(), capacity };
        assert(history@ =~= Seq::<MessageView>::empty());
        history
    }

    /// The number of messages the history keeps at most.
    pub fn capacity(&self) -> (capacity: usize)
        ensures
            capacity == self.limit(),
    {
        self.capacity
    }

    /// The number of messages held.
    pub fn len(&self) -> (len: usize)
        ensures
            len == self@.len(),
            len <= self.limit(),
    {
        proof {
            use_type_invariant(self);
        }
        self.items.len()
    }

    /// Appends a message; at capacity, the oldest one makes room for it.
    pub fn append(&mut self, message: Message)
        ensures
            final(self)@ == last_of(old(self)@.push(message@), old(self).limit()),
            final(self).limit() == old(self).limit(),
    {
        proof {
            use_type_invariant(&*self);
        }
        if self.capacity == 0 {
            assert(self@ =~= last_of(self@.push(message@), 0));
            return ;
        }
        let ghost before = self.items@;
        let mut items: VecDeque<Message> = VecDeque::new();
        core::mem::swap(&mut self.items, &mut items);
        if items.len() == self.capacity {
            items.pop_front();
        }
        items.push_back(message);
        self.items = items;
        assert(final(self)@ =~= last_of(views(before).push(message@), self.capacity as nat));
    }

    /// A copy of the messages held, oldest first.
    pub fn snapshot(&self) -> (messages: Vec<Message>)
        ensures
            views(messages@) == self@,
    {
        let mut messages: Vec<Message> = Vec::new();
        let mut i: usize = 0;
        while i < self.items.len()
            invariant
                i <= self.items@.len(),
                messages@.len() == i,
                forall|k: int| 0 <= k < i ==> #[trigger] messages@[k]@ == self.items@[k]@,
            decreases self.items@.len() - i,
        {
            messages.push(self.items[i].copy());
            i += 1;
        }
        assert(views(messages@) =~= self@);
        messages
    }
}

} // verus!
