//! Chat messages: the five kinds, the message value and its model.

use vstd::prelude::*;

verus! {

/// The kind of a chat message.
#[derive(Clone, Copy, Debug, PartialEq, Eq, Structural)]
pub enum MessageType {
    /// A user joined the room.
    Join,
    /// A user left the room.
    Leave,
    /// A user sent a line of text.
    Text,
    /// A user asks for another name.
    SetUsername,
    /// The name asked for is held by another session.
    UsernameTaken,
}

/// The mathematical model of a [`Message`].
pub struct MessageView {
    pub kind: MessageType,
    pub username: Seq<char>,
    pub content: Option<Seq<char>>,
}

impl MessageView {
    /// A message carries content exactly when it is a text message.
    pub open spec fn well_formed(self) -> bool {
        self.content is Some <==> self.kind == MessageType::Text
    }
}

/// One chat message: its kind, the name its sender asserts, and the text of
/// a text message.
#[derive(Clone, Debug, PartialEq, Eq)]
pub struct Message {
    kind: MessageType,
    username: String,
    content: Option<String>,
}

impl View for Message {
    type V = MessageView;

    closed spec fn view(&self) -> MessageView {
        MessageView {
            kind: self.kind,
            username: self.username@,
            content: match self.content {
                Some(c) => Some(c@),
                None => None,
            },
        }
    }
}

/// The views of a sequence of messages, in order.
pub open spec fn views(messages: Seq<Message>) -> Seq<MessageView> {
    messages.map_values(|m: Message| m@)
}

impl Message {
    /// Builds a message from its three parts, as given.
    pub fn new(kind: MessageType, username: String, content: Option<String>) -> (m: Message)
        ensures
            m@ == (MessageView {
                kind,
                username: username@,
                content: match content {
                    Some(c) => Some(c@),
                    None => None,
                },
            }),
    {
        Message { kind, username, content }
    }

    /// The kind of the message.
    pub fn kind(&self) -> (k: MessageType)
        ensures
            k == self@.kind,
    {
        self.kind
    }

    /// The name the sender asserts.
    pub fn username(&self) -> (name: &str)
        ensures
            name@ == self@.username,
    {
        self.username.as_str()
    }

    /// The text of the message, if it has any.
    pub fn content(&self) -> (text: Option<&str>)
        ensures
            match text {
                Some(t) => self@.content == Some(t@),
                None => self@.content is None,
            },
    {
        match &self.content {
            Some(c) => Some(c.as_str()),
            None => None,
        }
    }

    /// Whether the message carries content exactly when its kind asks for it.
    pub fn is_well_formed(&self) -> (ok: bool)
        ensures
            ok == self@.well_formed(),
    {
        match self.kind {
            MessageType::Text => self.content.is_some(),
            _ => self.content.is_none(),
        }
    }

    /// A copy of the message, equal to it part by part.
    pub fn copy(&self) -> (m: Message)
        ensures
            m@ == self@,
    {
        let content = match &self.content {
            Some(c) => Some(c.clone()),
            None => None,
        };
        Message { kind: self.kind, username: self.username.clone(), content }
    }
}

} // verus!
