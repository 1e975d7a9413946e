//! The wire format: one JSON object per frame, with the members `type`,
//! `username` and, for a text message, `content`.

use vstd::prelude::*;
use crate::json::{Field, FieldView, json_document, json_quoted, member, member_at, parse_document, quote};
use crate::message::{Message, MessageType, MessageView};

verus! {

/// Why a frame is no chat message.
#[derive(Clone, Copy, Debug, PartialEq, Eq, Structural)]
pub enum DecodeFault {
    /// The frame is no JSON document.
    Syntax,
    /// `type` is missing, no string, or none of the five kind names.
    Kind,
    /// `username` is missing or no string.
    Username,
    /// A text message without a string `content`, or a message of another
    /// kind with a `content` that is not `null`.
    Content,
}

/// The error of decoding a frame.
#[derive(Clone, Copy, Debug, PartialEq, Eq, Structural)]
pub struct WsMessageToChatMessageError {
    /// What was wrong with the frame.
    pub fault: DecodeFault,
}

/// What is wrong with a frame, in words.
pub open spec fn fault_text(fault: DecodeFault) -> Seq<char> {
    match fault {
        DecodeFault::Syntax => "the frame is no JSON document"@,
        DecodeFault::Kind => "`type` is missing or names no kind of message"@,
        DecodeFault::Username => "`username` is missing or no string"@,
        DecodeFault::Content => "`content` does not fit the kind of message"@,
    }
}

/// The wire name of each kind.
pub open spec fn kind_name(kind: MessageType) -> Seq<char> {
    match kind {
        MessageType::Join => "join"@,
        MessageType::Leave => "leave"@,
        MessageType::Text => "text"@,
        MessageType::SetUsername => "set_username"@,
        MessageType::UsernameTaken => "username_taken"@,
    }
}

/// The kind that a wire name stands for, if any.
pub open spec fn kind_named(name: Seq<char>) -> Option<MessageType> {
    if name == "join"@ {
        Some(MessageType::Join)
    } else if name == "leave"@ {
        Some(MessageType::Leave)
    } else if name == "text"@ {
        Some(MessageType::Text)
    } else if name == "set_username"@ {
        Some(MessageType::SetUsername)
    } else if name == "username_taken"@ {
        Some(MessageType::UsernameTaken)
    } else {
        None
    }
}

/// The three members of a JSON document that a chat message is read from.
#[derive(Clone, Debug, PartialEq, Eq)]
pub struct Record {
    pub kind: Field,
    pub username: Field,
    pub content: Field,
}

/// The mathematical model of a [`Record`].
pub struct RecordView {
    pub kind: FieldView,
    pub username: FieldView,
    pub content: FieldView,
}

impl View for Record {
    type V = RecordView;

    open spec fn view(&self) -> RecordView {
        RecordView { kind: self.kind@, username: self.username@, content: self.content@ }
    }
}

/// The message that a record spells, or the first fault found in it: the
/// kind is checked first, then the name, then the content.
pub open spec fn record_message(record: RecordView) -> Result<MessageView, DecodeFault> {
    match record.kind {
        FieldView::Text(name) => match kind_named(name) {
            Some(kind) => match record.username {
                FieldView::Text(username) => match record.content {
                    FieldView::Text(text) => if kind == MessageType::Text {
                        Ok(MessageView { kind, username, content: Some(text) })
                    } else {
                        Err(DecodeFault::Content)
                    },
                    FieldView::Absent | FieldView::Null => if kind == MessageType::Text {
                        Err(DecodeFault::Content)
                    } else {
                        Ok(MessageView { kind, username, content: None })
                    },
                    FieldView::Other => Err(DecodeFault::Content),
                },
                _ => Err(DecodeFault::Username),
            },
            None => Err(DecodeFault::Kind),
        },
        _ => Err(DecodeFault::Kind),
    }
}

/// The record that spells a message: kind and name as strings, the content
/// as a string where there is one and left out where there is none.
pub open spec fn message_record(message: MessageView) -> RecordView {
    RecordView {
        kind: FieldView::Text(kind_name(message.kind)),
        username: FieldView::Text(message.username),
        content: match message.content {
            Some(text) => FieldView::Text(text),
            None => FieldView::Absent,
        },
    }
}

/// The record that a document's members make.
pub open spec fn document_record(members: Map<Seq<char>, FieldView>) -> RecordView {
    RecordView {
        kind: member_at(members, "type"@),
        username: member_at(members, "username"@),
        content: member_at(members, "content"@),
    }
}

/// What decoding makes of the bytes of a frame.
pub open spec fn decoded(bytes: Seq<u8>) -> Result<MessageView, DecodeFault> {
    match json_document(bytes) {
        Some(members) => record_message(document_record(members)),
        None => Err(DecodeFault::Syntax),
    }
}

/// The text of a message on the wire: `type`, `username` and, where the
/// message has content, `content`, in this order and without white space.
pub open spec fn encoded(message: MessageView) -> Seq<char> {
    let head = "{\"type\":\""@ + kind_name(message.kind) + "\",\"username\":"@ + json_quoted(
        message.username,
    );
    match message.content {
        Some(text) => head + ",\"content\":"@ + json_quoted(text) + "}"@,
        None => head + "}"@,
    }
}

/// Every kind is found again under its wire name.
pub proof fn kind_names_are_distinct(kind: MessageType)
    ensures
        kind_named(kind_name(kind)) == Some(kind),
{
    reveal_strlit("join");
    reveal_strlit("leave");
    reveal_strlit("text");
    reveal_strlit("set_username");
    reveal_strlit("username_taken");
    assert("join"@.len() == 4 && "leave"@.len() == 5 && "text"@.len() == 4);
    assert("set_username"@.len() == 12 && "username_taken"@.len() == 14);
    assert("join"@[0] == 'j' && "text"@[0] == 't');
}

/// A record as it is written: a `content` of `null` is left out.
pub open spec fn written(record: RecordView) -> RecordView {
    RecordView {
        content: match record.content {
            FieldView::Null => FieldView::Absent,
            other => other,
        },
        ..record
    }
}

/// Spelling a well-formed message as a record and reading the record gives
/// the message back, for each of the five kinds.
pub proof fn message_survives_its_record(message: MessageView)
    requires
        message.well_formed(),
    ensures
        record_message(message_record(message)) == Ok::<MessageView, DecodeFault>(message),
{
    kind_names_are_distinct(message.kind);
}

/// Reading a record gives well-formed messages only, and spelling the
/// message that was read gives the record back as it is written. A text
/// message without a string as its content is never read.
pub proof fn record_survives_its_message(record: RecordView)
    requires
        record_message(record) is Ok,
    ensures
        record_message(record)->Ok_0.well_formed(),
        message_record(record_message(record)->Ok_0) == written(record),
        record.kind == FieldView::Text("text"@) ==> record.content is Text,
{
    kind_names_are_distinct(MessageType::Text);
}

/// Decoding gives a well-formed message back from any frame in which the
/// JSON reader finds the record that spells it, whatever else the frame
/// holds.
pub proof fn message_survives_the_wire(message: MessageView, bytes: Seq<u8>)
    requires
        message.well_formed(),
        json_document(bytes) is Some,
        document_record(json_document(bytes)->Some_0) == message_record(message),
    ensures
        decoded(bytes) == Ok::<MessageView, DecodeFault>(message),
{
    message_survives_its_record(message);
}

/// A frame that decodes says the same as the text that encoding makes of
/// the decoded message: the two spell one record, but for a `content` of
/// `null`, which is not written.
pub proof fn decoded_frame_is_spelled_again(bytes: Seq<u8>)
    requires
        decoded(bytes) is Ok,
    ensures
        decoded(bytes)->Ok_0.well_formed(),
        message_record(decoded(bytes)->Ok_0) == written(
            document_record(json_document(bytes)->Some_0),
        ),
{
    record_survives_its_message(document_record(json_document(bytes)->Some_0));
}

impl MessageType {
    /// The name of the kind on the wire.
    pub fn name(&self) -> (name: &'static str)
        ensures
            name@ == kind_name(*self),
    {
        match self {
            MessageType::Join => "join",
            MessageType::Leave => "leave",
            MessageType::Text => "text",
            MessageType::SetUsername => "set_username",
            MessageType::UsernameTaken => "username_taken",
        }
    }

    /// The kind with the given wire name; `None` for any other string.
    pub fn from_name(name: &str) -> (kind: Option<MessageType>)
        ensures
            kind == kind_named(name@),
    {
        let name = name.to_owned();
        if name == "join".to_owned() {
            Some(MessageType::Join)
        } else if name == "leave".to_owned() {
            Some(MessageType::Leave)
        } else if name == "text".to_owned() {
            Some(MessageType::Text)
        } else if name == "set_username".to_owned() {
            Some(MessageType::SetUsername)
        } else if name == "username_taken".to_owned() {
            Some(MessageType::UsernameTaken)
        } else {
            None
        }
    }
}

impl WsMessageToChatMessageError {
    /// The error for one fault.
    pub fn new(fault: DecodeFault) -> (e: WsMessageToChatMessageError)
        ensures
            e.fault == fault,
    {
        WsMessageToChatMessageError { fault }
    }

    /// The error in words.
    pub fn describe(&self) -> (text: String)
        ensures
            text@ == "Parse Error: "@ + fault_text(self.fault),
    {
        let reason = match self.fault {
            DecodeFault::Syntax => "the frame is no JSON document",
            DecodeFault::Kind => "`type` is missing or names no kind of message",
            DecodeFault::Username => "`username` is missing or no string",
            DecodeFault::Content => "`content` does not fit the kind of message",
        };
        "Parse Error: ".to_owned().concat(reason)
    }
}

/// Whether a decoding outcome is the one that `expected` describes.
pub open spec fn decodes_as(
    outcome: Result<Message, WsMessageToChatMessageError>,
    expected: Result<MessageView, DecodeFault>,
) -> bool {
    match outcome {
        Ok(message) => expected == Ok::<MessageView, DecodeFault>(message@),
        Err(error) => expected == Err::<MessageView, DecodeFault>(error.fault),
    }
}

impl Record {
    /// Reads the three members of a parsed document.
    fn read(document: &serde_json::Value) -> (record: Record)
        ensures
            record@ == document_record(crate::json::json_members(*document)),
    {
        Record {
            kind: member(document, "type"),
            username: member(document, "username"),
            content: member(document, "content"),
        }
    }
}

impl Message {
    /// The message that a record spells, or the first fault in it.
    pub fn from_record(record: Record) -> (outcome: Result<Message, WsMessageToChatMessageError>)
        ensures
            decodes_as(outcome, record_message(record@)),
    {
        let kind = match record.kind {
            Field::Text(name) => match MessageType::from_name(name.as_str()) {
                Some(kind) => kind,
                None => { return Err(WsMessageToChatMessageError::new(DecodeFault::Kind)); },
            },
            _ => { return Err(WsMessageToChatMessageError::new(DecodeFault::Kind)); },
        };
        let username = match record.username {
            Field::Text(username) => username,
            _ => { return Err(WsMessageToChatMessageError::new(DecodeFault::Username)); },
        };
        let is_text = kind == MessageType::Text;
        match record.content {
            Field::Text(text) => if is_text {
                Ok(Message::new(kind, username, Some(text)))
            } else {
                Err(WsMessageToChatMessageError::new(DecodeFault::Content))
            },
            Field::Absent | Field::Null => if is_text {
                Err(WsMessageToChatMessageError::new(DecodeFault::Content))
            } else {
                Ok(Message::new(kind, username, None))
            },
            Field::Other => Err(WsMessageToChatMessageError::new(DecodeFault::Content)),
        }
    }

    /// Decodes the bytes of one frame.
    pub fn decode(bytes: &[u8]) -> (outcome: Result<Message, WsMessageToChatMessageError>)
        ensures
            decodes_as(outcome, decoded(bytes@)),
            outcome matches Ok(message) ==> message@.well_formed(),
    {
        match parse_document(bytes) {
            Ok(document) => Message::from_record(Record::read(&document)),
            Err(_) => Err(WsMessageToChatMessageError::new(DecodeFault::Syntax)),
        }
    }

    /// The text of the message on the wire.
    pub fn encode(&self) -> (text: String)
        ensures
            text@ == encoded(self@),
    {
        let mut text = "{\"type\":\"".to_owned();
        text.append(self.kind().name());
        text.append("\",\"username\":");
        text.append(quote(self.username()).as_str());
        match self.content() {
            Some(content) => {
                text.append(",\"content\":");
                text.append(quote(content).as_str());
            },
            None => {},
        }
        text.append("}");
        text
    }
}

} // verus!
