//! The event batch that one callback delivers, and how it is read from a JSON document.

use crate::error::{AppError, DecodeFault};
use crate::json::{json_models, json_reading, parse_json, Json, JsonModel};
use vstd::prelude::*;

verus! {

/// What an event's message holds: a text, or anything else under its type tag.
#[derive(Debug, Clone, PartialEq, Eq)]
pub enum Message {
    Text(String),
    Other(String),
}

/// The mathematical value of a [`Message`].
pub enum MessageModel {
    Text(Seq<char>),
    Other(Seq<char>),
}

impl View for Message {
    type V = MessageModel;

    open spec fn view(&self) -> MessageModel {
        match self {
            Message::Text(text) => MessageModel::Text(text@),
            Message::Other(kind) => MessageModel::Other(kind@),
        }
    }
}

/// One event of a batch.
#[derive(Debug, Clone, PartialEq, Eq)]
pub struct Event {
    /// The event's type tag.
    pub kind: String,
    pub reply_token: Option<String>,
    pub message: Option<Message>,
}

/// The mathematical value of an [`Event`].
pub struct EventModel {
    pub kind: Seq<char>,
    pub reply_token: Option<Seq<char>>,
    pub message: Option<MessageModel>,
}

impl View for Event {
    type V = EventModel;

    open spec fn view(&self) -> EventModel {
        EventModel {
            kind: self.kind@,
            reply_token: match self.reply_token {
                Some(token) => Some(token@),
                None => None,
            },
            message: match self.message {
                Some(message) => Some(message@),
                None => None,
            },
        }
    }
}

/// The events of one callback, in the order in which they were delivered.
#[derive(Debug, Clone, PartialEq, Eq)]
pub struct EventBatch {
    pub destination: String,
    pub events: Vec<Event>,
}

/// The mathematical value of an [`EventBatch`].
pub struct EventBatchModel {
    pub destination: Seq<char>,
    pub events: Seq<EventModel>,
}

/// The models of a sequence of events, one for one.
pub open spec fn event_models(events: Seq<Event>) -> Seq<EventModel> {
    Seq::new(events.len(), |i: int| events[i]@)
}

impl View for EventBatch {
    type V = EventBatchModel;

    open spec fn view(&self) -> EventBatchModel {
        EventBatchModel { destination: self.destination@, events: event_models(self.events@) }
    }
}

/// The text of the member `key`, which must be there and be a string.
pub open spec fn text_member(object: JsonModel, key: Seq<char>) -> Option<Seq<char>> {
    match object.get(key) {
        Some(JsonModel::Text(s)) => Some(s),
        _ => None,
    }
}

/// The text of the member `key`, which may be missing or `null`: `Some(None)` then.
/// `None` where the member holds anything but a string.
pub open spec fn optional_text_member(object: JsonModel, key: Seq<char>) -> Option<
    Option<Seq<char>>,
> {
    match object.get(key) {
        None => Some(None),
        Some(JsonModel::Null) => Some(None),
        Some(JsonModel::Text(s)) => Some(Some(s)),
        _ => None,
    }
}

/// The message that a JSON value describes: an object with a string `type`, and, where
/// that is `text`, a string `text`.
pub open spec fn message_of(value: JsonModel) -> Option<MessageModel> {
    match text_member(value, "type"@) {
        Some(kind) => if kind == "text"@ {
            match text_member(value, "text"@) {
                Some(text) => Some(MessageModel::Text(text)),
                None => None,
            }
        } else {
            Some(MessageModel::Other(kind))
        },
        None => None,
    }
}

/// The message of the member `message`, which may be missing or `null`: `Some(None)` then.
pub open spec fn optional_message_member(object: JsonModel) -> Option<Option<MessageModel>> {
    match object.get("message"@) {
        None => Some(None),
        Some(JsonModel::Null) => Some(None),
        Some(value) => match message_of(value) {
            Some(message) => Some(Some(message)),
            None => None,
        },
    }
}

/// The event that a JSON value describes: an object with a string `type`, an optional
/// string `replyToken` and an optional `message`. Other members are not read.
pub open spec fn event_of(value: JsonModel) -> Option<EventModel> {
    match (
        text_member(value, "type"@),
        optional_text_member(value, "replyToken"@),
        optional_message_member(value),
    ) {
        (Some(kind), Some(reply_token), Some(message)) => Some(
            EventModel { kind, reply_token, message },
        ),
        _ => None,
    }
}

/// The events that the elements describe, in their order; `None` where one describes none.
pub open spec fn events_of(items: Seq<JsonModel>) -> Option<Seq<EventModel>> {
    if forall|i: int| 0 <= i < items.len() ==> (#[trigger] event_of(items[i])) is Some {
        Some(Seq::new(items.len(), |i: int| event_of(items[i]).unwrap()))
    } else {
        None
    }
}

/// The batch that a JSON document describes: an object with a string `destination` and
/// an array `events` of events.
pub open spec fn batch_of(document: JsonModel) -> Option<EventBatchModel> {
    match (text_member(document, "destination"@), document.get("events"@)) {
        (Some(destination), Some(JsonModel::Array(items))) => match events_of(items) {
            Some(events) => Some(EventBatchModel { destination, events }),
            None => None,
        },
        _ => None,
    }
}

/// The batch that a body describes, or why it describes none.
pub open spec fn batch_reading(context: Seq<char>) -> Result<EventBatchModel, DecodeFault> {
    match json_reading(context) {
        Some(document) => match batch_of(document) {
            Some(batch) => Ok(batch),
            None => Err(DecodeFault::Schema),
        },
        None => Err(DecodeFault::Syntax),
    }
}

fn read_text(object: &Json, key: &str) -> (r: Option<String>)
    ensures
        match r {
            Some(s) => text_member(object@, key@) == Some(s@),
            None => text_member(object@, key@) is None,
        },
{
    match object.get(key) {
        Some(value) => match value.as_text() {
            Some(s) => Some(s.clone()),
            None => None,
        },
        None => None,
    }
}

fn read_optional_text(object: &Json, key: &str) -> (r: Option<Option<String>>)
    ensures
        match r {
            Some(Some(s)) => optional_text_member(object@, key@) == Some(Some(s@)),
            Some(None) => optional_text_member(object@, key@) == Some(None::<Seq<char>>),
            None => optional_text_member(object@, key@) is None,
        },
{
    match object.get(key) {
        None => Some(None),
        Some(value) => {
            if value.is_null() {
                Some(None)
            } else {
                match value.as_text() {
                    Some(s) => Some(Some(s.clone())),
                    None => None,
                }
            }
        },
    }
}

impl Message {
    /// Reads a message from a JSON value.
    pub fn from_json(value: &Json) -> (r: Option<Message>)
        ensures
            match r {
                Some(message) => message_of(value@) == Some(message@),
                None => message_of(value@) is None,
            },
    {
        match read_text(value, "type") {
            Some(kind) => {
                let text_tag = "text".to_owned();
                if kind == text_tag {
                    match read_text(value, "text") {
                        Some(text) => Some(Message::Text(text)),
                        None => None,
                    }
                } else {
                    Some(Message::Other(kind))
                }
            },
            None => None,
        }
    }
}

fn read_optional_message(object: &Json) -> (r: Option<Option<Message>>)
    ensures
        match r {
            Some(Some(m)) => optional_message_member(object@) == Some(Some(m@)),
            Some(None) => optional_message_member(object@) == Some(None::<MessageModel>),
            None => optional_message_member(object@) is None,
        },
{
    match object.get("message") {
        None => Some(None),
        Some(value) => {
            if value.is_null() {
                Some(None)
            } else {
                match Message::from_json(value) {
                    Some(message) => Some(Some(message)),
                    None => None,
                }
            }
        },
    }
}

impl Event {
    /// Reads an event from a JSON value.
    pub fn from_json(value: &Json) -> (r: Option<Event>)
        ensures
            match r {
                Some(event) => event_of(value@) == Some(event@),
                None => event_of(value@) is None,
            },
    {
        let kind = match read_text(value, "type") {
            Some(kind) => kind,
            None => return None,
        };
        let reply_token = match read_optional_text(value, "replyToken") {
            Some(token) => token,
            None => return None,
        };
        let message = match read_optional_message(value) {
            Some(message) => message,
            None => return None,
        };
        Some(Event { kind, reply_token, message })
    }
}

impl EventBatch {
    /// Reads a batch from a JSON document. The events keep the document's order.
    pub fn from_json(document: &Json) -> (r: Option<EventBatch>)
        ensures
            match r {
                Some(batch) => batch_of(document@) == Some(batch@),
                None => batch_of(document@) is None,
            },
    {
        let destination = match read_text(document, "destination") {
            Some(destination) => destination,
            None => return None,
        };
        let items = match document.get("events") {
            Some(value) => match value.as_array() {
                Some(items) => items,
                None => return None,
            },
            None => return None,
        };
        let ghost item_models = json_models(items@);
        let mut events: Vec<Event> = Vec::new();
        let mut i: usize = 0;
        while i < items.len()
            invariant
                i <= items.len(),
                events@.len() == i,
                text_member(document@, "destination"@) == Some(destination@),
                document@.get("events"@) == Some(JsonModel::Array(item_models)),
                item_models == json_models(items@),
                forall|k: int| 0 <= k < i ==> event_of(item_models[k]) == Some(events@[k]@),
            decreases items.len() - i,
        {
            match Event::from_json(&items[i]) {
                Some(event) => events.push(event),
                None => {
                    assert(event_of(item_models[i as int]) is None);
                    return None;
                },
            }
            i += 1;
        }
        let batch = EventBatch { destination, events };
        proof {
            assert(batch@.events =~= events_of(item_models).unwrap());
        }
        Some(batch)
    }
}

/// Decodes the body of a callback.
pub fn get_webhook_event(context: &str) -> (r: Result<EventBatch, AppError>)
    ensures
        match batch_reading(context@) {
            Ok(batch) => r matches Ok(decoded) && decoded@ == batch,
            Err(fault) => r matches Err(e) && e == AppError::SerdeJson(fault),
        },
{
    let document = match parse_json(context) {
        Some(document) => document,
        None => return Err(AppError::SerdeJson(DecodeFault::Syntax)),
    };
    match EventBatch::from_json(&document) {
        Some(batch) => Ok(batch),
        None => Err(AppError::SerdeJson(DecodeFault::Schema)),
    }
}

} // verus!
