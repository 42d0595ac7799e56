//! The reply policy: what, if anything, is sent back for one event.

use crate::webhook_event::{Event, EventModel, MessageModel, Message};
use vstd::prelude::*;

verus! {

/// What is sent back for an event that is not a text message.
pub const NON_TEXT_REPLY: &'static str = "テキストメッセージ以外のイベントには対応していません";

/// One message of a reply.
#[derive(Debug, Clone, PartialEq, Eq)]
pub enum MessageObject {
    Text(String),
}

/// The mathematical value of a [`MessageObject`].
pub enum MessageObjectModel {
    Text(Seq<char>),
}

impl View for MessageObject {
    type V = MessageObjectModel;

    open spec fn view(&self) -> MessageObjectModel {
        match self {
            MessageObject::Text(text) => MessageObjectModel::Text(text@),
        }
    }
}

/// A reply to one event: the event's token, and the messages to send under it.
#[derive(Debug, Clone, PartialEq, Eq)]
pub struct ReplyMessage {
    pub reply_token: String,
    pub messages: Vec<MessageObject>,
}

/// The mathematical value of a [`ReplyMessage`].
pub struct ReplyMessageModel {
    pub reply_token: Seq<char>,
    pub messages: Seq<MessageObjectModel>,
}

/// The models of a sequence of messages, one for one.
pub open spec fn message_models(messages: Seq<MessageObject>) -> Seq<MessageObjectModel> {
    Seq::new(messages.len(), |i: int| messages[i]@)
}

impl View for ReplyMessage {
    type V = ReplyMessageModel;

    open spec fn view(&self) -> ReplyMessageModel {
        ReplyMessageModel {
            reply_token: self.reply_token@,
            messages: message_models(self.messages@),
        }
    }
}

/// The text of an event's message, where the event has a text message.
pub open spec fn text_of(event: EventModel) -> Option<Seq<char>> {
    match event.message {
        Some(MessageModel::Text(text)) => Some(text),
        _ => None,
    }
}

/// The text that answers an event: its own text, or the fixed sentence.
pub open spec fn answer_to(event: EventModel) -> Seq<char> {
    match text_of(event) {
        Some(text) => text,
        None => NON_TEXT_REPLY@,
    }
}

/// The reply that an event gets: none without a token, or with an empty one; otherwise
/// one text message under the event's token.
pub open spec fn planned_reply(event: EventModel) -> Option<ReplyMessageModel> {
    match event.reply_token {
        Some(token) => if token.len() > 0 {
            Some(
                ReplyMessageModel {
                    reply_token: token,
                    messages: seq![MessageObjectModel::Text(answer_to(event))],
                },
            )
        } else {
            None
        },
        None => None,
    }
}

/// The text of the event's message, where it is a text message.
pub fn get_text_message(event: &Event) -> (r: Option<&String>)
    ensures
        match r {
            Some(text) => text_of(event@) == Some(text@),
            None => text_of(event@) is None,
        },
{
    match &event.message {
        Some(Message::Text(text)) => Some(text),
        _ => None,
    }
}

/// A text message that holds exactly `text`.
pub fn create_text_message(text: &str) -> (r: MessageObject)
    ensures
        r@ == MessageObjectModel::Text(text@),
{
    MessageObject::Text(text.to_owned())
}

/// The reply policy for one event.
pub fn reply(event: &Event) -> (r: Option<ReplyMessage>)
    ensures
        match r {
            Some(planned) => planned_reply(event@) == Some(planned@),
            None => planned_reply(event@) is None,
        },
{
    let reply_token = match &event.reply_token {
        Some(token) => token,
        None => return None,
    };
    if reply_token.as_str().is_empty() {
        return None;
    }
    let message = match get_text_message(event) {
        Some(text) => create_text_message(text.as_str()),
        None => create_text_message(NON_TEXT_REPLY),
    };
    let mut messages: Vec<MessageObject> = Vec::new();
    messages.push(message);
    let planned = ReplyMessage { reply_token: reply_token.clone(), messages };
    proof {
        assert(planned@.messages =~= seq![MessageObjectModel::Text(answer_to(event@))]);
    }
    Some(planned)
}

} // verus!
