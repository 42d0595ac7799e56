use echo_webhook::reply::{
    create_text_message, get_text_message, reply, MessageObject, ReplyMessage, NON_TEXT_REPLY,
};
use echo_webhook::webhook_event::{Event, Message};

fn event(reply_token: Option<&str>, message: Option<Message>) -> Event {
    Event {
        kind: "message".to_string(),
        reply_token: reply_token.map(|t| t.to_string()),
        message,
    }
}

#[test]
fn the_fixed_sentence() {
    assert_eq!(
        NON_TEXT_REPLY,
        "テキストメッセージ以外のイベントには対応していません"
    );
}

#[test]
fn a_text_event_is_echoed() {
    let e = event(Some("rt1"), Some(Message::Text("hello".to_string())));
    assert_eq!(
        reply(&e),
        Some(ReplyMessage {
            reply_token: "rt1".to_string(),
            messages: vec![MessageObject::Text("hello".to_string())],
        })
    );
}

#[test]
fn the_echo_changes_nothing_in_the_text() {
    for text in ["", "  padded  ", "UPPER lower", "改行\n込み", "a\u{0301}"] {
        let e = event(Some("rt"), Some(Message::Text(text.to_string())));
        let planned = reply(&e).unwrap();
        assert_eq!(planned.messages, vec![MessageObject::Text(text.to_string())]);
    }
    let long = "x".repeat(20_000);
    let e = event(Some("rt"), Some(Message::Text(long.clone())));
    assert_eq!(reply(&e).unwrap().messages, vec![MessageObject::Text(long)]);
}

#[test]
fn another_message_gets_the_fixed_sentence() {
    let e = event(Some("rt2"), Some(Message::Other("image".to_string())));
    assert_eq!(
        reply(&e),
        Some(ReplyMessage {
            reply_token: "rt2".to_string(),
            messages: vec![MessageObject::Text(
                "テキストメッセージ以外のイベントには対応していません".to_string()
            )],
        })
    );
}

#[test]
fn an_event_without_message_gets_the_fixed_sentence() {
    let e = event(Some("rt"), None);
    assert_eq!(
        reply(&e).unwrap().messages,
        vec![MessageObject::Text(NON_TEXT_REPLY.to_string())]
    );
}

#[test]
fn no_token_no_reply() {
    assert_eq!(reply(&event(None, Some(Message::Text("hello".to_string())))), None);
    assert_eq!(reply(&event(None, Some(Message::Other("video".to_string())))), None);
    assert_eq!(reply(&event(None, None)), None);
}

#[test]
fn an_empty_token_is_no_token() {
    assert_eq!(reply(&event(Some(""), Some(Message::Text("hello".to_string())))), None);
    assert_eq!(reply(&event(Some(""), None)), None);
}

#[test]
fn get_text_message_finds_only_text() {
    let text = "hello".to_string();
    assert_eq!(
        get_text_message(&event(Some("rt"), Some(Message::Text(text.clone())))),
        Some(&text)
    );
    assert_eq!(
        get_text_message(&event(Some("rt"), Some(Message::Other("text".to_string())))),
        None
    );
    assert_eq!(get_text_message(&event(Some("rt"), None)), None);
}

#[test]
fn create_text_message_keeps_the_text() {
    assert_eq!(
        create_text_message("abc"),
        MessageObject::Text("abc".to_string())
    );
    assert_eq!(create_text_message(""), MessageObject::Text(String::new()));
}
