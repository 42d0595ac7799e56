use echo_webhook::dispatch::{webhook_handler, Dispatcher, ReplyOutcome};
use echo_webhook::reply::{MessageObject, ReplyMessage, NON_TEXT_REPLY};
use echo_webhook::webhook_event::{Event, EventBatch, Message};

fn text_event(token: Option<&str>, text: &str) -> Event {
    Event {
        kind: "message".to_string(),
        reply_token: token.map(|t| t.to_string()),
        message: Some(Message::Text(text.to_string())),
    }
}

fn batch(events: Vec<Event>) -> EventBatch {
    EventBatch {
        destination: "U0".to_string(),
        events,
    }
}

fn echo(token: &str, text: &str) -> ReplyMessage {
    ReplyMessage {
        reply_token: token.to_string(),
        messages: vec![MessageObject::Text(text.to_string())],
    }
}

fn run(mut dispatcher: Dispatcher, outcomes: &[ReplyOutcome]) -> (Vec<ReplyMessage>, Dispatcher) {
    let mut attempted = Vec::new();
    for outcome in outcomes {
        match dispatcher.pending() {
            Some(planned) => attempted.push(planned.clone()),
            None => break,
        }
        dispatcher.settle(*outcome);
    }
    (attempted, dispatcher)
}

#[test]
fn an_empty_batch_has_nothing_to_send() {
    let dispatcher = webhook_handler(&batch(vec![]));
    assert!(dispatcher.is_done());
    assert_eq!(dispatcher.pending(), None);
    assert_eq!(dispatcher.attempted(), 0);
    assert_eq!(dispatcher.failed(), 0);
}

#[test]
fn replies_come_in_event_order() {
    let dispatcher = webhook_handler(&batch(vec![
        text_event(Some("r1"), "one"),
        text_event(Some("r2"), "two"),
        text_event(Some("r3"), "three"),
    ]));
    let (attempted, end) = run(dispatcher, &[ReplyOutcome::Sent; 3]);
    assert_eq!(
        attempted,
        vec![echo("r1", "one"), echo("r2", "two"), echo("r3", "three")]
    );
    assert!(end.is_done());
    assert_eq!(end.attempted(), 3);
    assert_eq!(end.failed(), 0);
}

#[test]
fn events_without_token_are_passed_over() {
    let dispatcher = webhook_handler(&batch(vec![
        text_event(None, "one"),
        text_event(Some("r2"), "two"),
        text_event(Some(""), "three"),
        Event {
            kind: "follow".to_string(),
            reply_token: Some("r4".to_string()),
            message: None,
        },
        text_event(None, "five"),
    ]));
    let (attempted, end) = run(dispatcher, &[ReplyOutcome::Sent; 5]);
    assert_eq!(attempted, vec![echo("r2", "two"), echo("r4", NON_TEXT_REPLY)]);
    assert!(end.is_done());
    assert_eq!(end.attempted(), 2);
}

#[test]
fn a_batch_without_tokens_sends_nothing() {
    let dispatcher = webhook_handler(&batch(vec![
        text_event(None, "one"),
        text_event(None, "two"),
    ]));
    assert!(dispatcher.is_done());
    assert_eq!(dispatcher.pending(), None);
}

#[test]
fn a_failure_does_not_stop_the_dispatch() {
    let dispatcher = webhook_handler(&batch(vec![
        text_event(Some("r1"), "one"),
        text_event(Some("r2"), "two"),
        text_event(Some("r3"), "three"),
    ]));
    let (attempted, end) = run(
        dispatcher,
        &[ReplyOutcome::Sent, ReplyOutcome::Failed, ReplyOutcome::Sent],
    );
    assert_eq!(
        attempted,
        vec![echo("r1", "one"), echo("r2", "two"), echo("r3", "three")]
    );
    assert!(end.is_done());
    assert_eq!(end.attempted(), 3);
    assert_eq!(end.failed(), 1);
}

#[test]
fn every_reply_is_attempted_even_if_all_fail() {
    let dispatcher = webhook_handler(&batch(vec![
        text_event(Some("r1"), "one"),
        text_event(Some("r2"), "two"),
    ]));
    let (attempted, end) = run(dispatcher, &[ReplyOutcome::Failed; 2]);
    assert_eq!(attempted, vec![echo("r1", "one"), echo("r2", "two")]);
    assert_eq!(end.failed(), 2);
    assert!(end.is_done());
}

#[test]
fn settle_moves_one_step() {
    let mut dispatcher = webhook_handler(&batch(vec![
        text_event(Some("r1"), "one"),
        text_event(Some("r2"), "two"),
    ]));
    assert_eq!(dispatcher.pending(), Some(&echo("r1", "one")));
    assert!(!dispatcher.is_done());
    dispatcher.settle(ReplyOutcome::Failed);
    assert_eq!(dispatcher.pending(), Some(&echo("r2", "two")));
    assert_eq!(dispatcher.attempted(), 1);
    assert_eq!(dispatcher.failed(), 1);
    dispatcher.settle(ReplyOutcome::Sent);
    assert_eq!(dispatcher.pending(), None);
    assert_eq!(dispatcher.attempted(), 2);
    assert_eq!(dispatcher.failed(), 1);
}

#[test]
fn settle_with_nothing_pending_changes_nothing() {
    let mut dispatcher = webhook_handler(&batch(vec![text_event(Some("r1"), "one")]));
    dispatcher.settle(ReplyOutcome::Sent);
    dispatcher.settle(ReplyOutcome::Failed);
    dispatcher.settle(ReplyOutcome::Failed);
    assert_eq!(dispatcher.attempted(), 1);
    assert_eq!(dispatcher.failed(), 0);
    assert!(dispatcher.is_done());
}
