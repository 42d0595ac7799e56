//! What holds of every callback, batch and dispatch.

use crate::dispatch::{planned_replies, DispatchModel, ReplyOutcome};
use crate::handler::{handled, outbound_of, status_of};
use crate::reply::{
    answer_to, planned_reply, text_of, MessageObjectModel, ReplyMessageModel, NON_TEXT_REPLY,
};
use crate::signature::signature_valid;
use crate::json::JsonModel;
use crate::webhook_event::{batch_of, batch_reading, event_of, EventModel, MessageModel};
use vstd::prelude::*;

verus! {

/// A callback whose signature is not valid for its body is answered with a 4xx status
/// and leads to no outbound reply, whatever the body holds.
pub proof fn refused_without_valid_signature(
    secret: Seq<char>,
    context: Seq<char>,
    signature: Seq<char>,
)
    requires
        !signature_valid(secret, context, signature),
    ensures
        handled(secret, context, signature) is Err,
        400 <= status_of(handled(secret, context, signature)) < 500,
        outbound_of(handled(secret, context, signature)) == Seq::<ReplyMessageModel>::empty(),
{
}

/// A callback whose signature is valid for its body, and whose body decodes, is answered
/// with 200, and the replies of its batch are dispatched.
pub proof fn acknowledged_with_valid_signature(
    secret: Seq<char>,
    context: Seq<char>,
    signature: Seq<char>,
)
    requires
        signature_valid(secret, context, signature),
        batch_reading(context) is Ok,
    ensures
        handled(secret, context, signature) == Ok::<_, crate::error::AppError>(
            batch_reading(context)->Ok_0,
        ),
        status_of(handled(secret, context, signature)) == 200,
        outbound_of(handled(secret, context, signature)) == planned_replies(
            batch_reading(context)->Ok_0.events,
        ),
{
}

/// A callback whose body does not decode is answered with a 4xx status and leads to no
/// outbound reply, whatever its signature.
pub proof fn refused_without_batch(secret: Seq<char>, context: Seq<char>, signature: Seq<char>)
    requires
        batch_reading(context) is Err,
    ensures
        handled(secret, context, signature) is Err,
        400 <= status_of(handled(secret, context, signature)) < 500,
        outbound_of(handled(secret, context, signature)) == Seq::<ReplyMessageModel>::empty(),
{
}

/// Members that the schema does not name are not read: two values that agree on `type`,
/// `replyToken` and `message` describe the same event, or both none.
pub proof fn other_members_are_not_read(a: JsonModel, b: JsonModel)
    requires
        a.get("type"@) == b.get("type"@),
        a.get("replyToken"@) == b.get("replyToken"@),
        a.get("message"@) == b.get("message"@),
    ensures
        event_of(a) == event_of(b),
{
}

/// An event whose value has no `replyToken`, or no `message`, is decoded without one.
pub proof fn missing_members_are_absent(value: JsonModel)
    requires
        event_of(value) is Some,
    ensures
        value.get("replyToken"@) is None ==> event_of(value)->Some_0.reply_token is None,
        value.get("message"@) is None ==> event_of(value)->Some_0.message is None,
{
}

/// A decoded batch has one event for each element of `events`, in the document's order.
pub proof fn batch_keeps_document_order(document: JsonModel)
    requires
        batch_of(document) is Some,
    ensures
        document.get("events"@) is Some,
        document.get("events"@)->Some_0 is Array,
        batch_of(document)->Some_0.events.len() == document.get(
            "events"@,
        )->Some_0->Array_0.len(),
        forall|i: int|
            0 <= i < batch_of(document)->Some_0.events.len() ==> Some(
                #[trigger] batch_of(document)->Some_0.events[i],
            ) == event_of(document.get("events"@)->Some_0->Array_0[i]),
{
}

/// A batch of one text event with a token leads to exactly one reply: the event's text,
/// unchanged, under the event's token.
pub proof fn text_event_is_echoed(kind: Seq<char>, token: Seq<char>, text: Seq<char>)
    requires
        token.len() > 0,
    ensures
        planned_replies(
            seq![
                EventModel {
                    kind,
                    reply_token: Some(token),
                    message: Some(MessageModel::Text(text)),
                },
            ],
        ) == seq![
            ReplyMessageModel { reply_token: token, messages: seq![MessageObjectModel::Text(text)] },
        ],
{
    let event = EventModel {
        kind,
        reply_token: Some(token),
        message: Some(MessageModel::Text(text)),
    };
    single_event_single_reply(event);
}

/// A batch of one event with a token and no text message leads to exactly one reply: the
/// fixed sentence, under the event's token.
pub proof fn other_event_gets_fixed_reply(event: EventModel)
    requires
        event.reply_token is Some,
        event.reply_token->Some_0.len() > 0,
        text_of(event) is None,
    ensures
        planned_replies(seq![event]) == seq![
            ReplyMessageModel {
                reply_token: event.reply_token->Some_0,
                messages: seq![MessageObjectModel::Text(NON_TEXT_REPLY@)],
            },
        ],
{
    single_event_single_reply(event);
}

proof fn single_event_single_reply(event: EventModel)
    requires
        planned_reply(event) is Some,
    ensures
        planned_replies(seq![event]) == seq![planned_reply(event)->Some_0],
{
    assert(planned_replies(seq![event].drop_last()) == Seq::<ReplyMessageModel>::empty());
}

/// An event without a reply token gets no reply.
pub proof fn no_token_no_reply(event: EventModel)
    requires
        event.reply_token is None,
    ensures
        planned_reply(event) is None,
{
}

/// A batch in which no event has a reply token leads to no reply at all.
pub proof fn no_tokens_no_replies(events: Seq<EventModel>)
    requires
        forall|i: int| 0 <= i < events.len() ==> (#[trigger] events[i]).reply_token is None,
    ensures
        planned_replies(events) == Seq::<ReplyMessageModel>::empty(),
    decreases events.len(),
{
    if events.len() > 0 {
        no_tokens_no_replies(events.drop_last());
    }
}

/// No event gets more than one reply: a batch never leads to more replies than it has
/// events.
pub proof fn at_most_one_reply_per_event(events: Seq<EventModel>)
    ensures
        planned_replies(events).len() <= events.len(),
    decreases events.len(),
{
    if events.len() > 0 {
        at_most_one_reply_per_event(events.drop_last());
    }
}

/// Where every event of a batch calls for a reply, the replies are those of the events, in
/// the events' order.
pub proof fn replies_keep_event_order(events: Seq<EventModel>)
    requires
        forall|i: int| 0 <= i < events.len() ==> (#[trigger] planned_reply(events[i])) is Some,
    ensures
        planned_replies(events).len() == events.len(),
        forall|i: int|
            0 <= i < events.len() ==> Some(#[trigger] planned_replies(events)[i]) == planned_reply(
                events[i],
            ),
    decreases events.len(),
{
    if events.len() > 0 {
        replies_keep_event_order(events.drop_last());
    }
}

/// In any batch, the replies of the events before a point come first, in the same order,
/// and are followed by the replies of the events from that point on.
pub proof fn replies_follow_batch_order(events: Seq<EventModel>, point: int)
    requires
        0 <= point <= events.len(),
    ensures
        planned_replies(events) == planned_replies(events.take(point)) + planned_replies(
            events.skip(point),
        ),
    decreases events.len(),
{
    if point == events.len() {
        assert(events.take(point) == events);
    } else {
        let shorter = events.drop_last();
        replies_follow_batch_order(shorter, point);
        assert(shorter.take(point) == events.take(point));
        assert(shorter.skip(point) == events.skip(point).drop_last());
    }
}

proof fn attempts_are_the_next_replies(state: DispatchModel, outcomes: Seq<ReplyOutcome>)
    requires
        state.well_formed(),
        state.attempted + outcomes.len() <= state.replies.len(),
    ensures
        state.attempts(outcomes) == state.replies.subrange(
            state.attempted as int,
            (state.attempted + outcomes.len()) as int,
        ),
        state.run(outcomes).replies == state.replies,
        state.run(outcomes).attempted == state.attempted + outcomes.len(),
        state.run(outcomes).well_formed(),
    decreases outcomes.len(),
{
    if outcomes.len() > 0 {
        attempts_are_the_next_replies(state.settle(outcomes.first()), outcomes.drop_first());
    }
}

/// A failed reply does not stop the dispatch: whichever of the outcomes are failures, every
/// reply of the batch is attempted, in order, and nothing is left pending.
pub proof fn failures_do_not_stop_dispatch(
    replies: Seq<ReplyMessageModel>,
    outcomes: Seq<ReplyOutcome>,
)
    requires
        outcomes.len() == replies.len(),
    ensures
        DispatchModel::start(replies).attempts(outcomes) == replies,
        DispatchModel::start(replies).run(outcomes).pending() is None,
{
    attempts_are_the_next_replies(DispatchModel::start(replies), outcomes);
}

/// After a failure the next reply is the one that follows the failed one.
pub proof fn next_reply_after_failure(state: DispatchModel)
    requires
        state.well_formed(),
        state.pending() is Some,
    ensures
        state.settle(ReplyOutcome::Failed).pending() == state.settle(ReplyOutcome::Sent).pending(),
        state.attempted + 1 < state.replies.len() ==> state.settle(ReplyOutcome::Failed).pending()
            == Some(state.replies[(state.attempted + 1) as int]),
{
}

} // verus!
