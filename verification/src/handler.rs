//! The ingress handler: what one callback is answered with, and what is dispatched for it.

use crate::dispatch::{planned_replies, webhook_handler, DispatchModel, Dispatcher};
use crate::error::AppError;
use crate::reply::ReplyMessageModel;
use crate::signature::{sdk_signature_check, verdict_of, verify_signature};
use crate::state::AppState;
use crate::webhook_event::{batch_reading, get_webhook_event, EventBatchModel};
use vstd::prelude::*;

verus! {

/// How a callback is handled: it is refused unless its signature is accepted, and then
/// refused unless its body, the very text that was signed, decodes to a batch.
pub open spec fn handled(secret: Seq<char>, context: Seq<char>, signature: Seq<char>) -> Result<
    EventBatchModel,
    AppError,
> {
    match verdict_of(sdk_signature_check(secret, signature, context)) {
        Err(fault) => Err(AppError::LineBotSdkError(fault)),
        Ok(()) => match batch_reading(context) {
            Err(fault) => Err(AppError::SerdeJson(fault)),
            Ok(batch) => Ok(batch),
        },
    }
}

/// The HTTP status that answers a callback: 200 once it is accepted, the error's status
/// where it is refused.
pub open spec fn status_of<T>(outcome: Result<T, AppError>) -> u16 {
    match outcome {
        Ok(_) => 200,
        Err(e) => e.spec_status(),
    }
}

/// The body of the answer to a callback: empty once it is accepted, the error's message
/// where it is refused.
pub open spec fn body_of<T>(outcome: Result<T, AppError>) -> Seq<char> {
    match outcome {
        Ok(_) => Seq::empty(),
        Err(e) => e.spec_message(),
    }
}

/// The outbound replies that a callback leads to, in order.
pub open spec fn outbound_of(outcome: Result<EventBatchModel, AppError>) -> Seq<
    ReplyMessageModel,
> {
    match outcome {
        Ok(batch) => planned_replies(batch.events),
        Err(_) => Seq::empty(),
    }
}

/// Handles one callback: the body as it was received, and the value of the signature
/// header. On success the dispatch of the batch is planned and nothing of it attempted.
pub fn handler(state: &AppState, context: &str, signature: &str) -> (r: Result<
    Dispatcher,
    AppError,
>)
    ensures
        match handled(state.secret(), context@, signature@) {
            Ok(batch) => r matches Ok(dispatcher) && dispatcher@ == DispatchModel::start(
                planned_replies(batch.events),
            ),
            Err(e) => r matches Err(refusal) && refusal == e,
        },
        status_of(r) == status_of(handled(state.secret(), context@, signature@)),
        body_of(r) == body_of(handled(state.secret(), context@, signature@)),
{
    match verify_signature(state, signature, context) {
        Ok(()) => {},
        Err(e) => return Err(e),
    }
    let webhook_event = match get_webhook_event(context) {
        Ok(batch) => batch,
        Err(e) => return Err(e),
    };
    Ok(webhook_handler(&webhook_event))
}

/// The answer to the platform.
#[derive(Debug, Clone, PartialEq, Eq)]
pub struct Response {
    pub status: u16,
    pub body: String,
}

/// The answer for a handled callback: 200 with an empty body once the dispatch is planned,
/// and the error's status with its message otherwise.
pub fn respond(outcome: &Result<Dispatcher, AppError>) -> (r: Response)
    ensures
        r.status == status_of(*outcome),
        r.body@ == body_of(*outcome),
{
    match outcome {
        Ok(_) => Response { status: 200, body: String::new() },
        Err(e) => Response { status: e.status(), body: e.message() },
    }
}

} // verus!
