//! Authenticating a callback: the platform signs each body with the channel's secret.

use crate::error::{AppError, SignatureFault};
use crate::state::AppState;
use vstd::prelude::*;

verus! {

/// Which error the SDK gave for a signature.
#[derive(Debug, Clone, Copy, PartialEq, Eq, Structural)]
pub enum SdkError {
    /// The signature is not a base64 text.
    Base64Decode,
    /// The decoded signature is not the tag of the body.
    HmacDigestMac,
    /// The secret was refused as a key.
    HmacInvalidLength,
    /// Any other error of the SDK.
    Other,
}

/// What the SDK answers for a signature: `Ok` where the signature, decoded from base64, is
/// the HMAC-SHA256 tag of the body under the secret; `Err(Base64Decode)` where it is no
/// base64 text; `Err(HmacDigestMac)` where it is one, of anything but that tag.
pub uninterp spec fn sdk_signature_check(
    secret: Seq<char>,
    signature: Seq<char>,
    body: Seq<char>,
) -> Result<(), SdkError>;

/// Trusted: `line_bot_sdk::Client::verify_signature`, on a client that
/// `line_bot_sdk::Client::new` makes with `secret` as its channel secret, and a match that
/// tells the variants of `line_bot_sdk::Error` apart. The contract claims that the answer
/// depends on the secret, the signature and the body alone: the client's access token, left
/// empty here, is not read by the call.
#[verifier::external_body]
fn sdk_verify_signature(secret: &str, signature: &str, body: &str) -> (r: Result<(), SdkError>)
    ensures
        r == sdk_signature_check(secret@, signature@, body@),
{
    let client = line_bot_sdk::Client::new(String::new(), secret.to_string());
    match client.verify_signature(signature, body) {
        Ok(()) => Ok(()),
        Err(line_bot_sdk::Error::Base64DecodeError(_)) => Err(SdkError::Base64Decode),
        Err(line_bot_sdk::Error::HmacDigestMacError(_)) => Err(SdkError::HmacDigestMac),
        Err(line_bot_sdk::Error::HmacDijestInvalidLength(_)) => Err(SdkError::HmacInvalidLength),
        Err(_) => Err(SdkError::Other),
    }
}

/// The verdict on a signature, given the SDK's answer: a text that is not base64 is
/// malformed, and every other refusal is a mismatch.
pub open spec fn verdict_of(answer: Result<(), SdkError>) -> Result<(), SignatureFault> {
    match answer {
        Ok(()) => Ok(()),
        Err(SdkError::Base64Decode) => Err(SignatureFault::Malformed),
        Err(_) => Err(SignatureFault::Mismatch),
    }
}

/// Whether `signature` authenticates `body` under `secret`.
pub open spec fn signature_valid(secret: Seq<char>, body: Seq<char>, signature: Seq<char>) -> bool {
    sdk_signature_check(secret, signature, body) is Ok
}

/// Turns the SDK's answer into the verdict.
pub fn judge(answer: Result<(), SdkError>) -> (r: Result<(), SignatureFault>)
    ensures
        r == verdict_of(answer),
{
    match answer {
        Ok(()) => Ok(()),
        Err(SdkError::Base64Decode) => Err(SignatureFault::Malformed),
        Err(_) => Err(SignatureFault::Mismatch),
    }
}

/// Decides whether `signature` authenticates `context` under the channel's secret.
pub fn verify_signature(state: &AppState, signature: &str, context: &str) -> (r: Result<
    (),
    AppError,
>)
    ensures
        r is Ok <==> signature_valid(state.secret(), context@, signature@),
        match verdict_of(sdk_signature_check(state.secret(), signature@, context@)) {
            Ok(()) => r is Ok,
            Err(fault) => r == Err::<(), AppError>(AppError::LineBotSdkError(fault)),
        },
{
    match judge(sdk_verify_signature(state.channel_secret(), signature, context)) {
        Ok(()) => Ok(()),
        Err(fault) => Err(AppError::LineBotSdkError(fault)),
    }
}

} // verus!
