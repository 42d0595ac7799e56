//! The ways in which a callback, or the start of the service, can fail.

use vstd::prelude::*;

verus! {

/// One of the three settings that the service needs before it starts.
#[derive(Debug, Clone, Copy, PartialEq, Eq, Structural)]
pub enum ConfigKey {
    ChannelAccessToken,
    ChannelSecret,
    ChannelId,
}

/// Why a signature was not accepted.
#[derive(Debug, Clone, Copy, PartialEq, Eq, Structural)]
pub enum SignatureFault {
    /// The header value is not a base64 text.
    Malformed,
    /// The header value is a base64 text of something other than the body's tag.
    Mismatch,
}

/// Why a body was not decoded.
#[derive(Debug, Clone, Copy, PartialEq, Eq, Structural)]
pub enum DecodeFault {
    /// The body is not one JSON document.
    Syntax,
    /// The body is a JSON document, but not an event batch.
    Schema,
}

/// Why the service did not start, or why a callback was refused.
#[derive(Debug, Clone, Copy, PartialEq, Eq, Structural)]
pub enum AppError {
    /// A setting is missing or empty.
    Env(ConfigKey),
    /// The body could not be decoded.
    SerdeJson(DecodeFault),
    /// The signature was not accepted.
    LineBotSdkError(SignatureFault),
}

impl ConfigKey {
    /// The name of the environment variable that holds this setting.
    pub open spec fn spec_name(&self) -> Seq<char> {
        match self {
            ConfigKey::ChannelAccessToken => "CHANNEL_ACCESS_TOKEN"@,
            ConfigKey::ChannelSecret => "CHANNEL_SECRET"@,
            ConfigKey::ChannelId => "CHANNEL_ID"@,
        }
    }

    /// The name of the environment variable that holds this setting.
    pub fn name(&self) -> (r: &'static str)
        ensures
            r@ == self.spec_name(),
    {
        match self {
            ConfigKey::ChannelAccessToken => "CHANNEL_ACCESS_TOKEN",
            ConfigKey::ChannelSecret => "CHANNEL_SECRET",
            ConfigKey::ChannelId => "CHANNEL_ID",
        }
    }
}

impl AppError {
    /// The HTTP status that answers a request which failed in this way.
    pub open spec fn spec_status(&self) -> u16 {
        match self {
            AppError::Env(_) => 500,
            AppError::SerdeJson(_) => 400,
            AppError::LineBotSdkError(_) => 401,
        }
    }

    /// The HTTP status that answers a request which failed in this way.
    #[verifier::when_used_as_spec(spec_status)]
    pub fn status(&self) -> (r: u16)
        ensures
            r == self.spec_status(),
    {
        match self {
            AppError::Env(_) => 500,
            AppError::SerdeJson(_) => 400,
            AppError::LineBotSdkError(_) => 401,
        }
    }

    /// The text that `message` returns: what went wrong, then the detail.
    pub open spec fn spec_message(&self) -> Seq<char> {
        match self {
            AppError::Env(key) => "Env var Error: "@ + key.spec_name() + " is missing or empty"@,
            AppError::SerdeJson(DecodeFault::Syntax) => "serde json error: "@
                + "the body is not a JSON document"@,
            AppError::SerdeJson(DecodeFault::Schema) => "serde json error: "@
                + "the document is not an event batch"@,
            AppError::LineBotSdkError(SignatureFault::Malformed) => "line bot sdk error: "@
                + "the signature is not base64"@,
            AppError::LineBotSdkError(SignatureFault::Mismatch) => "line bot sdk error: "@
                + "the signature does not match the body"@,
        }
    }

    /// A line for a log or a response body.
    pub fn message(&self) -> (r: String)
        ensures
            r@ == self.spec_message(),
    {
        match self {
            AppError::Env(key) => {
                let head = String::from_str("Env var Error: ");
                head.concat(key.name()).concat(" is missing or empty")
            },
            AppError::SerdeJson(fault) => {
                let head = String::from_str("serde json error: ");
                match fault {
                    DecodeFault::Syntax => head.concat("the body is not a JSON document"),
                    DecodeFault::Schema => head.concat("the document is not an event batch"),
                }
            },
            AppError::LineBotSdkError(fault) => {
                let head = String::from_str("line bot sdk error: ");
                match fault {
                    SignatureFault::Malformed => head.concat("the signature is not base64"),
                    SignatureFault::Mismatch => head.concat("the signature does not match the body"),
                }
            },
        }
    }
}

} // verus!
