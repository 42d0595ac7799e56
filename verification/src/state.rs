//! The channel's settings, checked once when the service starts.

use crate::error::{AppError, ConfigKey};
use vstd::prelude::*;

verus! {

/// What every request handler shares: the three settings of the channel, none of them empty.
#[derive(Debug)]
pub struct AppState {
    channel_access_token: String,
    channel_secret: String,
    channel_id: String,
}

/// The characters of a setting, where it was given.
pub open spec fn setting_text(value: Option<String>) -> Option<Seq<char>> {
    match value {
        Some(s) => Some(s@),
        None => None,
    }
}

/// Whether a setting was given and is not empty.
pub open spec fn is_set(value: Option<String>) -> bool {
    match value {
        Some(s) => s@.len() > 0,
        None => false,
    }
}

/// The first setting, in the order token, secret, id, that is missing or empty.
pub open spec fn first_unset(
    channel_access_token: Option<String>,
    channel_secret: Option<String>,
    channel_id: Option<String>,
) -> Option<ConfigKey> {
    if !is_set(channel_access_token) {
        Some(ConfigKey::ChannelAccessToken)
    } else if !is_set(channel_secret) {
        Some(ConfigKey::ChannelSecret)
    } else if !is_set(channel_id) {
        Some(ConfigKey::ChannelId)
    } else {
        None
    }
}

fn take_setting(value: Option<String>) -> (r: Option<String>)
    ensures
        match r {
            Some(s) => is_set(value) && value == Some(s),
            None => !is_set(value),
        },
{
    match value {
        Some(s) => {
            if s.as_str().is_empty() {
                None
            } else {
                Some(s)
            }
        },
        None => None,
    }
}

impl AppState {
    #[verifier::type_invariant]
    spec fn well_formed(&self) -> bool {
        &&& self.channel_access_token@.len() > 0
        &&& self.channel_secret@.len() > 0
        &&& self.channel_id@.len() > 0
    }

    /// The bearer credential for outbound replies.
    pub closed spec fn access_token(&self) -> Seq<char> {
        self.channel_access_token@
    }

    /// The key under which callbacks are signed.
    pub closed spec fn secret(&self) -> Seq<char> {
        self.channel_secret@
    }

    /// The platform's identifier of the channel.
    pub closed spec fn id(&self) -> Seq<char> {
        self.channel_id@
    }

    /// Builds the state from the three settings as they were found: `None` for one that
    /// is not there. Fails on the first that is missing or empty.
    pub fn new(
        channel_access_token: Option<String>,
        channel_secret: Option<String>,
        channel_id: Option<String>,
    ) -> (r: Result<AppState, AppError>)
        ensures
            match r {
                Ok(state) => {
                    &&& first_unset(channel_access_token, channel_secret, channel_id) is None
                    &&& Some(state.access_token()) == setting_text(channel_access_token)
                    &&& Some(state.secret()) == setting_text(channel_secret)
                    &&& Some(state.id()) == setting_text(channel_id)
                },
                Err(e) => match first_unset(channel_access_token, channel_secret, channel_id) {
                    Some(key) => e == AppError::Env(key),
                    None => false,
                },
            },
    {
        let token = match take_setting(channel_access_token) {
            Some(s) => s,
            None => return Err(AppError::Env(ConfigKey::ChannelAccessToken)),
        };
        let secret = match take_setting(channel_secret) {
            Some(s) => s,
            None => return Err(AppError::Env(ConfigKey::ChannelSecret)),
        };
        let id = match take_setting(channel_id) {
            Some(s) => s,
            None => return Err(AppError::Env(ConfigKey::ChannelId)),
        };
        Ok(AppState { channel_access_token: token, channel_secret: secret, channel_id: id })
    }

    /// The bearer credential for outbound replies.
    pub fn channel_access_token(&self) -> (r: &str)
        ensures
            r@ == self.access_token(),
            r@.len() > 0,
    {
        proof {
            use_type_invariant(self);
        }
        self.channel_access_token.as_str()
    }

    /// The key under which callbacks are signed.
    pub fn channel_secret(&self) -> (r: &str)
        ensures
            r@ == self.secret(),
            r@.len() > 0,
    {
        proof {
            use_type_invariant(self);
        }
        self.channel_secret.as_str()
    }

    /// The platform's identifier of the channel.
    pub fn channel_id(&self) -> (r: &str)
        ensures
            r@ == self.id(),
            r@.len() > 0,
    {
        proof {
            use_type_invariant(self);
        }
        self.channel_id.as_str()
    }
}

} // verus!
