use echo_webhook::error::{AppError, ConfigKey, DecodeFault, SignatureFault};
use echo_webhook::state::AppState;

fn some(s: &str) -> Option<String> {
    Some(s.to_string())
}

#[test]
fn all_three_settings_make_a_state() {
    let state = AppState::new(some("token"), some("secret"), some("id")).unwrap();
    assert_eq!(state.channel_access_token(), "token");
    assert_eq!(state.channel_secret(), "secret");
    assert_eq!(state.channel_id(), "id");
}

#[test]
fn a_missing_setting_is_an_error() {
    assert_eq!(
        AppState::new(None, some("secret"), some("id")).unwrap_err(),
        AppError::Env(ConfigKey::ChannelAccessToken)
    );
    assert_eq!(
        AppState::new(some("token"), None, some("id")).unwrap_err(),
        AppError::Env(ConfigKey::ChannelSecret)
    );
    assert_eq!(
        AppState::new(some("token"), some("secret"), None).unwrap_err(),
        AppError::Env(ConfigKey::ChannelId)
    );
}

#[test]
fn an_empty_setting_is_an_error() {
    assert_eq!(
        AppState::new(some(""), some("secret"), some("id")).unwrap_err(),
        AppError::Env(ConfigKey::ChannelAccessToken)
    );
    assert_eq!(
        AppState::new(some("token"), some(""), some("id")).unwrap_err(),
        AppError::Env(ConfigKey::ChannelSecret)
    );
    assert_eq!(
        AppState::new(some("token"), some("secret"), some("")).unwrap_err(),
        AppError::Env(ConfigKey::ChannelId)
    );
}

#[test]
fn the_first_unset_setting_is_reported() {
    assert_eq!(
        AppState::new(None, None, None).unwrap_err(),
        AppError::Env(ConfigKey::ChannelAccessToken)
    );
    assert_eq!(
        AppState::new(some("token"), some(""), None).unwrap_err(),
        AppError::Env(ConfigKey::ChannelSecret)
    );
}

#[test]
fn the_names_of_the_settings() {
    assert_eq!(ConfigKey::ChannelAccessToken.name(), "CHANNEL_ACCESS_TOKEN");
    assert_eq!(ConfigKey::ChannelSecret.name(), "CHANNEL_SECRET");
    assert_eq!(ConfigKey::ChannelId.name(), "CHANNEL_ID");
}

#[test]
fn each_error_has_its_status() {
    assert_eq!(AppError::Env(ConfigKey::ChannelId).status(), 500);
    assert_eq!(AppError::SerdeJson(DecodeFault::Syntax).status(), 400);
    assert_eq!(AppError::SerdeJson(DecodeFault::Schema).status(), 400);
    assert_eq!(
        AppError::LineBotSdkError(SignatureFault::Malformed).status(),
        401
    );
    assert_eq!(
        AppError::LineBotSdkError(SignatureFault::Mismatch).status(),
        401
    );
}

#[test]
fn each_error_has_its_message() {
    assert_eq!(
        AppError::Env(ConfigKey::ChannelSecret).message(),
        "Env var Error: CHANNEL_SECRET is missing or empty"
    );
    assert_eq!(
        AppError::SerdeJson(DecodeFault::Syntax).message(),
        "serde json error: the body is not a JSON document"
    );
    assert_eq!(
        AppError::SerdeJson(DecodeFault::Schema).message(),
        "serde json error: the document is not an event batch"
    );
    assert_eq!(
        AppError::LineBotSdkError(SignatureFault::Malformed).message(),
        "line bot sdk error: the signature is not base64"
    );
    assert_eq!(
        AppError::LineBotSdkError(SignatureFault::Mismatch).message(),
        "line bot sdk error: the signature does not match the body"
    );
}
