use spotdl_player::session::{join_reply, join_target, Config, JoinError, VoiceState};
use std::sync::Arc;

#[test]
fn join_goes_to_authors_channel() {
    let states = vec![
        VoiceState { user_id: 1, channel_id: Some(10) },
        VoiceState { user_id: 2, channel_id: Some(20) },
    ];
    assert_eq!(join_target(&states, 2), Ok(20));
}

#[test]
fn join_without_voice_state_fails() {
    let states = vec![
        VoiceState { user_id: 1, channel_id: Some(10) },
        VoiceState { user_id: 2, channel_id: None },
    ];
    assert_eq!(join_target(&states, 2), Err(JoinError::NotInVoiceChannel));
    assert_eq!(join_target(&states, 3), Err(JoinError::NotInVoiceChannel));
    assert_eq!(join_target(&vec![], 3), Err(JoinError::NotInVoiceChannel));
}

#[test]
fn join_replies() {
    assert_eq!(join_reply(&Ok(())), "Joined");
    assert_eq!(join_reply(&Err(JoinError::NotInVoiceChannel)), "Not in a voice channel");
    assert_eq!(join_reply(&Err(JoinError::ConnectFailed("x".to_string()))), "Cannot join channel");
}

#[test]
fn config_shares_credentials() {
    let config = Config {
        discord_token: Arc::new("SECRET-REDACTED".to_string()),
        spotify_client_id: Arc::new("cid".to_string()),
        spotify_client_secret: Arc::new("SECRET-REDACTED".to_string()),
    };
    let c = config.credential();
    assert_eq!(c.client_id.as_str(), "cid");
    assert!(Arc::ptr_eq(&c.client_id, &config.spotify_client_id));
    assert!(Arc::ptr_eq(&c.client_secret, &config.spotify_client_secret));
}
