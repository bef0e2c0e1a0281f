//! The voice session: which channel a join goes to, what the join reports,
//! and the configuration that carries the credentials.
use std::sync::Arc;
use vstd::prelude::*;

use crate::resolver::{credential_view, SpotifyCredential};

verus! {

/// Shown after a successful join.
pub const JOINED_REPLY: &'static str = "Joined";

/// Shown when the requester is in no voice channel.
pub const NOT_IN_VOICE_REPLY: &'static str = "Not in a voice channel";

/// Shown when the transport could not connect.
pub const CANNOT_JOIN_REPLY: &'static str = "Cannot join channel";

/// Why a join failed.
#[derive(Clone, Debug, PartialEq, Eq)]
pub enum JoinError {
    /// The requester is in no voice channel of the guild.
    NotInVoiceChannel,
    /// The transport could not connect; holds its reason.
    ConnectFailed(String),
}

/// A member's voice state in a guild: the member and the channel they are in.
#[derive(Clone, Copy, Debug, PartialEq, Eq)]
pub struct VoiceState {
    pub user_id: u64,
    pub channel_id: Option<u64>,
}

/// The channel of the first voice state of `user`, if any.
pub open spec fn channel_of(states: Seq<VoiceState>, user: u64) -> Option<u64>
    decreases states.len(),
{
    if states.len() == 0 {
        None
    } else if states[0].user_id == user {
        states[0].channel_id
    } else {
        channel_of(states.drop_first(), user)
    }
}

/// The channel to join for `author`: the one their voice state names, or
/// `NotInVoiceChannel`.
pub fn join_target(states: &Vec<VoiceState>, author: u64) -> (r: Result<u64, JoinError>)
    ensures
        match channel_of(states@, author) {
            Some(c) => r == Ok::<u64, JoinError>(c),
            None => r == Err::<u64, JoinError>(JoinError::NotInVoiceChannel),
        },
{
    let mut i: usize = 0;
    assert(states@.subrange(0, states@.len() as int) =~= states@);
    while i < states.len()
        invariant
            i <= states@.len(),
            channel_of(states@, author) == channel_of(states@.subrange(i as int, states@.len() as int), author),
        decreases states@.len() - i,
    {
        let ghost rest = states@.subrange(i as int, states@.len() as int);
        assert(rest.drop_first() =~= states@.subrange(i + 1, states@.len() as int));
        if states[i].user_id == author {
            return match states[i].channel_id {
                Some(c) => Ok(c),
                None => Err(JoinError::NotInVoiceChannel),
            };
        }
        i = i + 1;
    }
    Err(JoinError::NotInVoiceChannel)
}

/// The reply of a join with the given result.
pub fn join_reply(result: &Result<(), JoinError>) -> (r: &'static str)
    ensures
        r@ == match result {
            Ok(_) => JOINED_REPLY@,
            Err(JoinError::NotInVoiceChannel) => NOT_IN_VOICE_REPLY@,
            Err(JoinError::ConnectFailed(_)) => CANNOT_JOIN_REPLY@,
        },
{
    match result {
        Ok(_) => JOINED_REPLY,
        Err(JoinError::NotInVoiceChannel) => NOT_IN_VOICE_REPLY,
        Err(JoinError::ConnectFailed(_)) => CANNOT_JOIN_REPLY,
    }
}

/// The bot's configuration: its chat token and the streaming-service
/// credentials, each shared read-only.
#[derive(Clone, Debug)]
pub struct Config {
    pub discord_token: Arc<String>,
    pub spotify_client_id: Arc<String>,
    pub spotify_client_secret: Arc<String>,
}

/// Relies on `Arc::clone`: a new handle to the same value.
#[verifier::external_body]
fn share(a: &Arc<String>) -> (r: Arc<String>)
    ensures
        *r == **a,
{
    Arc::clone(a)
}

impl Config {
    /// The streaming-service credentials of this configuration, sharing its strings.
    pub fn credential(&self) -> (r: SpotifyCredential)
        ensures
            credential_view(Some(r)) == Some(((*self.spotify_client_id)@, (*self.spotify_client_secret)@)),
    {
        SpotifyCredential {
            client_id: share(&self.spotify_client_id),
            client_secret: share(&self.spotify_client_secret),
        }
    }
}

} // verus!
