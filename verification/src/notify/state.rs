//! What the notification server holds while it runs.

use crate::auth::VerifyToken;
use crate::jwt::{
    identity_of, is_public_key, token_claims, verdict_view, JwtDecodingKey, JwtError,
    UserCliams, VerificationError,
};
use crate::notify::config::NotifyConfig;
use crate::notify::registry::{no_channels, ChannelRegistry};
use vstd::prelude::*;

verus! {

/// The settings, the channels of the connected users, and the key that
/// tokens are checked with.
pub struct NotifyState {
    pub config: NotifyConfig,
    pub users: ChannelRegistry,
    pub dk: JwtDecodingKey,
}

impl NotifyState {
    /// Sets the server up from its settings: reads the key and starts with no
    /// channels. Fails if the key cannot be read.
    pub fn try_new(config: NotifyConfig) -> (out: Result<NotifyState, JwtError>)
        ensures
            out is Ok == is_public_key(vstd::utf8::encode_utf8(config.auth.pk@)),
            out matches Ok(state) ==> state.users.channels() == no_channels() && state.config
                == config,
    {
        let dk = match JwtDecodingKey::load(config.auth.pk.as_str().as_bytes()) {
            Ok(dk) => dk,
            Err(e) => return Err(e),
        };
        Ok(NotifyState { config, users: ChannelRegistry::new(), dk })
    }
}

impl VerifyToken for NotifyState {
    type Error = VerificationError;

    open spec fn accepts(&self, token: Seq<char>, user: UserCliams) -> bool {
        token_claims(token) matches Some(doc) && identity_of(doc) == Some(user)
    }

    fn verify(&self, token: &str) -> (out: Result<UserCliams, VerificationError>)
        ensures
            exists|now: u64| verdict_view(out) == #[trigger] self.dk.verdict(token@, now),
            out matches Ok(user) ==> token_claims(token@) matches Some(doc) && identity_of(doc)
                == Some(user),
    {
        self.dk.verify(token)
    }
}

} // verus!
