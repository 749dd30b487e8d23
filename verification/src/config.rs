//! The configuration that the handlers read: built once and passed by
//! reference.

use vstd::prelude::*;

verus! {

#[derive(Clone, PartialEq, Debug)]
pub struct AppConfig {
    pub twitch_client_id: String,
    pub twitch_client_secret: Option<String>,
    pub twitch_eventsub_subscription_secret: String,
    pub twitch_channel_id: String,
    pub twitch_host: String,
    pub se_jwt: Option<String>,
    pub se_api_host: String,
    pub feed_mods_rewards_id: String,
    pub broadcaster_user_id: String,
    pub redirect_uri: String,
    pub message_components_config_path: String,
}

/// A copy of an optional text.
fn copy_of(text: &Option<String>) -> (copy: Option<String>)
    ensures
        copy == *text,
{
    match text {
        Some(s) => Some(s.clone()),
        None => None,
    }
}

impl AppConfig {
    /// A copy of the configuration with two of its optional values taken
    /// from the arguments.
    fn copy_with(&self, twitch_client_secret: Option<String>, se_jwt: Option<String>) -> (res: Self)
        ensures
            res == (AppConfig { twitch_client_secret, se_jwt, ..*self }),
    {
        AppConfig {
            twitch_client_id: self.twitch_client_id.clone(),
            twitch_client_secret,
            twitch_eventsub_subscription_secret: self.twitch_eventsub_subscription_secret.clone(),
            twitch_channel_id: self.twitch_channel_id.clone(),
            twitch_host: self.twitch_host.clone(),
            se_jwt,
            se_api_host: self.se_api_host.clone(),
            feed_mods_rewards_id: self.feed_mods_rewards_id.clone(),
            broadcaster_user_id: self.broadcaster_user_id.clone(),
            redirect_uri: self.redirect_uri.clone(),
            message_components_config_path: self.message_components_config_path.clone(),
        }
    }

    /// The same configuration with another host for the chat service.
    pub fn with_se_api_host(&self, new: String) -> (res: Self)
        ensures
            res == (AppConfig { se_api_host: new, ..*self }),
    {
        let mut res = self.copy_with(copy_of(&self.twitch_client_secret), copy_of(&self.se_jwt));
        res.se_api_host = new;
        res
    }

    /// The same configuration with a token for the chat service.
    pub fn with_se_jwt(&self, new: String) -> (res: Self)
        ensures
            res == (AppConfig { se_jwt: Some(new), ..*self }),
    {
        self.copy_with(copy_of(&self.twitch_client_secret), Some(new))
    }

    /// The same configuration with a client secret.
    pub fn with_twitch_client_secret(&self, new: String) -> (res: Self)
        ensures
            res == (AppConfig { twitch_client_secret: Some(new), ..*self }),
    {
        self.copy_with(Some(new), copy_of(&self.se_jwt))
    }
}

} // verus!
