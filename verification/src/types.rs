//! The headers, message kinds and payloads of an event-subscription webhook.

use vstd::prelude::*;
use crate::text::same_text;

verus! {

/// The headers that the event provider sets on each callback.
#[derive(Debug, Clone, Copy, PartialEq, Eq, Structural)]
pub enum EventsubHeader {
    MessageId,
    MessageRetry,
    MessageType,
    MessageSignature,
    MessageTimestamp,
    SubscriptionType,
    SubscriptionVersion,
}

impl EventsubHeader {
    /// The header's name on the wire.
    pub open spec fn name(self) -> Seq<char> {
        match self {
            EventsubHeader::MessageId => "Twitch-Eventsub-Message-Id"@,
            EventsubHeader::MessageRetry => "Twitch-Eventsub-Message-Retry"@,
            EventsubHeader::MessageType => "Twitch-Eventsub-Message-Type"@,
            EventsubHeader::MessageSignature => "Twitch-Eventsub-Message-Signature"@,
            EventsubHeader::MessageTimestamp => "Twitch-Eventsub-Message-Timestamp"@,
            EventsubHeader::SubscriptionType => "Twitch-Eventsub-Subscription-Type"@,
            EventsubHeader::SubscriptionVersion => "Twitch-Eventsub-Subscription-Version"@,
        }
    }

    pub fn as_ref(&self) -> (name: &'static str)
        ensures
            name@ == self.name(),
    {
        match self {
            EventsubHeader::MessageId => "Twitch-Eventsub-Message-Id",
            EventsubHeader::MessageRetry => "Twitch-Eventsub-Message-Retry",
            EventsubHeader::MessageType => "Twitch-Eventsub-Message-Type",
            EventsubHeader::MessageSignature => "Twitch-Eventsub-Message-Signature",
            EventsubHeader::MessageTimestamp => "Twitch-Eventsub-Message-Timestamp",
            EventsubHeader::SubscriptionType => "Twitch-Eventsub-Subscription-Type",
            EventsubHeader::SubscriptionVersion => "Twitch-Eventsub-Subscription-Version",
        }
    }
}

/// What a callback is: a challenge, a notification or a revocation.
#[derive(Debug, Clone, Copy, PartialEq, Eq, Structural)]
pub enum MessageType {
    WebhookCallbackVerification,
    Notification,
    Revocation,
}

impl MessageType {
    /// The value of the message-type header that stands for this kind.
    pub open spec fn name(self) -> Seq<char> {
        match self {
            MessageType::WebhookCallbackVerification => "webhook_callback_verification"@,
            MessageType::Notification => "notification"@,
            MessageType::Revocation => "revocation"@,
        }
    }

    /// The kind that a header value names, if it names one.
    pub open spec fn parse(text: Seq<char>) -> Option<MessageType> {
        if text == "webhook_callback_verification"@ {
            Some(MessageType::WebhookCallbackVerification)
        } else if text == "notification"@ {
            Some(MessageType::Notification)
        } else if text == "revocation"@ {
            Some(MessageType::Revocation)
        } else {
            None
        }
    }

    pub fn as_ref(&self) -> (name: &'static str)
        ensures
            name@ == self.name(),
    {
        match self {
            MessageType::WebhookCallbackVerification => "webhook_callback_verification",
            MessageType::Notification => "notification",
            MessageType::Revocation => "revocation",
        }
    }

    pub fn from_str(text: &str) -> (kind: Option<MessageType>)
        ensures
            kind == MessageType::parse(text@),
    {
        if same_text(text, "webhook_callback_verification") {
            Some(MessageType::WebhookCallbackVerification)
        } else if same_text(text, "notification") {
            Some(MessageType::Notification)
        } else if same_text(text, "revocation") {
            Some(MessageType::Revocation)
        } else {
            None
        }
    }
}

/// The header value of each message type is read back as that type.
pub proof fn lemma_message_type_round_trip(kind: MessageType)
    ensures
        MessageType::parse(kind.name()) == Some(kind),
{
    reveal_strlit("webhook_callback_verification");
    reveal_strlit("notification");
    reveal_strlit("revocation");
    assert("webhook_callback_verification"@.len() == 29);
    assert("notification"@.len() == 12);
    assert("revocation"@.len() == 10);
}

/// The subscriptions that notifications are accepted for.
#[derive(Debug, Clone, Copy, PartialEq, Eq, Structural)]
pub enum SubscriptionType {
    CustomRewardRedemption,
}

impl SubscriptionType {
    /// The value of the subscription-type header that stands for this kind.
    pub open spec fn name(self) -> Seq<char> {
        match self {
            SubscriptionType::CustomRewardRedemption => "channel.channel_points_custom_reward_redemption.add"@,
        }
    }

    /// The kind that a header value names, if it names one.
    pub open spec fn parse(text: Seq<char>) -> Option<SubscriptionType> {
        if text == "channel.channel_points_custom_reward_redemption.add"@ {
            Some(SubscriptionType::CustomRewardRedemption)
        } else {
            None
        }
    }

    pub fn as_ref(&self) -> (name: &'static str)
        ensures
            name@ == self.name(),
    {
        match self {
            SubscriptionType::CustomRewardRedemption => "channel.channel_points_custom_reward_redemption.add",
        }
    }

    pub fn from_str(text: &str) -> (kind: Option<SubscriptionType>)
        ensures
            kind == SubscriptionType::parse(text@),
    {
        if same_text(text, "channel.channel_points_custom_reward_redemption.add") {
            Some(SubscriptionType::CustomRewardRedemption)
        } else {
            None
        }
    }
}

/// The payload of a notification that a reward was redeemed.
#[derive(Debug)]
pub struct RewardRedeemed {
    pub subscription: Subscription,
    pub event: RewardEvent,
}

impl RewardRedeemed {
    pub fn broadcaster_user_id(&self) -> (id: &str)
        ensures
            id@ == self.event.broadcaster_user_id@,
    {
        self.event.broadcaster_user_id.as_str()
    }

    pub fn reward_id(&self) -> (id: &str)
        ensures
            id@ == self.event.reward.id@,
    {
        self.event.reward.id.as_str()
    }
}

/// The subscription that a callback belongs to. `kind` is the payload's
/// `type` member.
#[derive(Debug)]
pub struct Subscription {
    pub id: String,
    pub kind: String,
    pub version: String,
    pub status: String,
    pub cost: u16,
    pub condition: Condition,
    pub transport: Transport,
    pub created_at: String,
}

/// A redemption: who redeemed which reward on whose channel.
#[derive(Debug)]
pub struct RewardEvent {
    pub id: String,
    pub broadcaster_user_id: String,
    pub broadcaster_user_login: String,
    pub broadcaster_user_name: String,
    pub user_id: String,
    pub user_login: String,
    pub user_name: String,
    pub user_input: String,
    pub status: String,
    pub reward: Reward,
    pub redeemed_at: String,
}

#[derive(Debug)]
pub struct Condition {
    pub broadcaster_user_id: String,
    pub reward_id: Option<String>,
}

#[derive(Debug)]
pub struct Transport {
    pub method: String,
    pub callback: String,
}

#[derive(Debug)]
pub struct Reward {
    pub id: String,
    pub title: String,
    pub cost: u16,
    pub prompt: String,
}

/// The payload of a challenge: the text that is to be echoed.
#[derive(Debug)]
pub struct VerificationEvent {
    pub challenge: String,
    pub subscription: Subscription,
}

/// The payload of a revocation.
#[derive(Debug)]
pub struct RevocationEvent {
    pub subscription: Subscription,
}

impl RevocationEvent {
    pub fn subscription_type(&self) -> (kind: &str)
        ensures
            kind@ == self.subscription.kind@,
    {
        self.subscription.kind.as_str()
    }

    pub fn subscription_status(&self) -> (status: &str)
        ensures
            status@ == self.subscription.status@,
    {
        self.subscription.status.as_str()
    }
}

impl VerificationEvent {
    pub fn challenge(&self) -> (challenge: &str)
        ensures
            challenge@ == self.challenge@,
    {
        self.challenge.as_str()
    }
}

} // verus!
