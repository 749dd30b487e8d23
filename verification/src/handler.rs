//! Dispatches a callback: the signature is checked first, then the message
//! type decides what is asked of the payload and what is answered.
//!
//! The handler decides and the caller acts: each function here takes what
//! the caller has read or decoded and returns the next [`Step`].

use vstd::prelude::*;
use vstd::string::*;
use vstd::utf8::encode_utf8;
use crate::config::AppConfig;
use crate::robochick::{
    is_composed, outcome, MessageBuilder, MessageComponents, Robochick, ScenarioError,
};
use crate::signature::{checked, SignatureError};
use crate::text::same_text;
use crate::types::{
    EventsubHeader, MessageType, RevocationEvent, RewardRedeemed, SubscriptionType,
    VerificationEvent,
};

verus! {

/// The headers of a callback that the handler reads. A header that is
/// absent, or whose value is no text, is `None`.
#[derive(Debug, Clone)]
pub struct EventHeaders {
    pub message_id: Option<String>,
    pub message_retry: Option<String>,
    pub message_type: Option<String>,
    pub message_signature: Option<String>,
    pub message_timestamp: Option<String>,
    pub subscription_type: Option<String>,
    pub subscription_version: Option<String>,
}

impl EventHeaders {
    /// The value of a header.
    pub open spec fn value(self, header: EventsubHeader) -> Option<String> {
        match header {
            EventsubHeader::MessageId => self.message_id,
            EventsubHeader::MessageRetry => self.message_retry,
            EventsubHeader::MessageType => self.message_type,
            EventsubHeader::MessageSignature => self.message_signature,
            EventsubHeader::MessageTimestamp => self.message_timestamp,
            EventsubHeader::SubscriptionType => self.subscription_type,
            EventsubHeader::SubscriptionVersion => self.subscription_version,
        }
    }

    /// No header at all.
    pub fn new() -> (headers: EventHeaders)
        ensures
            forall|header: EventsubHeader| headers.value(header) is None,
    {
        EventHeaders {
            message_id: None,
            message_retry: None,
            message_type: None,
            message_signature: None,
            message_timestamp: None,
            subscription_type: None,
            subscription_version: None,
        }
    }

    /// Sets one header and leaves the others as they are.
    pub fn insert(&mut self, header: EventsubHeader, value: String)
        ensures
            final(self).value(header) == Some(value),
            forall|other: EventsubHeader|
                other != header ==> final(self).value(other) == old(self).value(other),
    {
        match header {
            EventsubHeader::MessageId => {
                self.message_id = Some(value);
            },
            EventsubHeader::MessageRetry => {
                self.message_retry = Some(value);
            },
            EventsubHeader::MessageType => {
                self.message_type = Some(value);
            },
            EventsubHeader::MessageSignature => {
                self.message_signature = Some(value);
            },
            EventsubHeader::MessageTimestamp => {
                self.message_timestamp = Some(value);
            },
            EventsubHeader::SubscriptionType => {
                self.subscription_type = Some(value);
            },
            EventsubHeader::SubscriptionVersion => {
                self.subscription_version = Some(value);
            },
        }
    }

    /// Reads one header.
    pub fn get(&self, header: EventsubHeader) -> (value: &Option<String>)
        ensures
            *value == self.value(header),
    {
        match header {
            EventsubHeader::MessageId => &self.message_id,
            EventsubHeader::MessageRetry => &self.message_retry,
            EventsubHeader::MessageType => &self.message_type,
            EventsubHeader::MessageSignature => &self.message_signature,
            EventsubHeader::MessageTimestamp => &self.message_timestamp,
            EventsubHeader::SubscriptionType => &self.subscription_type,
            EventsubHeader::SubscriptionVersion => &self.subscription_version,
        }
    }
}

/// Why an authenticated callback was not acted upon.
#[derive(Debug, Clone, Copy, PartialEq, Eq, Structural)]
pub enum HandlerError {
    /// The message-type header is absent or names no known type.
    UnknownMessageType,
    /// The subscription-type header is absent or names no known type.
    UnknownSubscriptionType,
    /// The notification is for another broadcaster or another reward.
    UnknownNotification,
    /// The body is not the payload that the message type calls for.
    PayloadParseFailure,
}

/// What is answered to the provider.
#[derive(Debug, Clone, PartialEq, Eq)]
pub enum Reply {
    /// The callback was not authenticated.
    Forbidden,
    /// The callback was authenticated but is malformed.
    BadRequest,
    /// The callback was taken note of.
    NoContent,
    /// The challenge, echoed as plain text.
    Challenge(String),
}

impl Reply {
    /// The HTTP status code.
    pub open spec fn code(self) -> u16 {
        match self {
            Reply::Forbidden => 403,
            Reply::BadRequest => 400,
            Reply::NoContent => 204,
            Reply::Challenge(_) => 200,
        }
    }

    /// The body: the challenge, or nothing.
    pub open spec fn text(self) -> Seq<char> {
        match self {
            Reply::Challenge(challenge) => challenge@,
            _ => Seq::empty(),
        }
    }

    pub fn status(&self) -> (code: u16)
        ensures
            code == self.code(),
    {
        match self {
            Reply::Forbidden => 403,
            Reply::BadRequest => 400,
            Reply::NoContent => 204,
            Reply::Challenge(_) => 200,
        }
    }

    pub fn body(&self) -> (text: String)
        ensures
            text@ == self.text(),
    {
        match self {
            Reply::Challenge(challenge) => challenge.clone(),
            _ => String::new(),
        }
    }

    /// The content type: plain text for a challenge, none for an empty body.
    pub fn content_type(&self) -> (kind: Option<&'static str>)
        ensures
            self is Challenge ==> (kind matches Some(k) && k@ == "text/plain"@),
            !(self is Challenge) ==> kind is None,
    {
        match self {
            Reply::Challenge(_) => Some("text/plain"),
            _ => None,
        }
    }
}

/// What the caller is to do next.
#[derive(Debug, Clone, PartialEq, Eq)]
pub enum Step {
    /// Answer the provider; the callback is handled.
    Done(Reply),
    /// Decode the body as a challenge and hand it to `on_challenge`.
    DecodeChallenge,
    /// Decode the body as a redemption and hand it to `on_notification`.
    DecodeNotification,
    /// Decode the body as a revocation and hand it to `on_revocation`.
    DecodeRevocation,
    /// Load the message bank and hand it to `on_components`.
    LoadComponents,
    /// Post the message in chat and hand the outcome to `on_posted`.
    Say(String),
}

/// Handles callbacks on behalf of a caller that posts to chat.
pub struct EventHandler<T> {
    caller: T,
}

/// Whether a callback is authentic: the three headers are there and the
/// signature is the tag of id, timestamp and payload under the configured
/// secret.
pub open spec fn verified(payload: Seq<char>, headers: EventHeaders, config: AppConfig) -> Result<
    (),
    SignatureError,
> {
    if headers.message_id is None || headers.message_timestamp is None
        || headers.message_signature is None {
        Err(SignatureError::MissingHeader)
    } else {
        checked(
            headers.message_id->0@,
            headers.message_timestamp->0@,
            payload,
            headers.message_signature->0@,
            encode_utf8(config.twitch_eventsub_subscription_secret@),
        )
    }
}

/// The message type that the headers name.
pub open spec fn typed(headers: EventHeaders) -> Result<MessageType, HandlerError> {
    match headers.message_type {
        None => Err(HandlerError::UnknownMessageType),
        Some(value) => match MessageType::parse(value@) {
            None => Err(HandlerError::UnknownMessageType),
            Some(kind) => Ok(kind),
        },
    }
}

/// The first step on a callback: refused where it is not authentic, a bad
/// request where its type is unknown, else the decoding that its type
/// calls for.
pub open spec fn routed(payload: Seq<char>, headers: EventHeaders, config: AppConfig) -> Step {
    if verified(payload, headers, config) is Err {
        Step::Done(Reply::Forbidden)
    } else {
        match typed(headers) {
            Err(_) => Step::Done(Reply::BadRequest),
            Ok(MessageType::WebhookCallbackVerification) => Step::DecodeChallenge,
            Ok(MessageType::Notification) => Step::DecodeNotification,
            Ok(MessageType::Revocation) => Step::DecodeRevocation,
        }
    }
}

/// Whether a notification is the one that is acted upon: of the known
/// subscription type, decoded, and for the configured broadcaster and
/// reward.
pub open spec fn accepted(
    decoded: Option<RewardRedeemed>,
    headers: EventHeaders,
    config: AppConfig,
) -> Result<(), HandlerError> {
    if headers.subscription_type is None {
        Err(HandlerError::UnknownSubscriptionType)
    } else if SubscriptionType::parse(headers.subscription_type->0@) is None {
        Err(HandlerError::UnknownSubscriptionType)
    } else if decoded is None {
        Err(HandlerError::PayloadParseFailure)
    } else if decoded->0.event.broadcaster_user_id@ != config.broadcaster_user_id@
        || decoded->0.event.reward.id@ != config.feed_mods_rewards_id@ {
        Err(HandlerError::UnknownNotification)
    } else {
        Ok(())
    }
}

/// The line that records a revocation.
pub open spec fn revocation_line(decoded: Option<RevocationEvent>) -> Seq<char> {
    match decoded {
        Some(event) => "Subscription revoked for "@ + event.subscription.kind@
            + " with reason: "@ + event.subscription.status@,
        None => "Failed to parse payload"@,
    }
}

/// The answer to a challenge: the text echoed, or a bad request where the
/// body was no challenge.
pub open spec fn answers_challenge(decoded: Option<VerificationEvent>, step: Step) -> bool {
    match decoded {
        Some(event) => step matches Step::Done(Reply::Challenge(text)) && text@
            == event.challenge@,
        None => step == Step::Done(Reply::BadRequest),
    }
}

/// The step after a notification was decoded: on to the message bank where
/// it is accepted, a bad request where it is not.
pub open spec fn after_notification(
    decoded: Option<RewardRedeemed>,
    headers: EventHeaders,
    config: AppConfig,
) -> Step {
    if accepted(decoded, headers, config) is Ok {
        Step::LoadComponents
    } else {
        Step::Done(Reply::BadRequest)
    }
}

/// The step after a composition: its message is posted, its failure
/// acknowledged without a word.
pub open spec fn after_composition(out: Result<Seq<char>, ScenarioError>, step: Step) -> bool {
    match out {
        Ok(message) => step matches Step::Say(text) && text@ == message,
        Err(_) => step == Step::Done(Reply::NoContent),
    }
}

/// The step after the bank was loaded, or failed to load: an
/// acknowledgement without a bank, else what follows some composition from
/// the bank.
pub open spec fn after_components(loaded: Option<MessageComponents>, step: Step) -> bool {
    match loaded {
        None => step == Step::Done(Reply::NoContent),
        Some(bank) => exists|out: Result<Seq<char>, ScenarioError>| #[trigger]
            is_composed(bank, out) && after_composition(out, step),
    }
}

/// What the caller hands back after a step: the decoded body, the loaded
/// bank, or whether the message was posted. `None` stands for a body or a
/// bank that could not be read.
#[derive(Debug)]
pub enum Event {
    Challenge(Option<VerificationEvent>),
    Notification(Option<RewardRedeemed>),
    Revocation(Option<RevocationEvent>),
    Components(Option<MessageComponents>),
    Posted(bool),
}

/// The step that follows a pending step and an event. An event that does
/// not answer the pending step changes nothing.
pub open spec fn advanced(
    pending: Step,
    event: Event,
    headers: EventHeaders,
    config: AppConfig,
    next: Step,
) -> bool {
    match (pending, event) {
        (Step::DecodeChallenge, Event::Challenge(decoded)) => answers_challenge(decoded, next),
        (Step::DecodeNotification, Event::Notification(decoded)) => next == after_notification(
            decoded,
            headers,
            config,
        ),
        (Step::DecodeRevocation, Event::Revocation(_)) => next == Step::Done(Reply::NoContent),
        (Step::LoadComponents, Event::Components(loaded)) => after_components(loaded, next),
        (Step::Say(_), Event::Posted(_)) => next == Step::Done(Reply::NoContent),
        _ => next == pending,
    }
}

impl<T> EventHandler<T> {
    /// The caller that the handler was made with.
    pub closed spec fn held(self) -> T {
        self.caller
    }

    pub fn new(caller: T) -> (handler: Self)
        ensures
            handler.held() == caller,
    {
        EventHandler { caller }
    }

    /// The caller that posts to chat.
    pub fn caller(&self) -> (caller: &T)
        ensures
            *caller == self.held(),
    {
        &self.caller
    }

    /// Checks that the callback comes from the provider.
    pub fn verify(payload: &str, headers: &EventHeaders, config: &AppConfig) -> (res: Result<
        (),
        SignatureError,
    >)
        ensures
            res == verified(payload@, *headers, *config),
            headers.message_id is None || headers.message_timestamp is None
                || headers.message_signature is None ==> res == Err::<(), SignatureError>(
                SignatureError::MissingHeader,
            ),
    {
        let message_id = match &headers.message_id {
            Some(value) => value,
            None => {
                return Err(SignatureError::MissingHeader);
            },
        };
        let timestamp = match &headers.message_timestamp {
            Some(value) => value,
            None => {
                return Err(SignatureError::MissingHeader);
            },
        };
        let signature = match &headers.message_signature {
            Some(value) => value,
            None => {
                return Err(SignatureError::MissingHeader);
            },
        };
        crate::signature::verify(
            message_id.as_str(),
            timestamp.as_str(),
            payload,
            signature.as_str(),
            config.twitch_eventsub_subscription_secret.as_str().as_bytes(),
        )
    }

    /// Reads the message type from the headers.
    pub fn message_type(headers: &EventHeaders) -> (res: Result<MessageType, HandlerError>)
        ensures
            res == typed(*headers),
    {
        match &headers.message_type {
            None => Err(HandlerError::UnknownMessageType),
            Some(value) => match MessageType::from_str(value.as_str()) {
                None => Err(HandlerError::UnknownMessageType),
                Some(kind) => Ok(kind),
            },
        }
    }

    /// Takes a callback in: verifies it before anything else, then reads
    /// its type.
    pub fn handle(request: &str, headers: &EventHeaders, config: &AppConfig) -> (step: Step)
        ensures
            step == routed(request@, *headers, *config),
            verified(request@, *headers, *config) is Err ==> (step matches Step::Done(reply)
                && reply.code() == 403 && reply.text().len() == 0),
    {
        match Self::verify(request, headers, config) {
            Ok(_) => {},
            Err(_) => {
                return Step::Done(Reply::Forbidden);
            },
        }
        match Self::message_type(headers) {
            Err(_) => Step::Done(Reply::BadRequest),
            Ok(MessageType::WebhookCallbackVerification) => Step::DecodeChallenge,
            Ok(MessageType::Notification) => Step::DecodeNotification,
            Ok(MessageType::Revocation) => Step::DecodeRevocation,
        }
    }

    /// The text to echo for a challenge.
    pub fn handle_challenge(decoded: &Option<VerificationEvent>) -> (res: Result<
        String,
        HandlerError,
    >)
        ensures
            decoded matches Some(event) ==> (res matches Ok(text) && text@ == event.challenge@),
            decoded is None ==> (res matches Err(e) && e == HandlerError::PayloadParseFailure),
    {
        match decoded {
            Some(event) => Ok(event.challenge().to_owned()),
            None => Err(HandlerError::PayloadParseFailure),
        }
    }

    /// Answers a challenge: the text echoed, or a bad request where the
    /// body was no challenge.
    pub fn on_challenge(decoded: &Option<VerificationEvent>) -> (step: Step)
        ensures
            answers_challenge(*decoded, step),
    {
        match Self::handle_challenge(decoded) {
            Ok(text) => Step::Done(Reply::Challenge(text)),
            Err(_) => Step::Done(Reply::BadRequest),
        }
    }

    /// The line that records a revocation, for the caller to log.
    pub fn handle_revocation(decoded: &Option<RevocationEvent>) -> (line: String)
        ensures
            line@ == revocation_line(*decoded),
    {
        match decoded {
            Some(event) => {
                let mut line = "Subscription revoked for ".to_owned();
                line.append(event.subscription_type());
                line.append(" with reason: ");
                line.append(event.subscription_status());
                line
            },
            None => "Failed to parse payload".to_owned(),
        }
    }

    /// Acknowledges a revocation, whatever its payload.
    pub fn on_revocation(decoded: &Option<RevocationEvent>) -> (step: Step)
        ensures
            step == Step::Done(Reply::NoContent),
    {
        Step::Done(Reply::NoContent)
    }

    /// Checks that a notification is the one that is acted upon.
    pub fn handle_notification(
        decoded: &Option<RewardRedeemed>,
        headers: &EventHeaders,
        config: &AppConfig,
    ) -> (res: Result<(), HandlerError>)
        ensures
            res == accepted(*decoded, *headers, *config),
    {
        match &headers.subscription_type {
            None => {
                return Err(HandlerError::UnknownSubscriptionType);
            },
            Some(value) => {
                if SubscriptionType::from_str(value.as_str()).is_none() {
                    return Err(HandlerError::UnknownSubscriptionType);
                }
            },
        }
        let event = match decoded {
            Some(event) => event,
            None => {
                return Err(HandlerError::PayloadParseFailure);
            },
        };
        if !same_text(event.broadcaster_user_id(), config.broadcaster_user_id.as_str())
            || !same_text(event.reward_id(), config.feed_mods_rewards_id.as_str()) {
            return Err(HandlerError::UnknownNotification);
        }
        Ok(())
    }

    /// Goes on with an accepted notification to the message bank; any other
    /// is a bad request.
    pub fn on_notification(
        decoded: &Option<RewardRedeemed>,
        headers: &EventHeaders,
        config: &AppConfig,
    ) -> (step: Step)
        ensures
            step == after_notification(*decoded, *headers, *config),
    {
        match Self::handle_notification(decoded, headers, config) {
            Ok(_) => Step::LoadComponents,
            Err(_) => Step::Done(Reply::BadRequest),
        }
    }

    /// The step that follows a composition: the message is posted; a
    /// failure is not shown to the provider.
    pub fn after_composing(composed: Result<String, ScenarioError>) -> (step: Step)
        ensures
            after_composition(outcome(composed), step),
            composed matches Ok(message) ==> step == Step::Say(message),
    {
        match composed {
            Ok(message) => Step::Say(message),
            Err(_) => Step::Done(Reply::NoContent),
        }
    }

    /// Composes the message once the bank is loaded. Where the bank could
    /// not be loaded, or no message can be composed from it, the
    /// notification is acknowledged all the same.
    pub fn on_components(loaded: &Option<MessageComponents>, rng: &mut fastrand::Rng) -> (step: Step)
        ensures
            after_components(*loaded, step),
            step is Say || step == Step::Done(Reply::NoContent),
    {
        match loaded {
            None => Step::Done(Reply::NoContent),
            Some(bank) => {
                let composed = Robochick::build_from_templates(bank, rng);
                let ghost out = outcome(composed);
                let step = Self::after_composing(composed);
                assert(is_composed(*bank, out) && after_composition(out, step));
                step
            },
        }
    }

    /// Acknowledges the notification once the message was posted, or
    /// posting failed.
    pub fn on_posted(posted: bool) -> (step: Step)
        ensures
            step == Step::Done(Reply::NoContent),
    {
        Step::Done(Reply::NoContent)
    }

    /// Moves on from a pending step with what the caller hands back.
    pub fn advance(
        pending: Step,
        event: &Event,
        headers: &EventHeaders,
        config: &AppConfig,
        rng: &mut fastrand::Rng,
    ) -> (next: Step)
        ensures
            advanced(pending, *event, *headers, *config, next),
    {
        match pending {
            Step::DecodeChallenge => match event {
                Event::Challenge(decoded) => Self::on_challenge(decoded),
                _ => Step::DecodeChallenge,
            },
            Step::DecodeNotification => match event {
                Event::Notification(decoded) => Self::on_notification(decoded, headers, config),
                _ => Step::DecodeNotification,
            },
            Step::DecodeRevocation => match event {
                Event::Revocation(decoded) => Self::on_revocation(decoded),
                _ => Step::DecodeRevocation,
            },
            Step::LoadComponents => match event {
                Event::Components(loaded) => Self::on_components(loaded, rng),
                _ => Step::LoadComponents,
            },
            Step::Say(message) => match event {
                Event::Posted(posted) => Self::on_posted(*posted),
                _ => Step::Say(message),
            },
            Step::Done(reply) => Step::Done(reply),
        }
    }
}

} // verus!
