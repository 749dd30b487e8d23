use hmac::{Hmac, Mac};
use robochick::config::AppConfig;
use robochick::handler::{EventHandler, EventHeaders};
use robochick::signature::{parse_signature, verdict, verify, SignatureError};
use robochick::types::EventsubHeader;
use sha2::Sha256;

fn test_config() -> AppConfig {
    AppConfig {
        twitch_client_id: "test_client_id".into(),
        twitch_client_secret: Some("test_client_secret".into()),
        twitch_eventsub_subscription_secret: "test_subscription_secret".into(),
        twitch_channel_id: "test_channel_id".into(),
        twitch_host: "https://id.twitch.example".into(),
        se_jwt: Some("test_jwt".into()),
        se_api_host: "https://api.streamelements.example".into(),
        feed_mods_rewards_id: "92af127c-7326-4483-a52b-b0da0be61c01".into(),
        broadcaster_user_id: "1337".into(),
        redirect_uri: "http://localhost:3000/twitch/oauth".into(),
        message_components_config_path: "resources/message_components.json".into(),
    }
}

fn generate_hmac(input: &str, secret: &str) -> String {
    let mut mac = Hmac::<Sha256>::new_from_slice(secret.as_bytes()).unwrap();
    mac.update(input.as_bytes());
    let hmac = mac.finalize();

    let encoded_hmac = hex::encode(hmac.into_bytes());
    format!("sha256={}", &encoded_hmac)
}

#[test]
fn verify_returns_true_for_valid_event() {
    let config = test_config();
    let message_id = "message-1";
    let timestamp = "2025-09-14T00:00:00.123456789";
    let payload = r#"{"message":"Hello, World!"}"#;

    let input = format!("{}{}{}", message_id, timestamp, payload);
    let signature = generate_hmac(&input, &config.twitch_eventsub_subscription_secret);

    let mut headers = EventHeaders::new();
    headers.insert(EventsubHeader::MessageId, message_id.to_string());
    headers.insert(EventsubHeader::MessageTimestamp, timestamp.to_string());
    headers.insert(EventsubHeader::MessageSignature, signature);

    let _event_handler = EventHandler::new(());

    let result = EventHandler::<()>::verify(payload, &headers, &config);

    assert!(result.is_ok());
}

#[test]
fn verify_returns_false_for_missing_header() {
    let config = test_config();
    let timestamp = "2025-09-14T00:00:00.123456789";
    let payload = r#"{"message":"Hello, World!"}"#;

    let input = format!("{}{}", timestamp, payload);
    let signature = generate_hmac(&input, &config.twitch_eventsub_subscription_secret);

    let mut headers_without_msg_id = EventHeaders::new();
    headers_without_msg_id.insert(EventsubHeader::MessageTimestamp, timestamp.to_string());
    headers_without_msg_id.insert(EventsubHeader::MessageSignature, signature);

    let result = EventHandler::<()>::verify(payload, &headers_without_msg_id, &config);

    assert!(result.is_err());
    assert_eq!(result, Err(SignatureError::MissingHeader));
}

#[test]
fn verify_returns_false_for_incorrect_signature() {
    let config = test_config();
    let message_id = "message-1";
    let timestamp = "2025-09-14T00:00:00.123456789";
    let payload = r#"{"message":"Hello, World!"}"#;

    let signature = hex::encode("random data");

    let mut headers = EventHeaders::new();
    headers.insert(EventsubHeader::MessageId, message_id.to_string());
    headers.insert(EventsubHeader::MessageTimestamp, timestamp.to_string());
    headers.insert(EventsubHeader::MessageSignature, signature);

    let result = EventHandler::<()>::verify(payload, &headers, &config);

    assert!(result.is_err());
    assert_eq!(result, Err(SignatureError::MalformedSignature));
}

#[test]
fn verify_reports_each_missing_header() {
    let config = test_config();
    let payload = "{}";
    let signature = generate_hmac("idts{}", &config.twitch_eventsub_subscription_secret);
    for missing in [
        EventsubHeader::MessageId,
        EventsubHeader::MessageTimestamp,
        EventsubHeader::MessageSignature,
    ] {
        let mut headers = EventHeaders::new();
        if missing != EventsubHeader::MessageId {
            headers.insert(EventsubHeader::MessageId, "id".to_string());
        }
        if missing != EventsubHeader::MessageTimestamp {
            headers.insert(EventsubHeader::MessageTimestamp, "ts".to_string());
        }
        if missing != EventsubHeader::MessageSignature {
            headers.insert(EventsubHeader::MessageSignature, signature.clone());
        }
        assert_eq!(
            EventHandler::<()>::verify(payload, &headers, &config),
            Err(SignatureError::MissingHeader)
        );
        assert_eq!(
            EventHandler::<()>::verify("another body", &headers, &config),
            Err(SignatureError::MissingHeader)
        );
    }
    let mut all = EventHeaders::new();
    all.insert(EventsubHeader::MessageId, "id".to_string());
    all.insert(EventsubHeader::MessageTimestamp, "ts".to_string());
    all.insert(EventsubHeader::MessageSignature, signature);
    assert_eq!(EventHandler::<()>::verify(payload, &all, &config), Ok(()));
}

#[test]
fn verify_accepts_the_published_test_vector() {
    // HMAC-SHA256 with key "Jefe" over "what do ya want for nothing?"
    let tag = "5bdcc146bf60754e6a042426089575c75a003f089d2739839dec58b964ec3843";
    let header = format!("sha256={}", tag);
    assert_eq!(verify("what do ya ", "want for ", "nothing?", &header, b"Jefe"), Ok(()));
    let upper = format!("sha256={}", tag.to_uppercase());
    assert_eq!(verify("what do ya ", "want for ", "nothing?", &upper, b"Jefe"), Ok(()));
    assert_eq!(
        verify("what do ya ", "want for ", "nothing!", &header, b"Jefe"),
        Err(SignatureError::SignatureMismatch)
    );
    assert_eq!(
        verify("what do ya ", "want for ", "nothing?", &header, b"Jeff"),
        Err(SignatureError::SignatureMismatch)
    );
}

#[test]
fn verify_accepts_its_own_signature_and_rejects_any_changed_byte() {
    let secret = "s3cr3t";
    let (id, ts, body) = ("message-9", "2025-01-01T00:00:00Z", r#"{"a":1}"#);
    let header = generate_hmac(&format!("{}{}{}", id, ts, body), secret);
    assert_eq!(verify(id, ts, body, &header, secret.as_bytes()), Ok(()));

    for i in 0..body.len() {
        let mut changed = body.as_bytes().to_vec();
        changed[i] ^= 1;
        let changed = String::from_utf8(changed).unwrap();
        assert_eq!(
            verify(id, ts, &changed, &header, secret.as_bytes()),
            Err(SignatureError::SignatureMismatch)
        );
    }
    for i in 0..ts.len() {
        let mut changed = ts.as_bytes().to_vec();
        changed[i] ^= 1;
        let changed = String::from_utf8(changed).unwrap();
        assert_eq!(
            verify(id, &changed, body, &header, secret.as_bytes()),
            Err(SignatureError::SignatureMismatch)
        );
    }
    let tag = parse_signature(&header).unwrap();
    for i in 0..tag.len() {
        let mut changed = tag.clone();
        changed[i] ^= 0x10;
        let changed = format!("sha256={}", hex::encode(changed));
        assert_eq!(
            verify(id, ts, body, &changed, secret.as_bytes()),
            Err(SignatureError::SignatureMismatch)
        );
    }
}

#[test]
fn verify_rejects_a_signature_of_another_length() {
    let secret = "s3cr3t";
    let header = generate_hmac("abc", secret);
    let shorter = &header[..header.len() - 2];
    assert_eq!(
        verify("a", "b", "c", shorter, secret.as_bytes()),
        Err(SignatureError::SignatureMismatch)
    );
    let longer = format!("{}00", header);
    assert_eq!(
        verify("a", "b", "c", &longer, secret.as_bytes()),
        Err(SignatureError::SignatureMismatch)
    );
    assert_eq!(
        verify("a", "b", "c", "sha256=", secret.as_bytes()),
        Err(SignatureError::SignatureMismatch)
    );
}

#[test]
fn verify_rejects_a_malformed_signature() {
    let secret = "s3cr3t";
    let header = generate_hmac("abc", secret);
    let bare = header.strip_prefix("sha256=").unwrap();
    assert_eq!(
        verify("a", "b", "c", bare, secret.as_bytes()),
        Err(SignatureError::MalformedSignature)
    );
    assert_eq!(
        verify("a", "b", "c", &format!("SHA256={}", bare), secret.as_bytes()),
        Err(SignatureError::MalformedSignature)
    );
    assert_eq!(
        verify("a", "b", "c", &format!("sha256={}", &bare[1..]), secret.as_bytes()),
        Err(SignatureError::MalformedSignature)
    );
    assert_eq!(
        verify("a", "b", "c", &format!("sha256=zz{}", &bare[2..]), secret.as_bytes()),
        Err(SignatureError::MalformedSignature)
    );
    assert_eq!(
        verify("a", "b", "c", "", secret.as_bytes()),
        Err(SignatureError::MalformedSignature)
    );
}

#[test]
fn verify_signs_text_beyond_ascii() {
    let secret = "clé";
    let (id, ts, body) = ("id-é", "ts", "{\"name\":\"Zoë ☃\"}");
    let header = generate_hmac(&format!("{}{}{}", id, ts, body), secret);
    assert_eq!(verify(id, ts, body, &header, secret.as_bytes()), Ok(()));
}

#[test]
fn parse_signature_decodes_hex_of_either_case() {
    assert_eq!(parse_signature("sha256=00ff10aB"), Ok(vec![0x00, 0xff, 0x10, 0xab]));
    assert_eq!(parse_signature("sha256=DEADbeef"), Ok(vec![0xde, 0xad, 0xbe, 0xef]));
    assert_eq!(parse_signature("sha256="), Ok(vec![]));
    assert_eq!(parse_signature("sha256=0"), Err(SignatureError::MalformedSignature));
    assert_eq!(parse_signature("sha256=0g"), Err(SignatureError::MalformedSignature));
    assert_eq!(parse_signature("sha256=é0"), Err(SignatureError::MalformedSignature));
    assert_eq!(parse_signature("sha25=00"), Err(SignatureError::MalformedSignature));
    assert_eq!(parse_signature("00"), Err(SignatureError::MalformedSignature));
}

#[test]
fn verdict_follows_the_comparison() {
    assert_eq!(verdict(true), Ok(()));
    assert_eq!(verdict(false), Err(SignatureError::SignatureMismatch));
}
