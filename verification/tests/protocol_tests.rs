use std::time::{SystemTime, UNIX_EPOCH};

use context_manager::error::{ContextError, ProtocolError};
use context_manager::protocol::auth::{
    authenticate_checked, authenticate_message, generate_signature, validate_timestamp,
    validate_timestamp_at, verify_signature, AuthConfig, MAX_MESSAGE_AGE,
};
use context_manager::protocol::codec::{check_size, JsonCodec, MessagePackCodec, MAX_MESSAGE_SIZE};
use context_manager::protocol::messages::{
    HeartbeatPayload, Message, MessagePayload, MessageType, SystemStatus, PROTOCOL_VERSION,
};

fn failed_with(r: &Result<(), ContextError>, message: &str) -> bool {
    matches!(r, Err(ContextError::Protocol(ProtocolError::ValidationFailed(m))) if m == message)
}

#[test]
fn test_signature_generation() {
    let secret = "test_secret";
    let message_id = "test_id";
    let timestamp = 1234567890;
    let sender = "test_sender";

    let sig1 = generate_signature(secret, message_id, timestamp, sender).unwrap();
    let sig2 = generate_signature(secret, message_id, timestamp, sender).unwrap();

    // Same inputs should produce same signature
    assert_eq!(sig1, sig2);
}

#[test]
fn test_signature_verification() {
    let secret = "test_secret";
    let message_id = "test_id";
    let timestamp = 1234567890;
    let sender = "test_sender";

    let signature = generate_signature(secret, message_id, timestamp, sender).unwrap();

    // Valid signature should verify
    assert!(verify_signature(secret, message_id, timestamp, sender, &signature).is_ok());

    // Invalid signature should fail
    assert!(verify_signature(secret, message_id, timestamp, sender, "invalid").is_err());
}

#[test]
fn test_timestamp_validation() {
    let now = SystemTime::now().duration_since(UNIX_EPOCH).unwrap().as_secs() as i64;

    // Current timestamp should be valid
    assert!(validate_timestamp(now, MAX_MESSAGE_AGE).is_ok());

    // Old timestamp should fail
    assert!(validate_timestamp(now - MAX_MESSAGE_AGE - 1, MAX_MESSAGE_AGE).is_err());

    // Future timestamp should fail
    assert!(validate_timestamp(now + 100, MAX_MESSAGE_AGE).is_err());
}

#[test]
fn test_authenticate_message() {
    let config = AuthConfig {
        secret: "test_secret".to_string(),
        validate_timestamp: false, // Disable for testing
        max_age_secs: MAX_MESSAGE_AGE,
    };

    let message_id = "test_id";
    let timestamp = 1234567890;
    let sender = "test_sender";

    let signature = generate_signature(&config.secret, message_id, timestamp, sender).unwrap();

    // Valid authentication should succeed
    assert!(authenticate_message(&config, message_id, timestamp, sender, Some(&signature)).is_ok());

    // Invalid signature should fail
    assert!(authenticate_message(&config, message_id, timestamp, sender, Some("invalid")).is_err());

    // Missing signature should fail when secret is set
    assert!(authenticate_message(&config, message_id, timestamp, sender, None).is_err());
}

#[test]
fn signature_is_the_hmac_of_id_timestamp_and_sender() {
    // HMAC-SHA-256 under "key" of "id:1:s", in lower-case hexadecimal
    assert_eq!(
        generate_signature("key", "id", 1, "s").unwrap(),
        "6e306d6c6eb8da01b6e195c5b2566d2866733e4e66f0454d72a5fd485d77d738"
    );
    assert_eq!(
        generate_signature("test_secret", "test_id", 1234567890, "test_sender").unwrap(),
        "04e268e7778e8f835602b08817295ab3021c31019b9ec5d76e6b6a04cfd3a42f"
    );
    // a negative timestamp is written with its sign
    assert_eq!(
        generate_signature("k", "m", -7, "x").unwrap(),
        "d939b737baa7923655b2fee8fd1559a8d0a4be5bb744272793ae9290bf8667ff"
    );
}

#[test]
fn signature_depends_on_every_part() {
    let signature = generate_signature("key", "id", 1, "s").unwrap();
    assert_ne!(signature, generate_signature("key2", "id", 1, "s").unwrap());
    assert_ne!(signature, generate_signature("key", "id2", 1, "s").unwrap());
    assert_ne!(signature, generate_signature("key", "id", 2, "s").unwrap());
    assert_ne!(signature, generate_signature("key", "id", 1, "s2").unwrap());
    assert!(failed_with(&verify_signature("key", "id", 1, "s", "id:1:s"), "Invalid signature"));
    assert!(verify_signature("key", "id", 1, "s", &signature).is_ok());
    assert!(failed_with(&verify_signature("key", "id", 2, "s", &signature), "Invalid signature"));
}

#[test]
fn timestamp_bounds_at_a_given_time() {
    assert!(validate_timestamp_at(1000, 300, 1000).is_ok());
    assert!(validate_timestamp_at(700, 300, 1000).is_ok());
    assert!(failed_with(&validate_timestamp_at(699, 300, 1000), "Message too old"));
    assert!(failed_with(&validate_timestamp_at(1001, 300, 1000), "Message timestamp is in the future"));
    assert!(failed_with(&validate_timestamp_at(i64::MIN, 300, i64::MAX), "Message too old"));
    assert!(failed_with(&validate_timestamp_at(i64::MAX, 300, i64::MIN), "Message timestamp is in the future"));
    assert!(validate_timestamp_at(-5, 10, 0).is_ok());
}

#[test]
fn authentication_order() {
    let config = AuthConfig { secret: "s".to_string(), validate_timestamp: true, max_age_secs: 10 };
    let signature = generate_signature("s", "id", 1, "me").unwrap();
    let too_old = validate_timestamp_at(1, 10, 100);
    // the age is looked at first
    let r = authenticate_checked(&config, "id", 1, "me", Some(&signature), too_old);
    assert!(failed_with(&r, "Message too old"));
    let r = authenticate_checked(&config, "id", 1, "me", Some(&signature), Ok(()));
    assert!(r.is_ok());
    let r = authenticate_checked(&config, "id", 1, "me", None, Ok(()));
    assert!(failed_with(&r, "Missing signature"));
    let open = AuthConfig { secret: String::new(), validate_timestamp: false, max_age_secs: 10 };
    assert!(authenticate_checked(&open, "id", 1, "me", None, validate_timestamp_at(1, 10, 100)).is_ok());
}

#[test]
fn default_auth_config() {
    let config = AuthConfig::default();
    assert!(config.secret.is_empty());
    assert!(config.validate_timestamp);
    assert_eq!(config.max_age_secs, 300);
}

#[test]
fn test_size_limit_json() {
    let codec = JsonCodec;

    // Create a message that's too large
    let large_data = vec![0u8; MAX_MESSAGE_SIZE + 1];

    let result = codec.check_decode(&large_data);
    assert!(result.is_err());
}

#[test]
fn test_size_limit_messagepack() {
    let codec = MessagePackCodec;

    // Create a message that's too large
    let large_data = vec![0u8; MAX_MESSAGE_SIZE + 1];

    let result = codec.check_decode(&large_data);
    assert!(result.is_err());
}

#[test]
fn size_limit_is_ten_mebibytes() {
    assert_eq!(MAX_MESSAGE_SIZE, 10 * 1024 * 1024);
    assert!(check_size(MAX_MESSAGE_SIZE).is_ok());
    assert!(matches!(
        check_size(MAX_MESSAGE_SIZE + 1),
        Err(ContextError::Protocol(ProtocolError::MessageTooLarge { size: 10485761, max_size: 10485760 }))
    ));
    assert_eq!(JsonCodec.name(), "json");
    assert_eq!(MessagePackCodec.name(), "messagepack");
    assert_eq!(JsonCodec.max_size(), MAX_MESSAGE_SIZE);
}

#[test]
fn new_message_has_fresh_id_and_version() {
    let payload = MessagePayload::Heartbeat(HeartbeatPayload {
        sequence: 1,
        status: SystemStatus { healthy: true, uptime_secs: 100, active_connections: 5 },
    });
    let a = Message::new(MessageType::Heartbeat, "test_sender".to_string(), payload.clone());
    let b = Message::new(MessageType::Heartbeat, "test_sender".to_string(), payload);
    assert_ne!(a.id, b.id);
    assert_eq!(a.version, PROTOCOL_VERSION);
    assert_eq!(a.sender, "test_sender");
    assert!(a.recipient.is_none());
    assert_eq!(a.metadata.len(), 0);
    // version and variant bits of a random UUID
    assert_eq!((a.id >> 76) & 0xf, 4);
    assert_eq!((a.id >> 62) & 0x3, 2);
    let c = a.with_recipient("you".to_string()).with_metadata("k".to_string(), serde_json::Value::from(1));
    assert_eq!(c.recipient.as_deref(), Some("you"));
    assert_eq!(c.metadata.get("k"), Some(&serde_json::Value::from(1)));
}
