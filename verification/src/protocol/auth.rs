//! Authentication of protocol messages: a signature over the id, the
//! timestamp and the sender of a message, and a limit on its age.

use vstd::prelude::*;
use crate::crypto::{hex_encode, hex_of, hmac_sha256, hmac_sha256_of};
use crate::error::{ContextError, ProtocolError};
use crate::text::{decimal, decimal_text, same_text};
use crate::time::unix_now;
use vstd::utf8::encode_utf8;

verus! {

/// Longest age of a message, in seconds, where nothing else is configured.
pub const MAX_MESSAGE_AGE: i64 = 300;

/// Configuration of message authentication.
#[derive(Clone)]
pub struct AuthConfig {
    /// The secret shared with the senders. This type has no `Debug`.
    pub secret: String,
    /// Whether the age of a message is checked.
    pub validate_timestamp: bool,
    /// Longest age of a message, in seconds.
    pub max_age_secs: i64,
}

impl Default for AuthConfig {
    fn default() -> (config: Self)
        ensures
            config.secret@.len() == 0,
            config.validate_timestamp,
            config.max_age_secs == MAX_MESSAGE_AGE,
    {
        AuthConfig { secret: String::new(), validate_timestamp: true, max_age_secs: MAX_MESSAGE_AGE }
    }
}

/// What is signed of a message: its id, its timestamp and its sender,
/// with colons between them.
pub open spec fn signed_text(message_id: Seq<char>, timestamp: i64, sender: Seq<char>) -> Seq<char> {
    message_id + ":"@ + decimal_text(timestamp) + ":"@ + sender
}

/// The signature of a message under a secret: the HMAC-SHA-256 code of
/// what is signed, in hexadecimal; `None` where the secret is refused as a
/// key.
pub open spec fn signature_of(
    secret: Seq<char>,
    message_id: Seq<char>,
    timestamp: i64,
    sender: Seq<char>,
) -> Option<Seq<char>> {
    match hmac_sha256_of(
        encode_utf8(secret),
        encode_utf8(signed_text(message_id, timestamp, sender)),
    ) {
        Some(code) => Some(hex_of(code)),
        None => None,
    }
}

/// Whether `r` is the failure of a validation with the message `message`.
pub open spec fn fails_with<T>(r: Result<T, ContextError>, message: Seq<char>) -> bool {
    r matches Err(ContextError::Protocol(ProtocolError::ValidationFailed(text))) && text@ == message
}

/// What `validate_timestamp` answers at the time `now`, in seconds since
/// the epoch: the message may not be of the future nor older than
/// `max_age_secs`.
pub open spec fn timestamp_verdict(
    timestamp: i64,
    max_age_secs: i64,
    now: i64,
    r: Result<(), ContextError>,
) -> bool {
    if now - timestamp < 0 {
        fails_with(r, "Message timestamp is in the future"@)
    } else if now - timestamp > max_age_secs {
        fails_with(r, "Message too old"@)
    } else {
        r is Ok
    }
}

/// What `verify_signature` answers.
pub open spec fn signature_verdict(
    secret: Seq<char>,
    message_id: Seq<char>,
    timestamp: i64,
    sender: Seq<char>,
    signature: Seq<char>,
    r: Result<(), ContextError>,
) -> bool {
    match signature_of(secret, message_id, timestamp, sender) {
        None => fails_with(r, "Invalid secret"@),
        Some(expected) => if signature == expected {
            r is Ok
        } else {
            fails_with(r, "Invalid signature"@)
        },
    }
}

fn failure<T>(message: &str) -> (r: Result<T, ContextError>)
    ensures
        fails_with(r, message@),
{
    Err(ContextError::Protocol(ProtocolError::ValidationFailed(message.to_owned())))
}

/// The signature of a message under a secret.
pub fn generate_signature(secret: &str, message_id: &str, timestamp: i64, sender: &str) -> (r: Result<
    String,
    ContextError,
>)
    ensures
        match signature_of(secret@, message_id@, timestamp, sender@) {
            Some(signature) => r matches Ok(text) && text@ == signature,
            None => fails_with(r, "Invalid secret"@),
        },
{
    let payload = message_id.to_owned().concat(":").concat(decimal(timestamp).as_str()).concat(
        ":",
    ).concat(sender);
    proof {
        assert(payload@ =~= signed_text(message_id@, timestamp, sender@));
    }
    match hmac_sha256(secret.as_bytes(), payload.as_str().as_bytes()) {
        Some(code) => Ok(hex_encode(code.as_slice())),
        None => failure("Invalid secret"),
    }
}

/// Checks the signature of a message against the one that the secret
/// gives.
pub fn verify_signature(
    secret: &str,
    message_id: &str,
    timestamp: i64,
    sender: &str,
    signature: &str,
) -> (r: Result<(), ContextError>)
    ensures
        signature_verdict(secret@, message_id@, timestamp, sender@, signature@, r),
{
    match generate_signature(secret, message_id, timestamp, sender) {
        Err(e) => Err(e),
        Ok(expected) => {
            if same_text(signature, expected.as_str()) {
                Ok(())
            } else {
                failure("Invalid signature")
            }
        },
    }
}

/// Checks the age of a message at the time `now`, in seconds since the
/// epoch.
pub fn validate_timestamp_at(timestamp: i64, max_age_secs: i64, now: i64) -> (r: Result<
    (),
    ContextError,
>)
    ensures
        timestamp_verdict(timestamp, max_age_secs, now, r),
{
    let age = now as i128 - timestamp as i128;
    if age < 0 {
        return failure("Message timestamp is in the future");
    }
    if age > max_age_secs as i128 {
        return failure("Message too old");
    }
    Ok(())
}

/// Checks the age of a message at the present time.
pub fn validate_timestamp(timestamp: i64, max_age_secs: i64) -> (r: Result<(), ContextError>)
    ensures
        exists|now: i64| timestamp_verdict(timestamp, max_age_secs, now, r),
{
    let now = unix_now();
    let r = validate_timestamp_at(timestamp, max_age_secs, now);
    assert(timestamp_verdict(timestamp, max_age_secs, now, r));
    r
}

/// What is made of a message once its age has been checked: a failure of
/// that check is handed on; a signature is verified; and a message without
/// signature passes only where no secret is configured.
pub open spec fn message_verdict(
    config: AuthConfig,
    message_id: Seq<char>,
    timestamp: i64,
    sender: Seq<char>,
    signature: Option<Seq<char>>,
    aged: Result<(), ContextError>,
    r: Result<(), ContextError>,
) -> bool {
    if config.validate_timestamp && aged is Err {
        r == aged
    } else {
        match signature {
            Some(given) => signature_verdict(config.secret@, message_id, timestamp, sender, given, r),
            None => if config.secret@.len() > 0 {
                fails_with(r, "Missing signature"@)
            } else {
                r is Ok
            },
        }
    }
}

/// The characters of a signature, where one is given.
pub open spec fn given_text(signature: Option<&str>) -> Option<Seq<char>> {
    match signature {
        Some(given) => Some(given@),
        None => None,
    }
}

/// Authenticates a message whose age has been checked with the result
/// `aged`.
pub fn authenticate_checked(
    config: &AuthConfig,
    message_id: &str,
    timestamp: i64,
    sender: &str,
    signature: Option<&str>,
    aged: Result<(), ContextError>,
) -> (r: Result<(), ContextError>)
    ensures
        message_verdict(
            *config,
            message_id@,
            timestamp,
            sender@,
            given_text(signature),
            aged,
            r,
        ),
{
    if config.validate_timestamp && aged.is_err() {
        return aged;
    }
    match signature {
        Some(given) => verify_signature(config.secret.as_str(), message_id, timestamp, sender, given),
        None => {
            if config.secret.as_str().unicode_len() > 0 {
                failure("Missing signature")
            } else {
                Ok(())
            }
        },
    }
}

/// Authenticates a message: its age is checked where the configuration
/// asks for it, then its signature.
pub fn authenticate_message(
    config: &AuthConfig,
    message_id: &str,
    timestamp: i64,
    sender: &str,
    signature: Option<&str>,
) -> (r: Result<(), ContextError>)
    ensures
        exists|aged: Result<(), ContextError>| #[trigger]
            message_verdict(
                *config,
                message_id@,
                timestamp,
                sender@,
                given_text(signature),
                aged,
                r,
            ),
{
    let aged = if config.validate_timestamp {
        validate_timestamp(timestamp, config.max_age_secs)
    } else {
        Ok(())
    };
    let r = authenticate_checked(config, message_id, timestamp, sender, signature, aged);
    assert(message_verdict(
        *config,
        message_id@,
        timestamp,
        sender@,
        given_text(signature),
        aged,
        r,
    ));
    r
}

} // verus!
