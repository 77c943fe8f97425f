//! The messages of the protocol.

use vstd::prelude::*;
use crate::hirag::models::{ContextRequest, ContextResponse};
use crate::ids::{is_random_uuid, mint_id};
use crate::metadata::{with_entry, Metadata};
use crate::time::unix_now;
use crate::vector_db::models::ContextLevel;

verus! {

/// The version of the protocol.
pub const PROTOCOL_VERSION: &'static str = "1.0.0";

/// Kind of a message.
#[derive(Debug, Clone, Copy, PartialEq, Eq, Structural)]
pub enum MessageType {
    ContextRequest,
    ContextResponse,
    ContextStore,
    Acknowledgment,
    Error,
    Heartbeat,
}

/// How a message was taken.
#[derive(Debug, Clone, Copy, PartialEq, Eq, Structural)]
pub enum AckStatus {
    Success,
    Partial,
    Failed,
}

/// State of the service as a heartbeat reports it.
#[derive(Debug, Clone, Copy, PartialEq, Eq, Structural)]
pub struct SystemStatus {
    pub healthy: bool,
    pub uptime_secs: u64,
    pub active_connections: usize,
}

/// Payload of a heartbeat.
#[derive(Debug, Clone, Copy, PartialEq, Eq, Structural)]
pub struct HeartbeatPayload {
    pub sequence: u64,
    pub status: SystemStatus,
}

/// Payload of a request to store a context.
#[derive(Debug, Clone)]
pub struct ContextStorePayload {
    pub text: String,
    pub level: ContextLevel,
    pub metadata: Metadata,
}

/// Payload of an acknowledgment.
#[derive(Debug, Clone, Copy, PartialEq, Eq, Structural)]
pub struct AckPayload {
    pub message_id: u128,
    pub status: AckStatus,
}

/// Payload of an error.
#[derive(Debug, Clone)]
pub struct ErrorPayload {
    pub code: String,
    pub message: String,
    pub details: Option<serde_json::Value>,
}

/// What a message carries.
#[derive(Debug, Clone)]
pub enum MessagePayload {
    ContextRequest(ContextRequest),
    ContextResponse(ContextResponse),
    ContextStore(ContextStorePayload),
    Acknowledgment(AckPayload),
    Error(ErrorPayload),
    Heartbeat(HeartbeatPayload),
}

/// A message with its envelope.
#[derive(Debug, Clone)]
pub struct Message {
    pub id: u128,
    pub version: String,
    pub message_type: MessageType,
    /// Seconds since the epoch at which the message was made.
    pub timestamp: i64,
    pub sender: String,
    pub recipient: Option<String>,
    pub payload: MessagePayload,
    pub metadata: Metadata,
}

impl Message {
    /// A message of the present time under a new id, to no one in
    /// particular and without metadata.
    pub fn new(message_type: MessageType, sender: String, payload: MessagePayload) -> (message: Self)
        ensures
            is_random_uuid(message.id),
            message.version@ == PROTOCOL_VERSION@,
            message.message_type == message_type,
            message.sender == sender,
            message.recipient is None,
            message.payload == payload,
            message.metadata.entries().len() == 0,
    {
        Message {
            id: mint_id(),
            version: PROTOCOL_VERSION.to_owned(),
            message_type,
            timestamp: unix_now(),
            sender,
            recipient: None,
            payload,
            metadata: Metadata::new(),
        }
    }

    pub fn with_recipient(self, recipient: String) -> (message: Self)
        ensures
            message == (Message { recipient: Some(recipient), ..self }),
    {
        let mut message = self;
        message.recipient = Some(recipient);
        message
    }

    pub fn with_metadata(self, key: String, value: serde_json::Value) -> (message: Self)
        ensures
            message.metadata.entries() == with_entry(self.metadata.entries(), key, value),
            message.id == self.id,
            message.version == self.version,
            message.message_type == self.message_type,
            message.timestamp == self.timestamp,
            message.sender == self.sender,
            message.recipient == self.recipient,
            message.payload == self.payload,
    {
        let mut message = self;
        let mut metadata = Metadata::new();
        core::mem::swap(&mut metadata, &mut message.metadata);
        metadata.insert(key, value);
        message.metadata = metadata;
        message
    }
}

} // verus!
