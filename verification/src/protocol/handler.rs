//! The handling of protocol messages: a message is answered by what the
//! context manager makes of it.

use vstd::prelude::*;
use crate::error::ContextError;
use crate::hirag::ContextManager;
use crate::ids::mint_id;
use crate::metadata::Metadata;
use crate::protocol::messages::{
    AckPayload, AckStatus, ErrorPayload, HeartbeatPayload, Message, MessagePayload, MessageType,
    SystemStatus, PROTOCOL_VERSION,
};
use crate::time::unix_now;

verus! {

/// A handler of protocol messages.
pub trait MessageHandler {
    /// Whether the handler is in order.
    spec fn ready(&self) -> bool;

    /// Handles a message and gives the reply, if there is one.
    fn handle_message(&mut self, message: Message) -> (r: Result<Option<Message>, ContextError>)
        requires
            old(self).ready(),
        ensures
            final(self).ready(),
    ;
}

/// The kind of a reply with a given payload.
pub open spec fn reply_type(payload: MessagePayload) -> MessageType {
    match payload {
        MessagePayload::ContextResponse(_) => MessageType::ContextResponse,
        MessagePayload::Acknowledgment(_) => MessageType::Acknowledgment,
        MessagePayload::Error(_) => MessageType::Error,
        _ => MessageType::Acknowledgment,
    }
}

/// `reply` answers `received` with `payload`: it comes from the manager,
/// goes to the sender of the message, and carries the payload.
pub open spec fn answers(received: Message, payload: MessagePayload, reply: Message) -> bool {
    &&& reply.version@ == PROTOCOL_VERSION@
    &&& reply.message_type == reply_type(payload)
    &&& reply.sender@ == "hirag_manager"@
    &&& reply.recipient == Some(received.sender)
    &&& reply.payload == payload
    &&& reply.metadata.entries().len() == 0
}

/// `reply` reports a failure to the sender of `received` under `code`.
pub open spec fn reports_failure(received: Message, code: Seq<char>, failure: ContextError, reply: Message) -> bool {
    &&& reply.message_type == MessageType::Error
    &&& reply.sender@ == "hirag_manager"@
    &&& reply.recipient == Some(received.sender)
    &&& reply.payload matches MessagePayload::Error(error) && error.code@ == code && error.message@
        == failure.category_text() && error.details is None
}

/// The acknowledgment of a message.
pub open spec fn acknowledgment(received: Message) -> MessagePayload {
    MessagePayload::Acknowledgment(
        AckPayload { message_id: received.id, status: AckStatus::Success },
    )
}

/// The heartbeat that answers a heartbeat.
pub open spec fn heartbeat_reply() -> MessagePayload {
    MessagePayload::Heartbeat(
        HeartbeatPayload {
            sequence: 0,
            status: SystemStatus { healthy: true, uptime_secs: 0, active_connections: 0 },
        },
    )
}

/// `r` is what a handler that answers by a context manager makes of a
/// message. There is always a reply, from the manager to the sender of the
/// message: to a request the response of the manager, or the failure of the
/// retrieval; to a context to store an acknowledgment, or the failure of
/// the storage; to a heartbeat a heartbeat; to every other message an
/// acknowledgment.
pub open spec fn replied(message: Message, r: Result<Option<Message>, ContextError>) -> bool {
    r matches Ok(Some(reply)) && reply.recipient == Some(message.sender) && reply.sender@
        == "hirag_manager"@ && match message.payload {
        MessagePayload::ContextRequest(_) => reply.message_type == MessageType::ContextResponse || (
        reply.payload matches MessagePayload::Error(error) && error.code@ == "RETRIEVAL_FAILED"@),
        MessagePayload::ContextStore(_) => reply.payload == acknowledgment(message) || (
        reply.payload matches MessagePayload::Error(error) && error.code@ == "STORAGE_FAILED"@),
        MessagePayload::Heartbeat(_) => reply.payload == heartbeat_reply(),
        _ => reply.payload == acknowledgment(message),
    }
}

/// The reply to a message with a payload.
pub fn create_response(received: &Message, payload: MessagePayload) -> (reply: Message)
    ensures
        answers(*received, payload, reply),
{
    let message_type = match &payload {
        MessagePayload::ContextResponse(_) => MessageType::ContextResponse,
        MessagePayload::Acknowledgment(_) => MessageType::Acknowledgment,
        MessagePayload::Error(_) => MessageType::Error,
        _ => MessageType::Acknowledgment,
    };
    Message {
        id: mint_id(),
        version: PROTOCOL_VERSION.to_owned(),
        message_type,
        timestamp: unix_now(),
        sender: "hirag_manager".to_owned(),
        recipient: Some(received.sender.clone()),
        payload,
        metadata: Metadata::new(),
    }
}

/// The reply that reports a failure under a code.
pub fn create_error_response(received: &Message, code: &str, failure: &ContextError) -> (reply:
    Message)
    ensures
        reports_failure(*received, code@, *failure, reply),
{
    create_response(
        received,
        MessagePayload::Error(
            ErrorPayload {
                code: code.to_owned(),
                message: failure.category().to_owned(),
                details: None,
            },
        ),
    )
}

/// The handler that answers by a context manager.
pub struct DefaultMessageHandler<M: ContextManager> {
    context_manager: M,
}

impl<M: ContextManager> DefaultMessageHandler<M> {
    /// The manager that the handler answers by.
    pub closed spec fn manager(self) -> M {
        self.context_manager
    }

    pub fn new(context_manager: M) -> (handler: Self)
        ensures
            handler.manager() == context_manager,
    {
        DefaultMessageHandler { context_manager }
    }

    /// Handles a message: a request is answered with the response of the
    /// manager, a context to store with an acknowledgment, and a failure of
    /// the manager with an error; a heartbeat is answered with a heartbeat;
    /// every other message is acknowledged. There is always a reply.
    pub fn handle(&mut self, message: Message) -> (r: Result<Option<Message>, ContextError>)
        requires
            old(self).manager().ready(),
        ensures
            final(self).manager().ready(),
            replied(message, r),
    {
        let reply = match &message.payload {
            MessagePayload::ContextRequest(request) => {
                match self.context_manager.retrieve_context(request.clone()) {
                    Ok(response) => create_response(
                        &message,
                        MessagePayload::ContextResponse(response),
                    ),
                    Err(e) => create_error_response(&message, "RETRIEVAL_FAILED", &e),
                }
            },
            MessagePayload::ContextStore(store) => {
                match self.context_manager.store_context(
                    store.text.as_str(),
                    store.level,
                    store.metadata.clone(),
                ) {
                    Ok(_) => create_response(
                        &message,
                        MessagePayload::Acknowledgment(
                            AckPayload { message_id: message.id, status: AckStatus::Success },
                        ),
                    ),
                    Err(e) => create_error_response(&message, "STORAGE_FAILED", &e),
                }
            },
            MessagePayload::Heartbeat(_) => create_response(
                &message,
                MessagePayload::Heartbeat(
                    HeartbeatPayload {
                        sequence: 0,
                        status: SystemStatus {
                            healthy: true,
                            uptime_secs: 0,
                            active_connections: 0,
                        },
                    },
                ),
            ),
            _ => create_response(
                &message,
                MessagePayload::Acknowledgment(
                    AckPayload { message_id: message.id, status: AckStatus::Success },
                ),
            ),
        };
        Ok(Some(reply))
    }
}

impl<M: ContextManager> MessageHandler for DefaultMessageHandler<M> {
    open spec fn ready(&self) -> bool {
        self.manager().ready()
    }

    fn handle_message(&mut self, message: Message) -> (r: Result<Option<Message>, ContextError>)
        ensures
            replied(message, r),
    {
        self.handle(message)
    }
}

} // verus!
