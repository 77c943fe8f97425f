//! The message protocol between agents and the service.

pub mod auth;
pub mod codec;
pub mod handler;
pub mod messages;

pub use codec::{JsonCodec, MessagePackCodec};
pub use handler::{DefaultMessageHandler, MessageHandler};
pub use messages::{Message, MessagePayload, MessageType};
