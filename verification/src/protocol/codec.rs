//! The codecs of the protocol, as far as the core decides: no message of
//! more than `MAX_MESSAGE_SIZE` bytes is encoded or decoded.

use vstd::prelude::*;
use crate::error::{ContextError, ProtocolError};

verus! {

/// Largest message in bytes.
pub const MAX_MESSAGE_SIZE: usize = 10 * 1024 * 1024;

/// The JSON codec.
#[derive(Debug, Clone, Copy, PartialEq, Eq, Structural)]
pub struct JsonCodec;

/// The MessagePack codec.
#[derive(Debug, Clone, Copy, PartialEq, Eq, Structural)]
pub struct MessagePackCodec;

/// What is answered to a message of `size` bytes.
pub open spec fn size_verdict(size: usize) -> Result<(), ContextError> {
    if size > MAX_MESSAGE_SIZE {
        Err(
            ContextError::Protocol(
                ProtocolError::MessageTooLarge { size, max_size: MAX_MESSAGE_SIZE },
            ),
        )
    } else {
        Ok(())
    }
}

/// Checks the size of a message in bytes, encoded or to be decoded.
pub fn check_size(size: usize) -> (r: Result<(), ContextError>)
    ensures
        r == size_verdict(size),
{
    if size > MAX_MESSAGE_SIZE {
        Err(ContextError::Protocol(ProtocolError::MessageTooLarge { size, max_size: MAX_MESSAGE_SIZE }))
    } else {
        Ok(())
    }
}

impl JsonCodec {
    /// The name of the codec.
    pub fn name(&self) -> (name: &'static str)
        ensures
            name@ == "json"@,
    {
        "json"
    }

    /// The largest message in bytes.
    pub fn max_size(&self) -> (size: usize)
        ensures
            size == MAX_MESSAGE_SIZE,
    {
        MAX_MESSAGE_SIZE
    }

    /// Checks the bytes of a message before they are decoded.
    pub fn check_decode(&self, data: &[u8]) -> (r: Result<(), ContextError>)
        ensures
            r == size_verdict(data@.len() as usize),
    {
        check_size(data.len())
    }

    /// Checks the bytes of a message after it was encoded.
    pub fn check_encoded(&self, data: &[u8]) -> (r: Result<(), ContextError>)
        ensures
            r == size_verdict(data@.len() as usize),
    {
        check_size(data.len())
    }
}

impl MessagePackCodec {
    /// The name of the codec.
    pub fn name(&self) -> (name: &'static str)
        ensures
            name@ == "messagepack"@,
    {
        "messagepack"
    }

    /// The largest message in bytes.
    pub fn max_size(&self) -> (size: usize)
        ensures
            size == MAX_MESSAGE_SIZE,
    {
        MAX_MESSAGE_SIZE
    }

    /// Checks the bytes of a message before they are decoded.
    pub fn check_decode(&self, data: &[u8]) -> (r: Result<(), ContextError>)
        ensures
            r == size_verdict(data@.len() as usize),
    {
        check_size(data.len())
    }

    /// Checks the bytes of a message after it was encoded.
    pub fn check_encoded(&self, data: &[u8]) -> (r: Result<(), ContextError>)
        ensures
            r == size_verdict(data@.len() as usize),
    {
        check_size(data.len())
    }
}

} // verus!
