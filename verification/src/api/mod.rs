//! The HTTP interface: the bodies of its requests and responses.

pub mod handlers;
