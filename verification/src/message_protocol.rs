//! Value types of the task message protocol: publish properties, routing
//! headers, and the message body shell.

pub mod headers;
pub mod message_body;
pub mod properties;
