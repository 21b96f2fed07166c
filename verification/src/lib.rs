//! Producer-side broker adaptation layer for a distributed task queue.
//!
//! The crate models the broker-side topology (exchanges, queues, bindings)
//! and the publish path of an AMQP task producer.  Topology operations and
//! the publisher are verified against a mathematical model of the broker
//! state; the decisions they make are also available as plans of channel
//! operations, so that an unverified transport driver can replay them
//! against a live broker without holding any policy of its own.

pub mod broker;
pub mod config;
pub mod errors;
pub mod json;
pub mod message_protocol;
pub mod topology;
