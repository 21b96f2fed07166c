//! Error taxonomy of the broker layer.
//!
//! Every transport failure is reported as one of these three terminal
//! signals; no retry is performed at this layer.

use vstd::prelude::*;

verus! {

/// An exchange declare or an explicit bind failed.
#[derive(Clone, Copy, PartialEq, Eq, Structural, Debug)]
pub struct ExchangeError;

/// A queue declare, or the bind associated with a queue declare, failed.
#[derive(Clone, Copy, PartialEq, Eq, Structural, Debug)]
pub struct QueueError;

/// The message body could not be rendered to its wire string.
#[derive(Clone, Copy, PartialEq, Eq, Structural, Debug)]
pub struct PublishError;

} // verus!
