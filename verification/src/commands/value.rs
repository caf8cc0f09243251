//! The plain values that a transport adapter attaches to every message.

use crate::commands::extract::Tagged;
use vstd::prelude::*;

verus! {

/// The tag of the body of the message.
pub const BODY: u64 = 0;

/// The tag of the identity of the sender.
pub const SENDER: u64 = 1;

/// The tag of the arguments of the command.
pub const ARGS: u64 = 2;

/// A plain value about the message at hand.
#[derive(Debug, Clone, PartialEq, Eq)]
pub enum Value {
    /// The body of the message, as it was received.
    Body(String),
    /// The identity of the sender.
    Sender(String),
    /// The words after the command token.
    Args(Vec<String>),
}

impl Tagged for Value {
    open spec fn tag_spec(&self) -> u64 {
        match self {
            Value::Body(_) => BODY,
            Value::Sender(_) => SENDER,
            Value::Args(_) => ARGS,
        }
    }

    fn tag(&self) -> (t: u64) {
        match self {
            Value::Body(_) => BODY,
            Value::Sender(_) => SENDER,
            Value::Args(_) => ARGS,
        }
    }
}

} // verus!
