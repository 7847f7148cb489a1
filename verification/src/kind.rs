//! The event kinds of the delivery protocol.

use vstd::prelude::*;

verus! {

/// A visible message in a channel's stream.
pub const KIND_STREAM_MESSAGE: u16 = 9;

/// An owner-signed workflow definition.
pub const KIND_WORKFLOW_DEF: u16 = 30620;

/// An ephemeral hint that a delivery waits for an agent.
pub const KIND_WORKFLOW_AGENT_WAKE: u16 = 24620;

} // verus!
