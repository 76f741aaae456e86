//! Error replies of the wire protocol.
//!
//! Each client-triggerable failure is reported to the client as a packet
//! `{ "from": <actor>, "error": <error-kind-name> }`. The set of error-kind
//! names is fixed by the external client, which matches errors by substring
//! containment; the internal kind therefore uses the empty string as its
//! name, the only name that cannot collide with an upstream error name.

use vstd::prelude::*;

verus! {

/// A failure while handling a message addressed to an actor.
#[derive(Clone, Copy, Debug, PartialEq, Eq, Structural)]
pub enum ActorError {
    /// A field required by the requested operation is absent.
    MissingParameter,
    /// A field required by the requested operation has the wrong JSON type.
    BadParameterType,
    /// The destination actor does not support the requested operation name.
    UnrecognizedPacketType,
    /// Anything that prevented a normal reply: channel failures, send errors.
    /// Deliberately reported under the empty string so that the client's
    /// substring-based error matching can never mistake it for a protocol
    /// error name.
    Internal,
}

impl ActorError {
    /// The wire-level error-kind name of this failure.
    pub fn name(&self) -> (r: &'static str)
        ensures
            r@ == self.spec_name(),
    {
        match self {
            ActorError::MissingParameter => "missingParameter",
            ActorError::BadParameterType => "badParameterType",
            ActorError::UnrecognizedPacketType => "unrecognizedPacketType",
            ActorError::Internal => "",
        }
    }

    /// The wire-level error-kind name, as a sequence of characters.
    pub open spec fn spec_name(self) -> Seq<char> {
        match self {
            ActorError::MissingParameter => "missingParameter"@,
            ActorError::BadParameterType => "badParameterType"@,
            ActorError::UnrecognizedPacketType => "unrecognizedPacketType"@,
            ActorError::Internal => ""@,
        }
    }
}

} // verus!
