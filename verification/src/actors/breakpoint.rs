//! The breakpoint-list actor: accepts breakpoint bookkeeping messages.
//! Setting and removing breakpoints is infallible at this layer, so every
//! supported message earns the empty acknowledgement.

use vstd::prelude::*;

use crate::actor::{empty_reply, empty_reply_val};
use crate::error::ActorError;
use crate::json::str_eq;
use crate::stream::StreamBuf;

verus! {

/// The wire form of the breakpoint-list actor.
pub struct BreakpointListActorMsg {
    pub actor: String,
}

/// Builds the wire form of the breakpoint-list actor.
pub fn encode_breakpoint_list(name: &str) -> (r: BreakpointListActorMsg)
    ensures
        r.actor@ == name@,
{
    BreakpointListActorMsg { actor: name.to_owned() }
}

/// The message types the breakpoint-list actor supports.
pub open spec fn breakpoint_handles(msg_type: Seq<char>) -> bool {
    ||| msg_type == "setBreakpoint"@
    ||| msg_type == "setActiveEventBreakpoints"@
    ||| msg_type == "removeBreakpoint"@
}

/// Handles one message addressed to the breakpoint-list actor.
pub fn handle_breakpoint_list(name: &str, msg_type: &str, stream: &mut StreamBuf) -> (r: Result<
    (),
    ActorError,
>)
    ensures
        final(stream).id == old(stream).id,
        old(stream).out().is_prefix_of(final(stream).out()),
        r is Ok ==> crate::actor::replied_from(old(stream).out(), final(stream).out(), name@),
        breakpoint_handles(msg_type@) ==> r is Ok && final(stream).out() == old(stream).out().push(empty_reply_val(name@)),
        !breakpoint_handles(msg_type@) ==> r == Result::<(), ActorError>::Err(
            ActorError::UnrecognizedPacketType,
        ) && *final(stream) == *old(stream),
{
    broadcast use crate::registry::group_prefix_lemmas;

    let known = str_eq(msg_type, "setBreakpoint") || str_eq(msg_type, "setActiveEventBreakpoints")
        || str_eq(msg_type, "removeBreakpoint");
    if known {
        stream.write_json_packet(empty_reply(name));
        Ok(())
    } else {
        Err(ActorError::UnrecognizedPacketType)
    }
}

} // verus!
