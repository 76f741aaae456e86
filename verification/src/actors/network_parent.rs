//! The watcher's network parent actor.

use vstd::prelude::*;

use crate::actor::{actor_msg_val, empty_reply, empty_reply_val};
use crate::error::ActorError;
use crate::json::{Json, str_eq};
use crate::stream::StreamBuf;

verus! {

/// The message types the network parent actor supports.
pub open spec fn network_parent_handles(msg_type: Seq<char>) -> bool {
    msg_type == "setSaveRequestAndResponseBodies"@
}

/// Handles one message addressed to the network parent actor. Saving bodies
/// is not supported yet, so the request is only acknowledged.
pub fn handle_network_parent(name: &str, msg_type: &str, stream: &mut StreamBuf) -> (r: Result<
    (),
    ActorError,
>)
    ensures
        final(stream).id == old(stream).id,
        old(stream).out().is_prefix_of(final(stream).out()),
        r is Ok ==> crate::actor::replied_from(old(stream).out(), final(stream).out(), name@),
        network_parent_handles(msg_type@) ==> r is Ok && final(stream).out() == old(stream).out().push(empty_reply_val(name@)),
        !network_parent_handles(msg_type@) ==> r == Result::<(), ActorError>::Err(
            ActorError::UnrecognizedPacketType,
        ) && *final(stream) == *old(stream),
{
    broadcast use crate::registry::group_prefix_lemmas;

    if str_eq(msg_type, "setSaveRequestAndResponseBodies") {
        stream.write_json_packet(empty_reply(name));
        Ok(())
    } else {
        Err(ActorError::UnrecognizedPacketType)
    }
}

/// The wire form of the network parent actor.
pub fn encode_network_parent(name: &str) -> (r: Json)
    ensures
        r@ == actor_msg_val(name@),
{
    crate::actor::actor_msg(name)
}

} // verus!
