//! The thread-configuration actor: receives the configuration flags the
//! devtools host applies to threads. Nothing consumes the flags yet, so a
//! configuration update is only acknowledged.

use vstd::prelude::*;

use crate::actor::{actor_msg_val, empty_reply, empty_reply_val};
use crate::error::ActorError;
use crate::json::{Json, str_eq};
use crate::stream::StreamBuf;

verus! {

/// The message types the thread-configuration actor supports.
pub open spec fn thread_configuration_handles(msg_type: Seq<char>) -> bool {
    msg_type == "updateConfiguration"@
}

/// Handles one message addressed to the thread-configuration actor.
pub fn handle_thread_configuration(name: &str, msg_type: &str, stream: &mut StreamBuf) -> (r:
    Result<(), ActorError>)
    ensures
        final(stream).id == old(stream).id,
        old(stream).out().is_prefix_of(final(stream).out()),
        r is Ok ==> crate::actor::replied_from(old(stream).out(), final(stream).out(), name@),
        thread_configuration_handles(msg_type@) ==> r is Ok && final(stream).out() == old(stream).out().push(empty_reply_val(name@)),
        !thread_configuration_handles(msg_type@) ==> r == Result::<(), ActorError>::Err(
            ActorError::UnrecognizedPacketType,
        ) && *final(stream) == *old(stream),
{
    broadcast use crate::registry::group_prefix_lemmas;

    if str_eq(msg_type, "updateConfiguration") {
        stream.write_json_packet(empty_reply(name));
        Ok(())
    } else {
        Err(ActorError::UnrecognizedPacketType)
    }
}

/// The wire form of the thread-configuration actor.
pub fn encode_thread_configuration(name: &str) -> (r: Json)
    ensures
        r@ == actor_msg_val(name@),
{
    crate::actor::actor_msg(name)
}

} // verus!
