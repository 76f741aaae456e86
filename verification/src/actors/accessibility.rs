//! The accessibility actor: the entry point of the accessibility tab. Its
//! simulator and walker are placeholders, created so their identifiers can
//! be handed to the client.

use vstd::prelude::*;

use crate::actor::{AccessibilityActor, ActorHandler, SupportActor, empty_reply_val};
use crate::error::ActorError;
use crate::json::{Json, JVal, jobj1, jobj2, mk_obj1, mk_obj2, str_eq};
use crate::name::{ActorKind, name_for};
use crate::registry::ActorRegistry;
use crate::stream::StreamBuf;

verus! {

/// The reply to `bootstrap`: the accessibility service stays disabled.
pub open spec fn bootstrap_reply_val(from: Seq<char>) -> JVal {
    jobj2("from"@, JVal::Str(from), "state"@, jobj1("enabled"@, JVal::Bool(false)))
}

/// The reply to `getTraits`.
pub open spec fn traits_reply_val(from: Seq<char>) -> JVal {
    jobj2("from"@, JVal::Str(from), "traits"@, jobj1("tabbingOrder"@, JVal::Bool(true)))
}

/// The reply handing a freshly created supporting actor to the client.
pub open spec fn support_reply_val(from: Seq<char>, field: Seq<char>, actor: Seq<char>) -> JVal {
    jobj2("from"@, JVal::Str(from), field, jobj1("actor"@, JVal::Str(actor)))
}

impl AccessibilityActor {
    /// A fresh accessibility actor under the given identifier.
    pub fn new(name: String) -> (r: Self)
        ensures
            r.name == name,
    {
        AccessibilityActor { name }
    }

    /// Handles one message addressed to the accessibility actor.
    pub fn handle_message(
        &self,
        name: &str,
        registry: &mut ActorRegistry,
        msg_type: &str,
        stream: &mut StreamBuf,
    ) -> (r: Result<(), ActorError>)
        requires
            old(registry).wf(),
            old(registry).counter() < u64::MAX,
        ensures
            final(registry).wf(),
            final(stream).id == old(stream).id,
            final(registry).actors() == old(registry).actors(),
            final(registry).old_actors == old(registry).old_actors,
            final(registry).script_actors == old(registry).script_actors,
            old(stream).out().is_prefix_of(final(stream).out()),
            old(registry).new_actors@.is_prefix_of(final(registry).new_actors@),
            r is Err ==> *final(stream) == *old(stream),
            r is Ok ==> crate::actor::replied_from(old(stream).out(), final(stream).out(), name@),
            msg_type@ == "bootstrap"@ ==> r is Ok && final(stream).out() == old(
                stream,
            ).out().push(bootstrap_reply_val(name@)) && *final(registry) == *old(registry),
            msg_type@ == "getTraits"@ ==> r is Ok && final(stream).out() == old(
                stream,
            ).out().push(traits_reply_val(name@)) && *final(registry) == *old(registry),
            msg_type@ == "getSimulator"@ ==> r is Ok && final(stream).out() == old(
                stream,
            ).out().push(
                support_reply_val(
                    name@,
                    "simulator"@,
                    name_for(ActorKind::Simulator, old(registry).counter()),
                ),
            ) && final(registry).new_actors@.len() == old(registry).new_actors@.len() + 1,
            msg_type@ == "getWalker"@ ==> r is Ok && final(stream).out() == old(
                stream,
            ).out().push(
                support_reply_val(
                    name@,
                    "walker"@,
                    name_for(ActorKind::AccessibleWalker, old(registry).counter()),
                ),
            ) && final(registry).new_actors@.len() == old(registry).new_actors@.len() + 1,
            (msg_type@ != "bootstrap"@ && msg_type@ != "getTraits"@ && msg_type@ != "getSimulator"@
                && msg_type@ != "getWalker"@) ==> r == Result::<(), ActorError>::Err(
                ActorError::UnrecognizedPacketType,
            ) && *final(stream) == *old(stream) && *final(registry) == *old(registry),
    {
        broadcast use crate::registry::group_prefix_lemmas;

        proof {
            reveal_strlit("bootstrap");
            reveal_strlit("getTraits");
            reveal_strlit("getSimulator");
            reveal_strlit("getWalker");
            assert("bootstrap"@[0] != "getTraits"@[0]);
            assert("bootstrap"@.len() != "getSimulator"@.len());
            assert("bootstrap"@[0] != "getWalker"@[0]);
            assert("getTraits"@.len() != "getSimulator"@.len());
            assert("getTraits"@[3] != "getWalker"@[3]);
            assert("getSimulator"@.len() != "getWalker"@.len());
        }
        if str_eq(msg_type, "bootstrap") {
            let reply = mk_obj2(
                "from",
                Json::of_str(name),
                "state",
                mk_obj1("enabled", Json::Bool(false)),
            );
            stream.write_json_packet(reply);
            Ok(())
        } else if str_eq(msg_type, "getTraits") {
            let reply = mk_obj2(
                "from",
                Json::of_str(name),
                "traits",
                mk_obj1("tabbingOrder", Json::Bool(true)),
            );
            stream.write_json_packet(reply);
            Ok(())
        } else if str_eq(msg_type, "getSimulator") {
            let simulator_name = registry.reserve_name(ActorKind::Simulator);
            let reply = mk_obj2(
                "from",
                Json::of_str(name),
                "simulator",
                mk_obj1("actor", Json::Str(simulator_name.clone())),
            );
            registry.register_deferred(
                simulator_name,
                ActorHandler::Support(SupportActor { kind: ActorKind::Simulator }),
            );
            stream.write_json_packet(reply);
            Ok(())
        } else if str_eq(msg_type, "getWalker") {
            let walker_name = registry.reserve_name(ActorKind::AccessibleWalker);
            let reply = mk_obj2(
                "from",
                Json::of_str(name),
                "walker",
                mk_obj1("actor", Json::Str(walker_name.clone())),
            );
            registry.register_deferred(
                walker_name,
                ActorHandler::Support(SupportActor { kind: ActorKind::AccessibleWalker }),
            );
            stream.write_json_packet(reply);
            Ok(())
        } else {
            Err(ActorError::UnrecognizedPacketType)
        }
    }
}

} // verus!
