//! The thread actor: answers the client's thread-lifecycle messages and
//! lists the thread's script sources.

use vstd::prelude::*;

use crate::actor::{ActorHandler, SupportActor, ThreadActor, empty_reply_val, empty_reply};
use crate::error::ActorError;
use crate::json::{Json, JVal, jobj1, jobj2, jobj3, mk_obj1, mk_obj2, str_eq, jvals_of,
    lemma_jvals_of};
use crate::name::{ActorKind, name_for};
use crate::registry::ActorRegistry;
use crate::stream::StreamBuf;

verus! {

/// The notification that the thread attached and paused.
pub open spec fn thread_attached_val(from: Seq<char>, pause_actor: Seq<char>) -> JVal {
    JVal::Obj(
        seq![
            ("from"@, JVal::Str(from)),
            ("type"@, JVal::Str("paused"@)),
            ("actor"@, JVal::Str(pause_actor)),
            ("frame"@, JVal::Uint(0)),
            ("error"@, JVal::Uint(0)),
            ("recordingEndpoint"@, JVal::Uint(0)),
            ("executionPoint"@, JVal::Uint(0)),
            ("poppedFrames"@, JVal::Arr(Seq::empty())),
            ("why"@, jobj1("type"@, JVal::Str("attached"@))),
        ],
    )
}

/// The notification that the thread resumed or was interrupted.
pub open spec fn thread_state_val(from: Seq<char>, state: Seq<char>) -> JVal {
    jobj2("from"@, JVal::Str(from), "type"@, JVal::Str(state))
}

/// The reply listing the thread's sources, one entry per source actor.
pub open spec fn sources_reply_val(from: Seq<char>, sources: Seq<Seq<char>>) -> JVal {
    jobj2(
        "from"@,
        JVal::Str(from),
        "sources"@,
        JVal::Arr(Seq::new(sources.len(), |i: int| jobj1("actor"@, JVal::Str(sources[i])))),
    )
}

impl ThreadActor {
    /// Handles one message addressed to the thread actor.
    pub fn handle_message(
        &self,
        name: &str,
        registry: &mut ActorRegistry,
        msg_type: &str,
        stream: &mut StreamBuf,
    ) -> (r: Result<(), ActorError>)
        requires
            old(registry).wf(),
            old(registry).counter() < u64::MAX,
        ensures
            final(registry).wf(),
            final(stream).id == old(stream).id,
            final(registry).actors() == old(registry).actors(),
            final(registry).old_actors == old(registry).old_actors,
            final(registry).script_actors == old(registry).script_actors,
            old(stream).out().is_prefix_of(final(stream).out()),
            old(registry).new_actors@.is_prefix_of(final(registry).new_actors@),
            r is Err ==> *final(stream) == *old(stream),
            r is Ok ==> crate::actor::replied_from(old(stream).out(), final(stream).out(), name@),
            msg_type@ == "attach"@ ==> r is Ok && final(stream).out() == old(stream).out().push(
                thread_attached_val(name@, name_for(ActorKind::Pause, old(registry).counter())),
            ).push(empty_reply_val(name@)) && final(registry).new_actors@.len()
                == old(registry).new_actors@.len() + 1,
            msg_type@ == "resume"@ ==> r is Ok && final(stream).out() == old(stream).out().push(
                thread_state_val(name@, "resumed"@),
            ).push(empty_reply_val(name@)) && *final(registry) == *old(registry),
            msg_type@ == "interrupt"@ ==> r is Ok && final(stream).out() == old(stream).out().push(
                thread_state_val(name@, "interrupted"@),
            ).push(empty_reply_val(name@)) && *final(registry) == *old(registry),
            msg_type@ == "reconfigure"@ ==> r is Ok && final(stream).out() == old(
                stream,
            ).out().push(empty_reply_val(name@)) && *final(registry) == *old(registry),
            msg_type@ == "sources"@ ==> r is Ok && final(stream).out() == old(stream).out().push(
                sources_reply_val(name@, self.source_actor_names.deep_view()),
            ) && *final(registry) == *old(registry),
            (msg_type@ != "attach"@ && msg_type@ != "resume"@ && msg_type@ != "interrupt"@
                && msg_type@ != "reconfigure"@ && msg_type@ != "sources"@) ==> r == Result::<
                (),
                ActorError,
            >::Err(ActorError::UnrecognizedPacketType) && *final(stream) == *old(stream)
                && *final(registry) == *old(registry),
    {
        broadcast use crate::registry::group_prefix_lemmas;

        proof {
            reveal_strlit("attach");
            reveal_strlit("resume");
            reveal_strlit("interrupt");
            reveal_strlit("reconfigure");
            reveal_strlit("sources");
            assert("attach"@[0] != "resume"@[0]);
            assert("attach"@.len() != "interrupt"@.len());
            assert("attach"@.len() != "reconfigure"@.len());
            assert("attach"@.len() != "sources"@.len());
            assert("resume"@.len() != "interrupt"@.len());
            assert("resume"@.len() != "reconfigure"@.len());
            assert("resume"@.len() != "sources"@.len());
            assert("interrupt"@.len() != "reconfigure"@.len());
            assert("interrupt"@.len() != "sources"@.len());
            assert("reconfigure"@.len() != "sources"@.len());
        }
        if str_eq(msg_type, "attach") {
            let pause_name = registry.reserve_name(ActorKind::Pause);
            let mut fields: Vec<(String, Json)> = Vec::new();
            fields.push(("from".to_owned(), Json::of_str(name)));
            fields.push(("type".to_owned(), Json::of_str("paused")));
            fields.push(("actor".to_owned(), Json::Str(pause_name.clone())));
            fields.push(("frame".to_owned(), Json::Uint(0)));
            fields.push(("error".to_owned(), Json::Uint(0)));
            fields.push(("recordingEndpoint".to_owned(), Json::Uint(0)));
            fields.push(("executionPoint".to_owned(), Json::Uint(0)));
            fields.push(("poppedFrames".to_owned(), Json::Arr(Vec::new())));
            fields.push(("why".to_owned(), mk_obj1("type", Json::of_str("attached"))));
            let attached = Json::Obj(fields);
            proof {
                crate::json::lemma_jflds_of(fields@);
                lemma_jvals_of(Seq::<Json>::empty());
                assert(jvals_of(Seq::<Json>::empty()) =~= Seq::<JVal>::empty());
                assert(attached@->Obj_0 =~= thread_attached_val(
                    name@,
                    name_for(ActorKind::Pause, old(registry).counter()),
                )->Obj_0);
            }
            registry.register_deferred(
                pause_name,
                ActorHandler::Support(SupportActor { kind: ActorKind::Pause }),
            );
            stream.write_json_packet(attached);
            stream.write_json_packet(empty_reply(name));
            Ok(())
        } else if str_eq(msg_type, "resume") {
            let reply = mk_obj2("from", Json::of_str(name), "type", Json::of_str("resumed"));
            stream.write_json_packet(reply);
            stream.write_json_packet(empty_reply(name));
            Ok(())
        } else if str_eq(msg_type, "interrupt") {
            let reply = mk_obj2("from", Json::of_str(name), "type", Json::of_str("interrupted"));
            stream.write_json_packet(reply);
            stream.write_json_packet(empty_reply(name));
            Ok(())
        } else if str_eq(msg_type, "reconfigure") {
            stream.write_json_packet(empty_reply(name));
            Ok(())
        } else if str_eq(msg_type, "sources") {
            let n = self.source_actor_names.len();
            let mut entries: Vec<Json> = Vec::new();
            let mut i: usize = 0;
            while i < n
                invariant
                    n == self.source_actor_names@.len(),
                    i <= n,
                    entries@.len() == i,
                    forall|k: int| 0 <= k < i ==> crate::json::jval_of(#[trigger] entries@[k])
                        == jobj1("actor"@, JVal::Str(self.source_actor_names@[k]@)),
                decreases n - i,
            {
                entries.push(mk_obj1("actor", Json::Str(self.source_actor_names[i].clone())));
                i = i + 1;
            }
            let ghost gentries = entries@;
            let reply = mk_obj2("from", Json::of_str(name), "sources", Json::Arr(entries));
            proof {
                lemma_jvals_of(gentries);
                assert(jvals_of(gentries) =~= Seq::new(
                    self.source_actor_names.deep_view().len(),
                    |i: int| jobj1("actor"@, JVal::Str(self.source_actor_names.deep_view()[i])),
                ));
            }
            stream.write_json_packet(reply);
            Ok(())
        } else {
            Err(ActorError::UnrecognizedPacketType)
        }
    }
}

} // verus!
