//! The highlighter actor: asks the page to highlight a selected node, or to
//! clear the highlight.

use vstd::prelude::*;

use crate::actor::{ActorHandler, HandlerStep, HighlighterActor, empty_reply, empty_reply_val};
use crate::error::ActorError;
use crate::json::{Json, JVal, jobj2, mk_obj2, str_eq};
use crate::page::PageCommand;
use crate::registry::ActorRegistry;
use crate::stream::StreamBuf;

verus! {

/// The reply to `show`.
pub open spec fn show_reply_val(from: Seq<char>, value: bool) -> JVal {
    jobj2("from"@, JVal::Str(from), "value"@, JVal::Bool(value))
}

/// Whether one string starts with another.
pub open spec fn has_prefix(s: Seq<char>, prefix: Seq<char>) -> bool {
    prefix.len() <= s.len() && s.subrange(0, prefix.len() as int) == prefix
}

/// Whether an identifier is installed and holds the browsing-context
/// target.
pub open spec fn context_wired(registry: ActorRegistry, name: Seq<char>) -> bool {
    registry.actors().contains_key(name) && registry.actors()[name] is BrowsingContext
}

/// Whether a string starts with `"inspector"`.
fn starts_with_inspector(s: &str) -> (r: bool)
    ensures
        r == has_prefix(s@, "inspector"@),
{
    proof {
        reveal_strlit("inspector");
    }
    let n = s.unicode_len();
    if n < 9 {
        proof {
            assert("inspector"@.len() == 9);
        }
        return false;
    }
    let head = s.substring_char(0, 9);
    let r = str_eq(head, "inspector");
    proof {
        assert(head@ == s@.subrange(0, 9));
    }
    r
}

impl HighlighterActor {
    /// Handles one message addressed to the highlighter: `show` highlights
    /// the node named by the `node` field, `hide` clears the highlight.
    pub fn handle_message(
        &self,
        name: &str,
        registry: &mut ActorRegistry,
        msg_type: &str,
        msg: &Json,
        stream: &mut StreamBuf,
    ) -> (r: Result<HandlerStep, ActorError>)
        requires
            old(registry).wf(),
        ensures
            final(registry).wf(),
            final(stream).id == old(stream).id,
            *final(registry) == *old(registry),
            old(stream).out().is_prefix_of(final(stream).out()),
            r is Err ==> *final(stream) == *old(stream),
            !(r matches Ok(HandlerStep::Await(_))),
            r matches Ok(HandlerStep::Done(_)) ==> crate::actor::replied_from(
                old(stream).out(),
                final(stream).out(),
                name@,
            ),
            (msg_type@ != "show"@ && msg_type@ != "hide"@) ==> r == Result::<
                HandlerStep,
                ActorError,
            >::Err(ActorError::UnrecognizedPacketType),
            msg_type@ == "show"@ && crate::json::jget(msg@, "node"@) is None ==> r == Result::<
                HandlerStep,
                ActorError,
            >::Err(ActorError::MissingParameter),
            msg_type@ == "show"@ ==> (crate::json::jget(msg@, "node"@) matches Some(v) ==> (!(
            v is Str) ==> r == Result::<HandlerStep, ActorError>::Err(
                ActorError::BadParameterType,
            ))),
            msg_type@ == "show"@ ==> (crate::json::jget_str(msg@, "node"@) matches Some(t) ==> {
                &&& has_prefix(t, "inspector"@) ==> (r matches Ok(HandlerStep::Done(cmds))
                    && cmds@.len() == 0) && final(stream).out() == old(stream).out().push(
                    show_reply_val(name@, false),
                )
                &&& (!has_prefix(t, "inspector"@) && crate::actors::node::actor_bound(
                    *old(registry),
                    t,
                ) && context_wired(*old(registry), self.browsing_context@)) ==> ((
                r matches Ok(HandlerStep::Done(cmds)) && cmds@.len() == 1 && (
                cmds@[0] matches PageCommand::HighlightDomNode(p, sid_opt) && (old(
                    registry,
                ).actors()[self.browsing_context@] matches ActorHandler::BrowsingContext(ctx)
                    && p == ctx.active_pipeline_id) && (sid_opt matches Some(sid) && old(
                    registry,
                ).script_map().contains_key(sid@) && old(registry).script_map()[sid@]@ == t)))
                    && final(stream).out() == old(stream).out().push(show_reply_val(name@, true)))
                &&& (!has_prefix(t, "inspector"@) && !(crate::actors::node::actor_bound(
                    *old(registry),
                    t,
                ) && context_wired(*old(registry), self.browsing_context@))) ==> r == Result::<
                    HandlerStep,
                    ActorError,
                >::Err(ActorError::Internal)
            }),
            msg_type@ == "hide"@ ==> {
                &&& context_wired(*old(registry), self.browsing_context@) ==> ((
                r matches Ok(HandlerStep::Done(cmds)) && cmds@.len() == 1 && (
                cmds@[0] matches PageCommand::HighlightDomNode(p, sid_opt) && (old(
                    registry,
                ).actors()[self.browsing_context@] matches ActorHandler::BrowsingContext(ctx)
                    && p == ctx.active_pipeline_id) && sid_opt is None)) && final(stream).out()
                    == old(stream).out().push(crate::actor::empty_reply_val(name@)))
                &&& !context_wired(*old(registry), self.browsing_context@) ==> r == Result::<
                    HandlerStep,
                    ActorError,
                >::Err(ActorError::Internal)
            },
    {
        proof {
            reveal_strlit("show");
            reveal_strlit("hide");
            assert("show"@[0] != "hide"@[0]);
        }
        if str_eq(msg_type, "show") {
            let node_actor = match msg.get("node") {
                Some(v) => v,
                None => {
                    return Err(ActorError::MissingParameter);
                },
            };
            let node_actor_name = match node_actor {
                Json::Str(s) => s,
                _ => {
                    return Err(ActorError::BadParameterType);
                },
            };
            if starts_with_inspector(node_actor_name.as_str()) {
                let reply = mk_obj2("from", Json::of_str(name), "value", Json::Bool(false));
                stream.write_json_packet(reply);
                return Ok(HandlerStep::Done(Vec::new()));
            }
            let node_id = match registry.script_for_actor(node_actor_name.as_str()) {
                Some(s) => s,
                None => {
                    return Err(ActorError::Internal);
                },
            };
            let pipeline = match registry.get(self.browsing_context.as_str()) {
                Some(ActorHandler::BrowsingContext(ctx)) => ctx.active_pipeline_id,
                _ => {
                    return Err(ActorError::Internal);
                },
            };
            let reply = mk_obj2("from", Json::of_str(name), "value", Json::Bool(true));
            stream.write_json_packet(reply);
            Ok(
                HandlerStep::Done(
                    vec![PageCommand::HighlightDomNode(pipeline, Some(node_id))],
                ),
            )
        } else if str_eq(msg_type, "hide") {
            let pipeline = match registry.get(self.browsing_context.as_str()) {
                Some(ActorHandler::BrowsingContext(ctx)) => ctx.active_pipeline_id,
                _ => {
                    return Err(ActorError::Internal);
                },
            };
            stream.write_json_packet(empty_reply(name));
            Ok(HandlerStep::Done(vec![PageCommand::HighlightDomNode(pipeline, None)]))
        } else {
            Err(ActorError::UnrecognizedPacketType)
        }
    }
}

} // verus!
