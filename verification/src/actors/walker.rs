//! The walker actor: traverses the DOM tree on the client's behalf,
//! creating node actors as it goes. Tree questions go to the page; the
//! decisions — which node to ask about next, what to reply — stay here.

use vstd::prelude::*;

use crate::actor::{ActorHandler, HandlerStep, Mutation, WalkerActor, empty_reply,
    empty_reply_val};
use crate::error::ActorError;
use crate::json::{Json, JVal, jobj1, jobj2, mk_obj1, mk_obj2, str_eq, jval_of, jvals_of,
    lemma_jvals_of, lemma_jflds_of};
use crate::name::ActorKind;
use crate::page::{AttrModification, PageRequest, PipelineId};
use crate::registry::ActorRegistry;
use crate::stream::StreamBuf;

use super::node::{NodeActorMsg, NodeInfo, encode_node_info};

verus! {

/// The wire form of a walker: its identifier and the document's root node.
pub struct WalkerMsg {
    pub actor: String,
    pub root: Json,
}

/// The notification that new attribute mutations await collection.
pub open spec fn new_mutations_notification_val(from: Seq<char>) -> JVal {
    jobj2("from"@, JVal::Str(from), "type"@, JVal::Str("newMutations"@))
}

/// Writes the notification that new mutations await collection.
pub fn write_new_mutations_notification(walker: &str, stream: &mut StreamBuf)
    ensures
        final(stream).id == old(stream).id,
        final(stream).out() == old(stream).out().push(new_mutations_notification_val(walker@)),
{
    let packet = mk_obj2("from", Json::of_str(walker), "type", Json::of_str("newMutations"));
    stream.write_json_packet(packet);
}

/// Appends attribute mutations to the named walker's pending list; false
/// when the identifier does not hold a walker — a wiring defect.
pub fn append_mutations(
    registry: &mut ActorRegistry,
    walker: &str,
    target: &str,
    modifications: Vec<AttrModification>,
) -> (r: bool)
    requires
        old(registry).wf(),
    ensures
        final(registry).wf(),
        final(registry).old_actors == old(registry).old_actors,
        final(registry).new_actors == old(registry).new_actors,
        final(registry).script_actors == old(registry).script_actors,
        final(registry).alloc == old(registry).alloc,
        r == (old(registry).actors().contains_key(walker@) && old(registry).actors()[walker@]
            is Walker),
        !r ==> final(registry).actors() == old(registry).actors() && final(registry).store@
            =~~= old(registry).store@,
        r ==> final(registry).actors().contains_key(walker@)
            && final(registry).actors()[walker@] is Walker
            && final(registry).actors() =~~= old(registry).actors().insert(
            walker@,
            final(registry).actors()[walker@],
        ),
    {
        let ghost pre = registry.store@;
        let taken = registry.store.take(walker);
        match taken {
            Some(ActorHandler::Walker(mut w)) => {
                let mut mods = modifications;
                while mods.len() > 0
                    invariant
                        true,
                    decreases mods@.len(),
                {
                    let m = mods.remove(0);
                    w.mutations.push(
                        Mutation {
                            attribute_name: m.attribute_name,
                            new_value: m.new_value,
                            target: target.to_owned(),
                        },
                    );
                }
                let ghost gw = w;
                registry.store.insert(walker.to_owned(), ActorHandler::Walker(w));
                proof {
                    assert(registry.store@ =~~= pre.insert(
                        walker@,
                        ActorHandler::Walker(gw),
                    ));
                }
                true
            },
            Some(other) => {
                registry.store.insert(walker.to_owned(), other);
                proof {
                    assert(registry.store@ =~= pre);
                }
                false
            },
            None => false,
        }
    }

/// Whether a result pauses on the page for the children of the script
/// identity bound to `target`, on behalf of the named walker.
pub open spec fn awaits_children(
    r: Result<HandlerStep, ActorError>,
    pipeline: PipelineId,
    walker: Seq<char>,
    registry: ActorRegistry,
    target: Seq<char>,
) -> bool {
    r matches Ok(HandlerStep::Await(q)) && (q matches PageRequest::WalkerChildren {
        pipeline: p2,
        walker: w2,
        node_script_id,
    } && p2 == pipeline && w2@ == walker && registry.script_map().contains_key(node_script_id@)
        && registry.script_map()[node_script_id@]@ == target)
}

/// Whether a result pauses on the page to start a selector search at the
/// script identity bound to `target`.
pub open spec fn awaits_selector_search(
    r: Result<HandlerStep, ActorError>,
    pipeline: PipelineId,
    walker: Seq<char>,
    sel: Seq<char>,
    registry: ActorRegistry,
    target: Seq<char>,
) -> bool {
    r matches Ok(HandlerStep::Await(q)) && (q matches PageRequest::SelectorSearchStep {
        pipeline: p2,
        walker: w2,
        node_script_id,
        selector,
    } && p2 == pipeline && w2@ == walker && selector@ == sel
        && registry.script_map().contains_key(node_script_id@)
        && registry.script_map()[node_script_id@]@ == target)
}

/// One collected mutation, in its wire form.
pub open spec fn mutation_val(m: Mutation) -> JVal {
    JVal::Obj(
        seq![
            ("attributeName"@, JVal::Str(m.attribute_name@)),
            (
                "newValue"@,
                match m.new_value {
                    Some(v) => JVal::Str(v@),
                    None => JVal::Null,
                },
            ),
            ("target"@, JVal::Str(m.target@)),
            ("type"@, JVal::Str("attributes"@)),
        ],
    )
}

impl WalkerActor {
    /// Handles one message addressed to the walker.
    pub fn handle_message(
        &mut self,
        name: &str,
        registry: &mut ActorRegistry,
        msg_type: &str,
        msg: &Json,
        stream: &mut StreamBuf,
    ) -> (r: Result<HandlerStep, ActorError>)
        requires
            old(registry).wf(),
            old(registry).counter() < u64::MAX,
        ensures
            final(registry).wf(),
            final(stream).id == old(stream).id,
            final(registry).actors() == old(registry).actors(),
            final(registry).old_actors == old(registry).old_actors,
            old(registry).new_actors@.is_prefix_of(final(registry).new_actors@),
            old(stream).out().is_prefix_of(final(stream).out()),
            r is Err ==> *final(stream) == *old(stream) && *final(registry) == *old(registry)
                && *final(self) == *old(self),
            r matches Ok(HandlerStep::Done(_)) ==> crate::actor::replied_from(
                old(stream).out(),
                final(stream).out(),
                name@,
            ),
            msg_type@ == "documentElement"@ ==> (r matches Ok(HandlerStep::Await(q)) && (
            q matches PageRequest::WalkerDocumentElement { pipeline, walker } && pipeline
                == old(self).pipeline && walker@ == name@)),
            msg_type@ == "children"@ ==> {
                &&& crate::json::jget(msg@, "node"@) is None ==> r == Result::<
                    HandlerStep,
                    ActorError,
                >::Err(ActorError::MissingParameter)
                &&& crate::json::jget(msg@, "node"@) matches Some(v) ==> (!(v is Str) ==> r
                    == Result::<HandlerStep, ActorError>::Err(ActorError::BadParameterType))
                &&& crate::json::jget_str(msg@, "node"@) matches Some(t)
                    ==> (crate::actors::node::actor_bound(*old(registry), t) ==> awaits_children(
                    r,
                    old(self).pipeline,
                    name@,
                    *old(registry),
                    t,
                ))
                &&& crate::json::jget_str(msg@, "node"@) matches Some(t)
                    ==> (!crate::actors::node::actor_bound(*old(registry), t) ==> r == Result::<
                    HandlerStep,
                    ActorError,
                >::Err(ActorError::Internal))
            },
            msg_type@ == "querySelector"@ ==> {
                &&& crate::json::jget(msg@, "selector"@) is None ==> r == Result::<
                    HandlerStep,
                    ActorError,
                >::Err(ActorError::MissingParameter)
                &&& crate::json::jget(msg@, "selector"@) matches Some(v) ==> (!(v is Str) ==> r
                    == Result::<HandlerStep, ActorError>::Err(ActorError::BadParameterType))
                &&& crate::json::jget_str(msg@, "selector"@) is Some ==> (crate::json::jget(
                    msg@,
                    "node"@,
                ) is None ==> r == Result::<HandlerStep, ActorError>::Err(
                    ActorError::MissingParameter,
                ))
                &&& crate::json::jget_str(msg@, "selector"@) is Some ==> (crate::json::jget(
                    msg@,
                    "node"@,
                ) matches Some(v) ==> (!(v is Str) ==> r == Result::<HandlerStep, ActorError>::Err(
                    ActorError::BadParameterType,
                )))
                &&& crate::json::jget_str(msg@, "selector"@) matches Some(sel)
                    ==> (crate::json::jget_str(msg@, "node"@) matches Some(t) ==> {
                    &&& crate::actors::node::actor_bound(*old(registry), t)
                        ==> awaits_selector_search(
                        r,
                        old(self).pipeline,
                        name@,
                        sel,
                        *old(registry),
                        t,
                    )
                    &&& !crate::actors::node::actor_bound(*old(registry), t) ==> r == Result::<
                        HandlerStep,
                        ActorError,
                    >::Err(ActorError::Internal)
                })
            },
            msg_type@ == "getLayoutInspector"@ ==> {
                &&& r is Ok && final(stream).out() == old(stream).out().push(
                    jobj2(
                        "from"@,
                        JVal::Str(name@),
                        "actor"@,
                        JVal::Str(
                            crate::name::name_for(
                                crate::name::ActorKind::LayoutInspector,
                                old(registry).counter(),
                            ),
                        ),
                    ),
                )
                &&& final(registry).new_actors@.len() == old(registry).new_actors@.len() + 1
            },
            (msg_type@ != "children"@ && msg_type@ != "clearPseudoClassLocks"@ && msg_type@
                != "documentElement"@ && msg_type@ != "getLayoutInspector"@ && msg_type@
                != "getMutations"@ && msg_type@ != "getOffsetParent"@ && msg_type@
                != "querySelector"@ && msg_type@ != "watchRootNode"@) ==> r == Result::<
                HandlerStep,
                ActorError,
            >::Err(ActorError::UnrecognizedPacketType),
            r matches Ok(HandlerStep::Await(_)) ==> *final(stream) == *old(stream)
                && *final(registry) == *old(registry) && *final(self) == *old(self),
            msg_type@ == "clearPseudoClassLocks"@ ==> r is Ok && final(stream).out() == old(
                stream,
            ).out().push(empty_reply_val(name@)) && *final(self) == *old(self),
            msg_type@ == "getOffsetParent"@ ==> r is Ok && final(stream).out() == old(
                stream,
            ).out().push(jobj2("from"@, JVal::Str(name@), "node"@, JVal::Null)) && *final(self)
                == *old(self),
            msg_type@ == "getMutations"@ ==> r is Ok && final(stream).out() == old(
                stream,
            ).out().push(
                jobj2(
                    "from"@,
                    JVal::Str(name@),
                    "mutations"@,
                    JVal::Arr(
                        Seq::new(
                            old(self).mutations@.len(),
                            |i: int| mutation_val(old(self).mutations@[i]),
                        ),
                    ),
                ),
            ) && final(self).mutations@.len() == 0,
            msg_type@ == "watchRootNode"@ ==> r is Ok && final(stream).out() == old(
                stream,
            ).out().push(
                JVal::Obj(
                    seq![
                        ("type"@, JVal::Str("root-available"@)),
                        ("from"@, JVal::Str(name@)),
                        ("node"@, old(self).root_node@),
                    ],
                ),
            ).push(empty_reply_val(name@)) && *final(self) == *old(self),
    {
        broadcast use crate::registry::group_prefix_lemmas;

        proof {
            reveal_strlit("children");
            reveal_strlit("clearPseudoClassLocks");
            reveal_strlit("documentElement");
            reveal_strlit("getLayoutInspector");
            reveal_strlit("getMutations");
            reveal_strlit("getOffsetParent");
            reveal_strlit("querySelector");
            reveal_strlit("watchRootNode");
            assert("children"@.len() != "clearPseudoClassLocks"@.len());
            assert("children"@.len() != "documentElement"@.len());
            assert("children"@.len() != "getLayoutInspector"@.len());
            assert("children"@.len() != "getMutations"@.len());
            assert("children"@.len() != "getOffsetParent"@.len());
            assert("children"@.len() != "querySelector"@.len());
            assert("children"@.len() != "watchRootNode"@.len());
            assert("clearPseudoClassLocks"@.len() != "documentElement"@.len());
            assert("clearPseudoClassLocks"@.len() != "getLayoutInspector"@.len());
            assert("clearPseudoClassLocks"@.len() != "getMutations"@.len());
            assert("clearPseudoClassLocks"@.len() != "getOffsetParent"@.len());
            assert("clearPseudoClassLocks"@.len() != "querySelector"@.len());
            assert("clearPseudoClassLocks"@.len() != "watchRootNode"@.len());
            assert("documentElement"@.len() != "getLayoutInspector"@.len());
            assert("documentElement"@.len() != "getMutations"@.len());
            assert("documentElement"@[0] != "getOffsetParent"@[0]);
            assert("documentElement"@.len() != "querySelector"@.len());
            assert("documentElement"@.len() != "watchRootNode"@.len());
            assert("getLayoutInspector"@.len() != "getMutations"@.len());
            assert("getLayoutInspector"@.len() != "getOffsetParent"@.len());
            assert("getLayoutInspector"@.len() != "querySelector"@.len());
            assert("getLayoutInspector"@.len() != "watchRootNode"@.len());
            assert("getMutations"@.len() != "getOffsetParent"@.len());
            assert("getMutations"@.len() != "querySelector"@.len());
            assert("getMutations"@.len() != "watchRootNode"@.len());
            assert("getOffsetParent"@.len() != "querySelector"@.len());
            assert("getOffsetParent"@.len() != "watchRootNode"@.len());
            assert("querySelector"@[0] != "watchRootNode"@[0]);
        }
        if str_eq(msg_type, "children") {
            let target = match msg.get_str("node") {
                Some(t) => t.clone(),
                None => {
                    return match msg.get("node") {
                        Some(_) => Err(ActorError::BadParameterType),
                        None => Err(ActorError::MissingParameter),
                    };
                },
            };
            let node_script_id = match registry.script_for_actor(target.as_str()) {
                Some(s) => s,
                None => {
                    return Err(ActorError::Internal);
                },
            };
            Ok(
                HandlerStep::Await(
                    PageRequest::WalkerChildren {
                        pipeline: self.pipeline,
                        walker: name.to_owned(),
                        node_script_id,
                    },
                ),
            )
        } else if str_eq(msg_type, "clearPseudoClassLocks") {
            stream.write_json_packet(empty_reply(name));
            Ok(HandlerStep::Done(Vec::new()))
        } else if str_eq(msg_type, "documentElement") {
            Ok(
                HandlerStep::Await(
                    PageRequest::WalkerDocumentElement {
                        pipeline: self.pipeline,
                        walker: name.to_owned(),
                    },
                ),
            )
        } else if str_eq(msg_type, "getLayoutInspector") {
            let inspector_name = registry.reserve_name(ActorKind::LayoutInspector);
            let reply = mk_obj2(
                "from",
                Json::of_str(name),
                "actor",
                Json::Str(inspector_name.clone()),
            );
            registry.register_deferred(
                inspector_name,
                ActorHandler::Support(
                    crate::actor::SupportActor { kind: ActorKind::LayoutInspector },
                ),
            );
            stream.write_json_packet(reply);
            Ok(HandlerStep::Done(Vec::new()))
        } else if str_eq(msg_type, "getMutations") {
            let mut taken: Vec<Mutation> = Vec::new();
            core::mem::swap(&mut taken, &mut self.mutations);
            let m = taken.len();
            let mut entries: Vec<Json> = Vec::new();
            let mut i: usize = 0;
            while i < m
                invariant
                    m == taken@.len(),
                    i <= m,
                    entries@.len() == i,
                    forall|k: int| 0 <= k < i ==> jval_of(#[trigger] entries@[k]) == mutation_val(
                        taken@[k],
                    ),
                decreases m - i,
            {
                let mu = &taken[i];
                let mut fields: Vec<(String, Json)> = Vec::new();
                fields.push(("attributeName".to_owned(), Json::Str(mu.attribute_name.clone())));
                match &mu.new_value {
                    Some(v) => fields.push(("newValue".to_owned(), Json::Str(v.clone()))),
                    None => fields.push(("newValue".to_owned(), Json::Null)),
                }
                fields.push(("target".to_owned(), Json::Str(mu.target.clone())));
                fields.push(("type".to_owned(), Json::of_str("attributes")));
                let entry = Json::Obj(fields);
                proof {
                    lemma_jflds_of(fields@);
                    assert(entry@->Obj_0 =~= mutation_val(taken@[i as int])->Obj_0);
                }
                entries.push(entry);
                i = i + 1;
            }
            let ghost gentries = entries@;
            let reply = mk_obj2("from", Json::of_str(name), "mutations", Json::Arr(entries));
            proof {
                lemma_jvals_of(gentries);
                assert(jvals_of(gentries) =~= Seq::new(
                    old(self).mutations@.len(),
                    |i: int| mutation_val(old(self).mutations@[i]),
                ));
            }
            stream.write_json_packet(reply);
            Ok(HandlerStep::Done(Vec::new()))
        } else if str_eq(msg_type, "getOffsetParent") {
            let reply = mk_obj2("from", Json::of_str(name), "node", Json::Null);
            stream.write_json_packet(reply);
            Ok(HandlerStep::Done(Vec::new()))
        } else if str_eq(msg_type, "querySelector") {
            let selector = match msg.get_str("selector") {
                Some(s) => s.clone(),
                None => {
                    return match msg.get("selector") {
                        Some(_) => Err(ActorError::BadParameterType),
                        None => Err(ActorError::MissingParameter),
                    };
                },
            };
            let node = match msg.get_str("node") {
                Some(s) => s.clone(),
                None => {
                    return match msg.get("node") {
                        Some(_) => Err(ActorError::BadParameterType),
                        None => Err(ActorError::MissingParameter),
                    };
                },
            };
            let node_script_id = match registry.script_for_actor(node.as_str()) {
                Some(s) => s,
                None => {
                    return Err(ActorError::Internal);
                },
            };
            Ok(
                HandlerStep::Await(
                    PageRequest::SelectorSearchStep {
                        pipeline: self.pipeline,
                        walker: name.to_owned(),
                        node_script_id,
                        selector,
                    },
                ),
            )
        } else if str_eq(msg_type, "watchRootNode") {
            let node_copy = self.root_node.dup();
            let mut fields: Vec<(String, Json)> = Vec::new();
            fields.push(("type".to_owned(), Json::of_str("root-available")));
            fields.push(("from".to_owned(), Json::of_str(name)));
            fields.push(("node".to_owned(), node_copy));
            let notification = Json::Obj(fields);
            proof {
                lemma_jflds_of(fields@);
                assert(notification@->Obj_0 =~= seq![
                    ("type"@, JVal::Str("root-available"@)),
                    ("from"@, JVal::Str(name@)),
                    ("node"@, old(self).root_node@),
                ]);
            }
            stream.write_json_packet(notification);
            stream.write_json_packet(empty_reply(name));
            Ok(HandlerStep::Done(Vec::new()))
        } else {
            Err(ActorError::UnrecognizedPacketType)
        }
    }
}

/// The reply to a `children` message, listing the node's children.
pub open spec fn children_reply_val(from: Seq<char>, nodes: Seq<JVal>) -> JVal {
    JVal::Obj(
        seq![
            ("hasFirst"@, JVal::Bool(true)),
            ("hasLast"@, JVal::Bool(true)),
            ("nodes"@, JVal::Arr(nodes)),
            ("from"@, JVal::Str(from)),
        ],
    )
}

/// Completes a `children` message once the page has listed the children:
/// each child is encoded (gaining a wrapper actor if it lacked one) and the
/// reply carries them in order.
#[verifier::loop_isolation(false)]
pub fn complete_children(
    registry: &mut ActorRegistry,
    walker: &str,
    children: Vec<(NodeInfo, Option<NodeInfo>)>,
    stream: &mut StreamBuf,
) -> (r: Result<(), ActorError>)
    requires
        old(registry).wf(),
        old(registry).counter() + 8 * (children@.len() + 1) <= u64::MAX,
    ensures
        final(registry).wf(),
        final(stream).id == old(stream).id,
        final(registry).actors() == old(registry).actors(),
        final(registry).old_actors == old(registry).old_actors,
        r is Err <==> exists|i: int|
            0 <= i < children@.len() && crate::actors::node::encode_fails(
                (#[trigger] children@[i]).0,
                children@[i].1,
            ),
        r is Err ==> *final(stream) == *old(stream),
        r is Ok ==> exists|nodes: Seq<JVal>|
            #![trigger children_reply_val(walker@, nodes)]
            {
                &&& final(stream).out() == old(stream).out().push(
                    children_reply_val(walker@, nodes),
                )
                &&& nodes.len() == children@.len()
                &&& forall|i: int|
                    0 <= i < nodes.len() ==> crate::json::jget_str(
                        #[trigger] nodes[i],
                        "displayName"@,
                    ) == Some(crate::actors::node::lower_of(children@[i].0.node_name@))
            },
{
    let ghost orig = children@;
    let mut rest = children;
    let mut nodes: Vec<Json> = Vec::new();
    let ghost mut consumed: int = 0;
    while rest.len() > 0
        invariant
            registry.wf(),
            registry.counter() + 8 * (rest@.len() + 1) <= u64::MAX,
            registry.actors() == old(registry).actors(),
            registry.old_actors == old(registry).old_actors,
            0 <= consumed <= orig.len(),
            rest@ =~= orig.subrange(consumed, orig.len() as int),
            nodes@.len() == consumed,
            *stream == *old(stream),
            forall|i: int|
                0 <= i < consumed ==> !crate::actors::node::encode_fails(
                    (#[trigger] orig[i]).0,
                    orig[i].1,
                ),
            forall|i: int|
                0 <= i < consumed ==> crate::json::jget_str(
                    crate::json::jval_of(#[trigger] nodes@[i]),
                    "displayName"@,
                ) == Some(crate::actors::node::lower_of(orig[i].0.node_name@)),
        decreases rest@.len(),
    {
        let ghost pre_rest = rest@;
        let (child, inline) = rest.remove(0);
        proof {
            assert(rest@ =~= pre_rest.drop_first());
            assert(rest@ =~= orig.subrange(consumed + 1, orig.len() as int));
        }
        let msg = match encode_node_info(registry, child, walker, inline) {
            Ok(m) => m,
            Err(e) => {
                proof {
                    assert(orig[consumed].0 == child && orig[consumed].1 == inline);
                }
                return Err(e);
            },
        };
        nodes.push(msg.body);
        proof {
            consumed = consumed + 1;
        }
    }
    let ghost gnodes = jvals_of(nodes@);
    proof {
        lemma_jvals_of(nodes@);
    }
    let mut fields: Vec<(String, Json)> = Vec::new();
    fields.push(("hasFirst".to_owned(), Json::Bool(true)));
    fields.push(("hasLast".to_owned(), Json::Bool(true)));
    fields.push(("nodes".to_owned(), Json::Arr(nodes)));
    fields.push(("from".to_owned(), Json::of_str(walker)));
    let ghost gfields = fields@;
    let reply = Json::Obj(fields);
    proof {
        lemma_jflds_of(gfields);
        assert(reply@->Obj_0 =~= children_reply_val(walker@, gnodes)->Obj_0);
        assert(children_reply_val(walker@, gnodes) == children_reply_val(walker@, gnodes));
    }
    stream.write_json_packet(reply);
    Ok(())
}

/// Completes a `documentElement` message once the page has handed the
/// document element over.
pub fn complete_document_element(
    registry: &mut ActorRegistry,
    walker: &str,
    doc_element: NodeInfo,
    inline_child: Option<NodeInfo>,
    stream: &mut StreamBuf,
) -> (r: Result<(), ActorError>)
    requires
        old(registry).wf(),
        old(registry).counter() + 8 <= u64::MAX,
    ensures
        final(registry).wf(),
        final(stream).id == old(stream).id,
        final(registry).actors() == old(registry).actors(),
        final(registry).old_actors == old(registry).old_actors,
        r is Err <==> crate::actors::node::encode_fails(doc_element, inline_child),
        r is Err ==> *final(stream) == *old(stream),
        r is Ok ==> exists|b: JVal|
            #![trigger crate::json::jget_str(b, "displayName"@)]
            {
                &&& final(stream).out() == old(stream).out().push(
                    jobj2("from"@, JVal::Str(walker@), "node"@, b),
                )
                &&& crate::json::jget_str(b, "displayName"@) == Some(
                    crate::actors::node::lower_of(doc_element.node_name@),
                )
                &&& crate::json::jget_str(b, "actor"@) is Some
            },
{
    let msg = encode_node_info(registry, doc_element, walker, inline_child)?;
    let ghost gbody = msg.body@;
    let reply = mk_obj2("from", Json::of_str(walker), "node", msg.body);
    stream.write_json_packet(reply);
    proof {
        assert(crate::json::jget_str(gbody, "displayName"@) == Some(
            crate::actors::node::lower_of(doc_element.node_name@),
        ));
    }
    Ok(())
}

/// How many children wait in a stack of unvisited-children lists.
pub open spec fn pending_items(ls: Seq<Vec<(NodeInfo, Option<NodeInfo>)>>) -> nat
    decreases ls.len(),
{
    if ls.len() == 0 {
        0
    } else {
        ls[0]@.len() + pending_items(ls.drop_first())
    }
}

/// Splitting the last list off a stack splits its item count.
proof fn lemma_pending_items_last(ls: Seq<Vec<(NodeInfo, Option<NodeInfo>)>>)
    requires
        ls.len() > 0,
    ensures
        pending_items(ls) == pending_items(ls.drop_last()) + ls.last()@.len(),
    decreases ls.len(),
{
    if ls.len() > 1 {
        lemma_pending_items_last(ls.drop_first());
        assert(ls.drop_first().drop_last() =~= ls.drop_last().drop_first());
        assert(ls.drop_first().last() == ls.last());
        assert(ls.drop_last()[0] == ls[0]);
        assert(ls.drop_last().len() > 0);
        assert(pending_items(ls) == ls[0]@.len() + pending_items(ls.drop_first()));
        assert(pending_items(ls.drop_last()) == ls.drop_last()[0]@.len() + pending_items(
            ls.drop_last().drop_first(),
        ));
    } else {
        assert(ls.last() == ls[0]);
        assert(pending_items(ls) == ls[0]@.len() + pending_items(ls.drop_first()));
        assert(ls.drop_first().len() == 0);
        assert(pending_items(ls.drop_first()) == 0);
        assert(ls.drop_last() =~= Seq::<Vec<(NodeInfo, Option<NodeInfo>)>>::empty());
        assert(pending_items(ls.drop_last()) == 0);
    }
}

/// What a selector search decides on one children list: the first child
/// decides — a child that cannot be encoded is a fault, a matching child is
/// found, a child with children of its own is descended into — and a child
/// that is none of these passes the decision to its next sibling.
pub enum SearchDecision {
    Found,
    Dive,
    Fault,
    Exhausted,
}

/// The decision a children list forces, for a given selector.
pub open spec fn first_action(
    children: Seq<(NodeInfo, Option<NodeInfo>)>,
    selector: Seq<char>,
) -> SearchDecision
    decreases children.len(),
{
    if children.len() == 0 {
        SearchDecision::Exhausted
    } else if crate::actors::node::encode_fails(children[0].0, children[0].1) {
        SearchDecision::Fault
    } else if crate::actors::node::lower_of(children[0].0.node_name@) == selector {
        SearchDecision::Found
    } else if children[0].0.num_children > 0 {
        SearchDecision::Dive
    } else {
        first_action(children.drop_first(), selector)
    }
}

/// The running state of a selector search: a depth-first walk of the tree,
/// one page round trip per visited node's children.
pub struct SelectorSearch {
    pub walker: String,
    pub pipeline: PipelineId,
    pub selector: String,
    /// The encoded forms of the nodes whose children lists are being
    /// walked, innermost last; on success they are the found node's
    /// ancestors.
    pub path: Vec<Json>,
    /// For each open node, the children not yet visited.
    pub pending: Vec<Vec<(NodeInfo, Option<NodeInfo>)>>,
}

/// What a selector search asks for next.
#[derive(Debug)]
pub enum SearchStep {
    /// Ask the page for the children of this script identity, then call the
    /// step function again with them.
    Descend(String),
    /// The search found a match; the reply has been written.
    Done,
    /// No node under the start matches; the search failed. The message is
    /// answered with an internal fault, as a selector miss is.
    Failed,
}

impl SelectorSearch {
    /// A search about to ask for the children of the start node.
    pub fn new(walker: String, pipeline: PipelineId, selector: String) -> (r: SelectorSearch)
        ensures
            r.walker == walker,
            r.pipeline == pipeline,
            r.selector == selector,
            r.path@.len() == 0,
            r.pending@.len() == 0,
    {
        SelectorSearch { walker, pipeline, selector, path: Vec::new(), pending: Vec::new() }
    }

    /// Advances the search with one children list from the page, walking
    /// depth first until it must ask again, finds a match, or runs out.
    /// On a match the reply carries the node and its new parents, outermost
    /// first, and is written to the stream.
    pub fn step(
        &mut self,
        registry: &mut ActorRegistry,
        children: Vec<(NodeInfo, Option<NodeInfo>)>,
        stream: &mut StreamBuf,
    ) -> (r: Result<SearchStep, ActorError>)
        requires
            old(registry).wf(),
        ensures
            final(registry).wf(),
            final(stream).id == old(stream).id,
            final(registry).actors() == old(registry).actors(),
            final(registry).old_actors == old(registry).old_actors,
            old(stream).out().is_prefix_of(final(stream).out()),
            final(self).walker == old(self).walker,
            final(self).selector == old(self).selector,
            final(self).pipeline == old(self).pipeline,
            r matches Ok(SearchStep::Descend(sid)) ==> *final(stream) == *old(stream)
                && final(registry).script_map().contains_key(sid@),
            r matches Ok(SearchStep::Failed) ==> *final(stream) == *old(stream),
            r matches Ok(SearchStep::Done) ==> {
                &&& final(stream).out().len() == old(stream).out().len() + 1
                &&& final(stream).out().drop_last() == old(stream).out()
                &&& crate::json::jget_str(final(stream).out().last(), "from"@) == Some(
                    old(self).walker@,
                )
                &&& (crate::json::jget(final(stream).out().last(), "node"@) matches Some(found)
                    && crate::json::jget_str(found, "displayName"@) == Some(old(self).selector@))
                &&& crate::json::jget(final(stream).out().last(), "newParents"@) == Some(
                    JVal::Arr(jvals_of(final(self).path@)),
                )
            },
            (old(registry).counter() + 4 * children@.len() + 8 <= u64::MAX) ==> (match
                first_action(children@, old(self).selector@) {
                SearchDecision::Found => r matches Ok(SearchStep::Done),
                SearchDecision::Dive => r matches Ok(SearchStep::Descend(_)),
                SearchDecision::Fault => r is Err,
                SearchDecision::Exhausted => old(self).pending@.len() == 0 ==> r == Result::<
                    SearchStep,
                    ActorError,
                >::Ok(SearchStep::Failed),
            }),
        {
        broadcast use crate::registry::group_prefix_lemmas;

        let mut current = children;
        loop
            invariant
                registry.wf(),
                registry.actors() == old(registry).actors(),
                registry.old_actors == old(registry).old_actors,
                stream.id == old(stream).id,
                old(stream).out().is_prefix_of(stream.out()),
                *stream == *old(stream),
                self.walker == old(self).walker,
                self.selector == old(self).selector,
                self.pipeline == old(self).pipeline,
                old(self).pending@.len() == 0 ==> self.pending@.len() == 0,
                !(first_action(children@, old(self).selector@) is Exhausted) ==> first_action(
                    current@,
                    old(self).selector@,
                ) == first_action(children@, old(self).selector@) && registry.counter() + 4
                    * current@.len() <= old(registry).counter() + 4 * children@.len(),
                old(self).pending@.len() == 0 ==> (first_action(current@, old(self).selector@)
                    == first_action(children@, old(self).selector@) && registry.counter() + 4
                    * current@.len() <= old(registry).counter() + 4 * children@.len()),
            decreases pending_items(self.pending@) + current@.len(), self.pending@.len(),
        {
            if current.len() == 0 {
                // This children list is exhausted: back out of the node.
                if self.path.len() == 0 || self.pending.len() == 0 {
                    return Ok(SearchStep::Failed);
                }
                let _ = self.path.pop();
                proof {
                    lemma_pending_items_last(self.pending@);
                }
                match self.pending.pop() {
                    Some(resumed) => {
                        current = resumed;
                    },
                    None => {
                        return Ok(SearchStep::Failed);
                    },
                }
            } else {
                let (child, inline) = current.remove(0);
                if registry.alloc.next > u64::MAX - 8 {
                    return Err(ActorError::Internal);
                }
                let msg = encode_node_info(registry, child, self.walker.as_str(), inline)?;
                if str_eq(msg.display_name.as_str(), self.selector.as_str()) {
                    // Found: the reply lists the ancestors outermost first.
                    let mut new_parents: Vec<Json> = Vec::new();
                    let path_len = self.path.len();
                    let mut i: usize = 0;
                    while i < path_len
                        invariant
                            path_len == self.path@.len(),
                            i <= path_len,
                            new_parents@.len() == i,
                            forall|k: int|
                                0 <= k < i ==> jval_of(#[trigger] new_parents@[k]) == jval_of(
                                    self.path@[k],
                                ),
                        decreases path_len - i,
                    {
                        new_parents.push(self.path[i].dup());
                        i = i + 1;
                    }
                    let ghost gparents = new_parents@;
                    let ghost gbody = msg.body@;
                    let mut fields: Vec<(String, Json)> = Vec::new();
                    fields.push(("from".to_owned(), Json::Str(self.walker.clone())));
                    fields.push(("node".to_owned(), msg.body));
                    fields.push(("newParents".to_owned(), Json::Arr(new_parents)));
                    let ghost gfields = fields@;
                    let reply = Json::Obj(fields);
                    proof {
                        lemma_jflds_of(gfields);
                        crate::json::lemma_jfield_first(gfields, "from"@);
                        assert(crate::json::jfield(crate::json::jflds_of(gfields), "node"@)
                            == Some(gbody)) by {
                            lemma_jflds_of(gfields);
                            reveal_strlit("from");
                            reveal_strlit("node");
                            assert("from"@[0] != "node"@[0]);
                            crate::json::lemma_jfield_at(
                                crate::json::jflds_of(gfields),
                                "node"@,
                                1,
                            );
                        }
                        lemma_jvals_of(gparents);
                        lemma_jvals_of(self.path@);
                        assert(jvals_of(gparents) =~= jvals_of(self.path@));
                        assert(crate::json::jfield(
                            crate::json::jflds_of(gfields),
                            "newParents"@,
                        ) == Some(JVal::Arr(jvals_of(self.path@)))) by {
                            lemma_jflds_of(gfields);
                            lemma_jvals_of(gparents);
                            lemma_jvals_of(self.path@);
                            assert(jvals_of(gparents) =~= jvals_of(self.path@));
                            reveal_strlit("from");
                            reveal_strlit("node");
                            reveal_strlit("newParents");
                            assert("from"@.len() != "newParents"@.len());
                            assert("node"@.len() != "newParents"@.len());
                            crate::json::lemma_jfield_at(
                                crate::json::jflds_of(gfields),
                                "newParents"@,
                                2,
                            );
                        }
                    }
                    stream.write_json_packet(reply);
                    return Ok(SearchStep::Done);
                }
                if msg.num_children > 0 {
                    // Descend into this child; keep the rest for later.
                    let script_id = match registry.script_for_actor(msg.actor.as_str()) {
                        Some(s) => s,
                        None => {
                            return Err(ActorError::Internal);
                        },
                    };
                    self.path.push(msg.body);
                    self.pending.push(current);
                    return Ok(SearchStep::Descend(script_id));
                }
            }
        }
    }
}

} // verus!
