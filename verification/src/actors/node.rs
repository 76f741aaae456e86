//! The node actor: one DOM node, created by a walker while it traverses the
//! document tree. Encoding a node also makes sure it has a wrapper actor —
//! at most one per underlying DOM node, through the script-object bindings.

use vstd::prelude::*;

use crate::actor::{ActorHandler, NodeActor, empty_reply, empty_reply_val};
use crate::error::ActorError;
use crate::json::{Json, JVal, jget, jget_str, jobj2, mk_obj2, str_eq, jval_of, jvals_of,
    lemma_jvals_of, lemma_jflds_of};
use crate::name::{ActorKind, name_for};
use crate::page::{AttrModification, PageCommand, PageRequest, PipelineId};
use crate::registry::ActorRegistry;
use crate::stream::StreamBuf;

verus! {

/// Text node type code of the DOM.
pub const TEXT_NODE: u16 = 3;

/// The longest text child shown inline in the inspector.
pub const MAX_INLINE_LENGTH: usize = 50;

/// What the page reports about one DOM node.
#[derive(Debug)]
pub struct NodeInfo {
    /// The node's script-side identity.
    pub unique_id: String,
    /// The script identity of the shadow host, for a shadow root.
    pub host: Option<String>,
    pub base_uri: String,
    pub node_type: u16,
    pub node_name: String,
    pub node_value: Option<String>,
    pub num_children: u64,
    /// Attribute names and values.
    pub attrs: Vec<(String, String)>,
    pub is_top_level_document: bool,
    pub is_displayed: bool,
    pub is_shadow_host: bool,
    pub shadow_root_mode: Option<String>,
    pub display: Option<String>,
    /// The script identity of the parent node; empty for the root.
    pub parent: String,
    pub doctype_name: Option<String>,
    pub doctype_public_identifier: Option<String>,
    pub doctype_system_identifier: Option<String>,
}

/// The wire form of a node, as far as the walker reports it.
pub struct NodeActorMsg {
    pub actor: String,
    pub display_name: String,
    pub num_children: u64,
    pub node_type: u16,
    pub node_value: Option<String>,
    /// The full wire object.
    pub body: Json,
}

/// What str::to_lowercase maps a string to; it depends on the characters
/// alone.
pub uninterp spec fn lower_of(s: Seq<char>) -> Seq<char>;

/// Relies on str::to_lowercase: the Unicode lowercase mapping of the
/// characters; an empty string stays empty.
#[verifier::external_body]
fn unicode_lowercase(s: &str) -> (r: String)
    ensures
        r@ == lower_of(s@),
        s@.len() == 0 ==> r@.len() == 0,
{
    s.to_lowercase()
}

/// The lower-case form of an ASCII character.
pub open spec fn ascii_lower_char(c: char) -> char {
    if 'A' <= c && c <= 'Z' {
        ((c as u8) + 32) as char
    } else {
        c
    }
}

/// The ASCII lower-case form of a string.
pub open spec fn ascii_lower(s: Seq<char>) -> Seq<char> {
    Seq::new(s.len(), |i: int| ascii_lower_char(s[i]))
}

/// The lower-case string slice of an upper-case ASCII letter.
fn lower_letter_str(c: char) -> (r: &'static str)
    requires
        'A' <= c && c <= 'Z',
    ensures
        r@ == seq![ascii_lower_char(c)],
{
    proof {
        reveal_strlit("a");
        reveal_strlit("b");
        reveal_strlit("c");
        reveal_strlit("d");
        reveal_strlit("e");
        reveal_strlit("f");
        reveal_strlit("g");
        reveal_strlit("h");
        reveal_strlit("i");
        reveal_strlit("j");
        reveal_strlit("k");
        reveal_strlit("l");
        reveal_strlit("m");
        reveal_strlit("n");
        reveal_strlit("o");
        reveal_strlit("p");
        reveal_strlit("q");
        reveal_strlit("r");
        reveal_strlit("s");
        reveal_strlit("t");
        reveal_strlit("u");
        reveal_strlit("v");
        reveal_strlit("w");
        reveal_strlit("x");
        reveal_strlit("y");
        reveal_strlit("z");
    }
    let r = if c == 'A' {
        "a"
    } else if c == 'B' {
        "b"
    } else if c == 'C' {
        "c"
    } else if c == 'D' {
        "d"
    } else if c == 'E' {
        "e"
    } else if c == 'F' {
        "f"
    } else if c == 'G' {
        "g"
    } else if c == 'H' {
        "h"
    } else if c == 'I' {
        "i"
    } else if c == 'J' {
        "j"
    } else if c == 'K' {
        "k"
    } else if c == 'L' {
        "l"
    } else if c == 'M' {
        "m"
    } else if c == 'N' {
        "n"
    } else if c == 'O' {
        "o"
    } else if c == 'P' {
        "p"
    } else if c == 'Q' {
        "q"
    } else if c == 'R' {
        "r"
    } else if c == 'S' {
        "s"
    } else if c == 'T' {
        "t"
    } else if c == 'U' {
        "u"
    } else if c == 'V' {
        "v"
    } else if c == 'W' {
        "w"
    } else if c == 'X' {
        "x"
    } else if c == 'Y' {
        "y"
    } else {
        "z"
    };
    proof {
        assert(r@ =~= seq![ascii_lower_char(c)]);
    }
    r
}

/// Lower-cases the ASCII letters of a string.
#[verifier::loop_isolation(false)]
pub fn ascii_lower_str(s: &str) -> (r: String)
    ensures
        r@ == ascii_lower(s@),
{
    let n = s.unicode_len();
    let mut out = String::new();
    let mut i: usize = 0;
    while i < n
        invariant
            n == s@.len(),
            i <= n,
            out@ == ascii_lower(s@).subrange(0, i as int),
        decreases n - i,
    {
        let c = s.get_char(i);
        if 'A' <= c && c <= 'Z' {
            out.append(lower_letter_str(c));
        } else {
            let piece = s.substring_char(i, i + 1);
            proof {
                assert(piece@ =~= seq![s@[i as int]]);
            }
            out.append(piece);
        }
        proof {
            assert(out@ =~= ascii_lower(s@).subrange(0, i + 1 as int));
        }
        i = i + 1;
    }
    proof {
        assert(ascii_lower(s@).subrange(0, n as int) =~= ascii_lower(s@));
    }
    out
}

/// Whether encoding this node wants its single child looked at, to possibly
/// show it inline.
pub open spec fn spec_wants_inline_child(info: NodeInfo) -> bool {
    info.num_children == 1 && info.node_name@ != "SLOT"@
}

/// Whether encoding this node wants its single child looked at.
pub fn wants_inline_child(info: &NodeInfo) -> (r: bool)
    ensures
        r == spec_wants_inline_child(*info),
{
    proof {
        reveal_strlit("SLOT");
    }
    info.num_children == 1 && !str_eq(info.node_name.as_str(), "SLOT")
}

/// Makes sure a script identity has a node actor, staging a fresh one when
/// none exists yet, and hands its identifier back.
pub fn get_or_register_node_actor(
    registry: &mut ActorRegistry,
    script_id: &str,
    walker: &str,
) -> (r: String)
    requires
        old(registry).wf(),
        old(registry).counter() < u64::MAX,
    ensures
        final(registry).wf(),
        final(registry).actors() == old(registry).actors(),
        final(registry).old_actors == old(registry).old_actors,
        final(registry).counter() <= old(registry).counter() + 1,
        final(registry).script_map().contains_key(script_id@),
        r@ == final(registry).script_map()[script_id@]@,
        forall|k: Seq<char>|
            #[trigger] old(registry).script_map().contains_key(k)
                ==> final(registry).script_map().contains_key(k)
                && final(registry).script_map()[k] == old(registry).script_map()[k],
        old(registry).script_map().contains_key(script_id@) ==> *final(registry) == *old(registry)
            && (script_id@.len() > 0 ==> r@ == old(registry).script_map()[script_id@]@),
        !old(registry).script_map().contains_key(script_id@) ==> {
            &&& r@ == name_for(ActorKind::Node, old(registry).counter())
            &&& final(registry).script_map() =~~= old(registry).script_map().insert(script_id@, r)
            &&& final(registry).new_actors@.len() == old(registry).new_actors@.len() + 1
            &&& final(registry).new_actors@.drop_last() == old(registry).new_actors@
            &&& final(registry).new_actors@.last().0@ == r@
        },
        script_id@.len() > 0 ==> r@ == final(registry).script_map()[script_id@]@,
{
    if !registry.script_actor_registered(script_id) {
        let name = registry.reserve_name(ActorKind::Node);
        let name_copy = name.clone();
        registry.register_script_actor(script_id.to_owned(), name.clone());
        registry.register_deferred(
            name,
            ActorHandler::Node(NodeActor { name: name_copy.clone(), walker: walker.to_owned() }),
        );
        name_copy
    } else {
        match registry.script_binding(script_id) {
            Some(a) => a.clone(),
            None => vstd::pervasive::unreached(),
        }
    }
}

/// Whether the named walker is installed and really a walker.
pub open spec fn walker_wired(registry: ActorRegistry, walker: Seq<char>) -> bool {
    registry.actors().contains_key(walker) && registry.actors()[walker] is Walker
}

/// Whether some script identity is bound to the given actor identifier.
pub open spec fn actor_bound(registry: ActorRegistry, actor: Seq<char>) -> bool {
    exists|k: Seq<char>|
        registry.script_map().contains_key(k) && (#[trigger] registry.script_map()[k])@ == actor
}

/// Whether a node actor's wiring is whole: its walker is installed and some
/// script identity is bound to the node.
pub open spec fn node_wiring_ok(
    registry: ActorRegistry,
    walker: Seq<char>,
    node: Seq<char>,
) -> bool {
    &&& walker_wired(registry, walker)
    &&& actor_bound(registry, node)
}

impl NodeActor {
    /// Handles one message addressed to a node actor.
    pub fn handle_message(
        &self,
        name: &str,
        registry: &mut ActorRegistry,
        msg_type: &str,
        msg: &Json,
        stream: &mut StreamBuf,
    ) -> (r: Result<crate::actor::HandlerStep, ActorError>)
        requires
            old(registry).wf(),
            old(registry).counter() < u64::MAX,
        ensures
            final(registry).wf(),
            final(stream).id == old(stream).id,
            final(registry).actors().remove(self.walker@) =~~= old(registry).actors().remove(
                self.walker@,
            ),
            final(registry).actors().contains_key(self.walker@) == old(
                registry,
            ).actors().contains_key(self.walker@),
            final(registry).actors() == old(registry).actors() || (exists|h3: ActorHandler|
                final(registry).actors() =~~= #[trigger] old(registry).actors().insert(
                    self.walker@,
                    h3,
                )),
            final(registry).old_actors == old(registry).old_actors,
            final(registry).new_actors == old(registry).new_actors,
            old(stream).out().is_prefix_of(final(stream).out()),
            r is Err ==> *final(stream) == *old(stream) && final(registry).actors() == old(
                registry,
            ).actors(),
            r matches Ok(crate::actor::HandlerStep::Await(_)) ==> *final(stream) == *old(stream)
                && *final(registry) == *old(registry),
            r matches Ok(crate::actor::HandlerStep::Done(_)) ==> crate::actor::replied_from(
                old(stream).out(),
                final(stream).out(),
                name@,
            ),
            (msg_type@ != "modifyAttributes"@ && msg_type@ != "getUniqueSelector"@ && msg_type@
                != "getXPath"@) ==> r == Result::<crate::actor::HandlerStep, ActorError>::Err(
                ActorError::UnrecognizedPacketType,
            ),
            msg_type@ == "modifyAttributes"@ ==> {
                &&& crate::json::jget(msg@, "modifications"@) is None ==> r == Result::<
                    crate::actor::HandlerStep,
                    ActorError,
                >::Err(ActorError::MissingParameter)
                &&& crate::json::jget(msg@, "modifications"@) matches Some(v) ==> (!(v is Arr)
                    ==> r == Result::<crate::actor::HandlerStep, ActorError>::Err(
                    ActorError::BadParameterType,
                ))
                &&& crate::json::jget(msg@, "modifications"@) matches Some(JVal::Arr(items))
                    ==> (node_wiring_ok(*old(registry), self.walker@, name@) ==> {
                    &&& final(stream).out() == old(stream).out().push(
                        crate::actors::walker::new_mutations_notification_val(self.walker@),
                    ).push(empty_reply_val(name@))
                    &&& (r matches Ok(crate::actor::HandlerStep::Done(cmds)) && cmds@.len() == 1
                        && (cmds@[0] matches PageCommand::ModifyAttribute(p, sid, m)
                        && (old(registry).actors()[self.walker@] matches ActorHandler::Walker(w)
                            && p == w.pipeline)
                        && old(registry).script_map().contains_key(sid@)
                        && old(registry).script_map()[sid@]@ == name@
                        && m.deep_view() == spec_parse_mods(items)))
                })
                &&& crate::json::jget(msg@, "modifications"@) matches Some(JVal::Arr(items))
                    ==> (!node_wiring_ok(*old(registry), self.walker@, name@) ==> r == Result::<
                    crate::actor::HandlerStep,
                    ActorError,
                >::Err(ActorError::Internal))
            },
            (msg_type@ == "getUniqueSelector"@ && walker_wired(*old(registry), self.walker@)) ==> (
            r matches Ok(crate::actor::HandlerStep::Await(q)) && (
            q matches PageRequest::NodeUniqueSelector { pipeline, walker, node } && (old(
                registry,
            ).actors()[self.walker@] matches ActorHandler::Walker(w) && pipeline == w.pipeline)
                && walker@ == self.walker@ && node@ == name@)),
            (msg_type@ == "getUniqueSelector"@ && !walker_wired(*old(registry), self.walker@)) ==> r
                == Result::<crate::actor::HandlerStep, ActorError>::Err(ActorError::Internal),
            (msg_type@ == "getXPath"@ && walker_wired(*old(registry), self.walker@)) ==> {
                &&& crate::json::jget_str(msg@, "to"@) is None ==> r is Err
                &&& crate::json::jget_str(msg@, "to"@) matches Some(t) ==> (actor_bound(
                    *old(registry),
                    t,
                ) ==> (r matches Ok(crate::actor::HandlerStep::Await(q)) && (
                q matches PageRequest::NodeXPath { pipeline, node, target_script_id } && (old(
                    registry,
                ).actors()[self.walker@] matches ActorHandler::Walker(w) && pipeline == w.pipeline)
                    && node@ == name@ && old(registry).script_map().contains_key(
                    target_script_id@,
                ) && old(registry).script_map()[target_script_id@]@ == t)))
            },
    {
        proof {
            reveal_strlit("modifyAttributes");
            reveal_strlit("getUniqueSelector");
            reveal_strlit("getXPath");
            assert("modifyAttributes"@.len() != "getUniqueSelector"@.len());
            assert("modifyAttributes"@.len() != "getXPath"@.len());
            assert("getUniqueSelector"@.len() != "getXPath"@.len());
        }
        if str_eq(msg_type, "modifyAttributes") {
            let mods = match msg.get("modifications") {
                Some(v) => v,
                None => {
                    return Err(ActorError::MissingParameter);
                },
            };
            let items = match mods {
                Json::Arr(items) => items,
                _ => {
                    return Err(ActorError::BadParameterType);
                },
            };
            let pipeline = match registry.get(self.walker.as_str()) {
                Some(ActorHandler::Walker(w)) => w.pipeline,
                _ => {
                    return Err(ActorError::Internal);
                },
            };
            let modifications = parse_modifications(items);
            let node_script = match registry.script_for_actor(name) {
                Some(s) => s,
                None => {
                    return Err(ActorError::Internal);
                },
            };
            let second = parse_modifications(items);
            let walker_name = self.walker.clone();
            let ghost pre_actors = registry.actors();
            if !crate::actors::walker::append_mutations(registry, &walker_name, name, modifications)
             {
                return Err(ActorError::Internal);
            }
            proof {
                assert(registry.actors() =~~= pre_actors.insert(
                    self.walker@,
                    registry.actors()[self.walker@],
                ));
            }
            crate::actors::walker::write_new_mutations_notification(&walker_name, stream);
            stream.write_json_packet(empty_reply(name));
            Ok(
                crate::actor::HandlerStep::Done(
                    vec![PageCommand::ModifyAttribute(pipeline, node_script, second)],
                ),
            )
        } else if str_eq(msg_type, "getUniqueSelector") {
            let pipeline = match registry.get(self.walker.as_str()) {
                Some(ActorHandler::Walker(w)) => w.pipeline,
                _ => {
                    return Err(ActorError::Internal);
                },
            };
            Ok(
                crate::actor::HandlerStep::Await(
                    PageRequest::NodeUniqueSelector {
                        pipeline,
                        walker: self.walker.clone(),
                        node: name.to_owned(),
                    },
                ),
            )
        } else if str_eq(msg_type, "getXPath") {
            let pipeline = match registry.get(self.walker.as_str()) {
                Some(ActorHandler::Walker(w)) => w.pipeline,
                _ => {
                    return Err(ActorError::Internal);
                },
            };
            let target = match msg.get_str("to") {
                Some(t) => t.clone(),
                None => {
                    return match msg.get("to") {
                        Some(_) => Err(ActorError::BadParameterType),
                        None => Err(ActorError::MissingParameter),
                    };
                },
            };
            let target_script = match registry.script_for_actor(target.as_str()) {
                Some(s) => s,
                None => {
                    return Err(ActorError::Internal);
                },
            };
            Ok(
                crate::actor::HandlerStep::Await(
                    PageRequest::NodeXPath {
                        pipeline,
                        node: name.to_owned(),
                        target_script_id: target_script,
                    },
                ),
            )
        } else {
            Err(ActorError::UnrecognizedPacketType)
        }
    }
}

/// The attribute modifications a JSON array carries: each entry that names
/// an attribute contributes its name and optional new value; the rest are
/// passed over, as the protocol allows.
pub open spec fn spec_parse_mods(items: Seq<JVal>) -> Seq<(Seq<char>, Option<Seq<char>>)>
    decreases items.len(),
{
    if items.len() == 0 {
        Seq::empty()
    } else {
        spec_parse_mods(items.drop_last()) + (match jget_str(items.last(), "attributeName"@) {
            Some(a) => seq![(a, jget_str(items.last(), "newValue"@))],
            None => Seq::empty(),
        })
    }
}

/// Reads the attribute modifications out of a JSON array.
#[verifier::loop_isolation(false)]
fn parse_modifications(items: &Vec<Json>) -> (r: Vec<AttrModification>)
    ensures
        r.deep_view() == spec_parse_mods(jvals_of(items@)),
{
    let n = items.len();
    let mut out: Vec<AttrModification> = Vec::new();
    let mut i: usize = 0;
    proof {
        lemma_jvals_of(items@);
        assert(jvals_of(items@).subrange(0, 0) =~= Seq::<JVal>::empty());
        assert(out.deep_view() =~= spec_parse_mods(jvals_of(items@).subrange(0, 0)));
    }
    while i < n
        invariant
            n == items@.len(),
            i <= n,
            jvals_of(items@).len() == n,
            out.deep_view() == spec_parse_mods(jvals_of(items@).subrange(0, i as int)),
        decreases n - i,
    {
        let ghost pre = jvals_of(items@).subrange(0, i as int);
        let ghost preout = out.deep_view();
        match items[i].get_str("attributeName") {
            Some(attr_name) => {
                let new_value = match items[i].get_str("newValue") {
                    Some(v) => Some(v.clone()),
                    None => None,
                };
                out.push(
                    AttrModification { attribute_name: attr_name.clone(), new_value },
                );
            },
            None => {},
        }
        proof {
            let now = jvals_of(items@).subrange(0, i + 1 as int);
            assert(now.drop_last() =~= pre);
            assert(now.last() == jvals_of(items@)[i as int]);
            assert(jvals_of(items@)[i as int] == items@[i as int]@);
            assert(out.deep_view() =~= spec_parse_mods(now));
        }
        i = i + 1;
    }
    proof {
        assert(jvals_of(items@).subrange(0, n as int) =~= jvals_of(items@));
    }
    out
}

/// The reply to `getUniqueSelector`: the display name of the document
/// element.
pub open spec fn unique_selector_reply_val(from: Seq<char>, value: Seq<char>) -> JVal {
    jobj2("from"@, JVal::Str(from), "value"@, JVal::Str(value))
}

/// Completes a `getUniqueSelector` message once the page has handed the
/// document element over: the reply carries the element's display name.
pub fn complete_unique_selector(
    registry: &mut ActorRegistry,
    node: &str,
    walker: &str,
    doc_element: NodeInfo,
    inline_child: Option<NodeInfo>,
    stream: &mut StreamBuf,
) -> (r: Result<(), ActorError>)
    requires
        old(registry).wf(),
        old(registry).counter() + 8 <= u64::MAX,
    ensures
        final(registry).wf(),
        final(stream).id == old(stream).id,
        final(registry).actors() == old(registry).actors(),
        final(registry).old_actors == old(registry).old_actors,
        r is Err <==> encode_fails(doc_element, inline_child),
        r is Err ==> *final(stream) == *old(stream),
        r is Ok ==> final(stream).out() == old(stream).out().push(
            unique_selector_reply_val(node@, lower_of(doc_element.node_name@)),
        ),
{
    let ghost gname = doc_element.node_name@;
    let msg = encode_node_info(registry, doc_element, walker, inline_child)?;
    let reply = mk_obj2("from", Json::of_str(node), "value", Json::Str(msg.display_name));
    stream.write_json_packet(reply);
    Ok(())
}

/// The reply to `getXPath`.
pub open spec fn xpath_reply_val(from: Seq<char>, value: Seq<char>) -> JVal {
    jobj2("from"@, JVal::Str(from), "value"@, JVal::Str(value))
}

/// Completes a `getXPath` message once the page has answered.
pub fn complete_xpath(node: &str, xpath: String, stream: &mut StreamBuf)
    ensures
        final(stream).id == old(stream).id,
        final(stream).out() == old(stream).out().push(xpath_reply_val(node@, xpath@)),
{
    let reply = mk_obj2("from", Json::of_str(node), "value", Json::Str(xpath));
    stream.write_json_packet(reply);
}

/// Whether encoding must fail: only a node — or the inline child it
/// examines — without a script identity cannot gain a wrapper actor.
pub open spec fn encode_fails(info: NodeInfo, inline_child: Option<NodeInfo>) -> bool {
    ||| info.unique_id@.len() == 0
    ||| (spec_wants_inline_child(info) && (inline_child matches Some(c) && c.unique_id@.len()
        == 0))
}

/// How many inline-child levels an encode call may descend.
pub open spec fn inline_depth(o: Option<NodeInfo>) -> nat {
    match o {
        Some(_) => 1nat,
        None => 0nat,
    }
}

/// Encodes one node for the wire, making sure it and its shadow host have
/// wrapper actors. A lone text child small enough to show inline travels
/// inside its parent's form; the caller passes that child along when the
/// node wants one.
#[verifier::rlimit(100)]
#[verifier::spinoff_prover]
pub fn encode_node_info(
    registry: &mut ActorRegistry,
    info: NodeInfo,
    walker: &str,
    inline_child: Option<NodeInfo>,
) -> (r: Result<NodeActorMsg, ActorError>)
    requires
        old(registry).wf(),
        old(registry).counter() + 4 + 4 * inline_depth(inline_child) <= u64::MAX,
    ensures
        final(registry).wf(),
        final(registry).actors() == old(registry).actors(),
        final(registry).old_actors == old(registry).old_actors,
        final(registry).counter() <= old(registry).counter() + 2 + 2 * inline_depth(
            inline_child,
        ),
        forall|k: Seq<char>|
            #[trigger] old(registry).script_map().contains_key(k)
                ==> final(registry).script_map().contains_key(k)
                && final(registry).script_map()[k] == old(registry).script_map()[k],
        r matches Ok(msg) ==> {
            &&& msg.display_name@ == lower_of(info.node_name@)
            &&& msg.num_children == info.num_children
            &&& msg.node_type == info.node_type
            &&& final(registry).script_map().contains_key(info.unique_id@)
            &&& msg.actor@ == final(registry).script_map()[info.unique_id@]@
            &&& jget_str(msg.body@, "actor"@) == Some(msg.actor@)
            &&& jget_str(msg.body@, "displayName"@) == Some(lower_of(info.node_name@))
        },
        r is Err <==> encode_fails(info, inline_child),
        r is Err ==> r == Result::<NodeActorMsg, ActorError>::Err(ActorError::Internal)
            && *final(registry) == *old(registry),
    decreases inline_depth(inline_child),
{
    if info.unique_id.as_str().is_empty() {
        return Err(ActorError::Internal);
    }
    let wants_child = wants_inline_child(&info);
    match (&inline_child, wants_child) {
        (Some(child), true) => {
            if child.unique_id.as_str().is_empty() {
                return Err(ActorError::Internal);
            }
        },
        _ => {},
    }
    let actor = get_or_register_node_actor(registry, info.unique_id.as_str(), walker);
    let host_actor: Option<String> = match &info.host {
        Some(host_id) => Some(get_or_register_node_actor(registry, host_id.as_str(), walker)),
        None => None,
    };
    let display_name = unicode_lowercase(info.node_name.as_str());

    let inline_text_child: Option<Json> = match inline_child {
        Some(child) => {
            if info.num_children == 1 && !str_eq(info.node_name.as_str(), "SLOT") {
                let child_msg = match encode_node_info(registry, child, walker, None) {
                    Ok(m) => m,
                    Err(_) => {
                        return vstd::pervasive::unreached();
                    },
                };
                let child_is_text = child_msg.node_type == TEXT_NODE;
                let child_small = match &child_msg.node_value {
                    Some(v) => v.as_str().unicode_len() <= MAX_INLINE_LENGTH,
                    None => true,
                };
                if child_is_text && child_small {
                    Some(child_msg.body)
                } else {
                    None
                }
            } else {
                None
            }
        },
        None => None,
    };

    let num_children = info.num_children;
    let node_type = info.node_type;
    let node_value_copy = match &info.node_value {
        Some(v) => Some(v.clone()),
        None => None,
    };
    let node_value_json: Json = match &info.node_value {
        Some(v) => Json::Str(v.clone()),
        None => Json::Null,
    };
    let parent_actor = if info.parent.as_str().is_empty() {
        String::new()
    } else {
        match registry.script_binding(info.parent.as_str()) {
            Some(a) => a.clone(),
            None => String::new(),
        }
    };
    let body = build_node_body(
        info.base_uri,
        info.display,
        info.attrs,
        info.is_displayed,
        info.is_shadow_host,
        info.shadow_root_mode,
        info.is_top_level_document,
        info.node_name,
        info.node_type,
        node_value_json,
        info.num_children,
        info.doctype_name,
        info.doctype_public_identifier,
        info.doctype_system_identifier,
        actor.clone(),
        host_actor,
        display_name.clone(),
        inline_text_child,
        parent_actor,
    );
    Ok(
        NodeActorMsg {
            actor,
            display_name,
            num_children,
            node_type,
            node_value: node_value_copy,
            body,
        },
    )
}


/// Assembles one node's wire object; the actor and display name land under
/// their fields.
fn build_node_body(
    base_uri: String,
    display: Option<String>,
    attrs: Vec<(String, String)>,
    is_displayed: bool,
    is_shadow_host: bool,
    shadow_root_mode: Option<String>,
    is_top_level_document: bool,
    node_name: String,
    node_type: u16,
    node_value_json: Json,
    num_children: u64,
    doctype_name: Option<String>,
    doctype_public_identifier: Option<String>,
    doctype_system_identifier: Option<String>,
    actor: String,
    host_actor: Option<String>,
    display_name: String,
    inline_text_child: Option<Json>,
    parent_actor: String,
) -> (body: Json)
    ensures
        jget_str(body@, "actor"@) == Some(actor@),
        jget_str(body@, "displayName"@) == Some(display_name@),
{
    let mut fields: Vec<(String, Json)> = Vec::new();
    fields.push(("actor".to_owned(), Json::Str(actor)));
    match host_actor {
        Some(h) => fields.push(("host".to_owned(), Json::Str(h))),
        None => fields.push(("host".to_owned(), Json::Null)),
    }
    fields.push(("baseURI".to_owned(), Json::Str(base_uri)));
    fields.push(("causesOverflow".to_owned(), Json::Bool(false)));
    fields.push(("containerType".to_owned(), Json::Null));
    fields.push(("displayName".to_owned(), Json::Str(display_name)));
    match display {
        Some(d) => fields.push(("displayType".to_owned(), Json::Str(d))),
        None => fields.push(("displayType".to_owned(), Json::Null)),
    }
    match inline_text_child {
        Some(c) => fields.push(("inlineTextChild".to_owned(), c)),
        None => {},
    }
    fields.push(("isAfterPseudoElement".to_owned(), Json::Bool(false)));
    fields.push(("isAnonymous".to_owned(), Json::Bool(false)));
    fields.push(("isBeforePseudoElement".to_owned(), Json::Bool(false)));
    fields.push(("isDirectShadowHostChild".to_owned(), Json::Null));
    fields.push(("isDisplayed".to_owned(), Json::Bool(is_displayed)));
    fields.push(("isInHTMLDocument".to_owned(), Json::Bool(true)));
    fields.push(("isMarkerPseudoElement".to_owned(), Json::Bool(false)));
    fields.push(("isNativeAnonymous".to_owned(), Json::Bool(false)));
    fields.push(("isScrollable".to_owned(), Json::Bool(false)));
    fields.push(("isShadowHost".to_owned(), Json::Bool(is_shadow_host)));
    fields.push(("isShadowRoot".to_owned(), Json::Bool(shadow_root_mode.is_some())));
    fields.push(("isTopLevelDocument".to_owned(), Json::Bool(is_top_level_document)));
    fields.push(("nodeName".to_owned(), Json::Str(node_name)));
    fields.push(("nodeType".to_owned(), Json::Uint(node_type as u64)));
    fields.push(("nodeValue".to_owned(), node_value_json));
    fields.push(("numChildren".to_owned(), Json::Uint(num_children)));
    if !parent_actor.as_str().is_empty() {
        fields.push(("parent".to_owned(), Json::Str(parent_actor)));
    }
    match shadow_root_mode {
        Some(m) => fields.push(("shadowRootMode".to_owned(), Json::Str(m))),
        None => fields.push(("shadowRootMode".to_owned(), Json::Null)),
    }
    fields.push(("traits".to_owned(), Json::Obj(Vec::new())));
    let mut encoded_attrs: Vec<Json> = Vec::new();
    let n_attrs = attrs.len();
    let mut i: usize = 0;
    while i < n_attrs
        invariant
            n_attrs == attrs@.len(),
            i <= n_attrs,
        decreases n_attrs - i,
    {
        let pair = &attrs[i];
        encoded_attrs.push(
            mk_obj2("name", Json::Str(pair.0.clone()), "value", Json::Str(pair.1.clone())),
        );
        i = i + 1;
    }
    fields.push(("attrs".to_owned(), Json::Arr(encoded_attrs)));
    match doctype_name {
        Some(d) => fields.push(("name".to_owned(), Json::Str(d))),
        None => {},
    }
    match doctype_public_identifier {
        Some(d) => fields.push(("publicId".to_owned(), Json::Str(d))),
        None => {},
    }
    match doctype_system_identifier {
        Some(d) => fields.push(("systemId".to_owned(), Json::Str(d))),
        None => {},
    }
    let ghost gfields = fields@;
    let ghost gactor = gfields[0].1;
    let body = Json::Obj(fields);
    proof {
        lemma_jflds_of(gfields);
        crate::json::lemma_jfield_first(gfields, "actor"@);
        assert(crate::json::jfield(crate::json::jflds_of(gfields), "displayName"@) == Some(
            jval_of(gfields[5].1),
        )) by {
            lemma_jflds_of(gfields);
            reveal_strlit("actor");
            reveal_strlit("host");
            reveal_strlit("baseURI");
            reveal_strlit("causesOverflow");
            reveal_strlit("containerType");
            reveal_strlit("displayName");
            assert("actor"@.len() != "displayName"@.len());
            assert("host"@.len() != "displayName"@.len());
            assert("baseURI"@.len() != "displayName"@.len());
            assert("causesOverflow"@.len() != "displayName"@.len());
            assert("containerType"@.len() != "displayName"@.len());
            crate::json::lemma_jfield_at(crate::json::jflds_of(gfields), "displayName"@, 5);
        }
    }
    body
}
} // verus!
