//! The walker operations that need an answer from the page: the dispatcher
//! pauses, the page answers, and a completion function writes the reply.

use devtools_server::actor::{ActorHandler, WalkerActor};
use devtools_server::actors::node::NodeInfo;
use devtools_server::actors::walker::{SearchStep, SelectorSearch, complete_children,
    complete_document_element};
use devtools_server::json::Json;
use devtools_server::name::ActorKind;
use devtools_server::page::{PageRequest, PipelineId};
use devtools_server::registry::{ActorRegistry, DispatchOutcome};
use devtools_server::stream::StreamBuf;

fn str_field(packet: &Json, key: &str) -> String {
    match packet.get(key) {
        Some(Json::Str(s)) => s.clone(),
        other => panic!("expected string under {key}, found {other:?}"),
    }
}

fn node(unique_id: &str, name: &str, children: u64) -> NodeInfo {
    NodeInfo {
        unique_id: unique_id.to_owned(),
        host: None,
        base_uri: "https://example.test/".to_owned(),
        node_type: 1,
        node_name: name.to_owned(),
        node_value: None,
        num_children: children,
        attrs: Vec::new(),
        is_top_level_document: false,
        is_displayed: true,
        is_shadow_host: false,
        shadow_root_mode: None,
        display: None,
        parent: String::new(),
        doctype_name: None,
        doctype_public_identifier: None,
        doctype_system_identifier: None,
    }
}

fn install_walker(registry: &mut ActorRegistry) -> String {
    let name = registry.reserve_name(ActorKind::Walker);
    let walker = WalkerActor {
        name: name.clone(),
        browsing_context: "none".to_owned(),
        pipeline: PipelineId { namespace_id: 1, index: 1 },
        root_node: Json::Null,
        mutations: Vec::new(),
    };
    registry.install(name.clone(), ActorHandler::Walker(walker));
    name
}

#[test]
fn children_pauses_on_the_page_and_completes() {
    let mut registry = ActorRegistry::new();
    let walker = install_walker(&mut registry);
    // The client can only name nodes that already have wrapper actors.
    let parent_actor = devtools_server::actors::node::encode_node_info(
        &mut registry,
        node("dom-parent", "BODY", 2),
        &walker,
        None,
    )
    .expect("encodes")
    .actor;
    registry.end_pass();

    let msg = Json::Obj(vec![
        ("to".to_owned(), Json::Str(walker.clone())),
        ("type".to_owned(), Json::Str("children".to_owned())),
        ("node".to_owned(), Json::Str(parent_actor)),
    ]);
    let mut stream = StreamBuf::new(1);
    let outcome = registry.handle_message(&msg, &mut stream, 1);
    let request = match outcome {
        DispatchOutcome::AwaitPage(request) => request,
        other => panic!("expected a page round trip, got {other:?}"),
    };
    match request {
        PageRequest::WalkerChildren { node_script_id, .. } => {
            assert_eq!(node_script_id, "dom-parent");
        },
        other => panic!("expected a children request, got {other:?}"),
    }
    // Nothing went to the client while the pass waits on the page.
    assert!(stream.packets.is_empty());

    let children = vec![
        (node("dom-a", "DIV", 0), None),
        (node("dom-b", "SPAN", 0), None),
    ];
    complete_children(&mut registry, &walker, children, &mut stream).expect("completes");
    registry.end_pass();
    assert_eq!(stream.packets.len(), 1);
    let reply = &stream.packets[0];
    assert_eq!(str_field(reply, "from"), walker);
    let nodes = match reply.get("nodes") {
        Some(Json::Arr(items)) => items,
        other => panic!("nodes not an array: {other:?}"),
    };
    assert_eq!(nodes.len(), 2);
    assert_eq!(str_field(&nodes[0], "displayName"), "div");
    assert_eq!(str_field(&nodes[1], "displayName"), "span");
    // Both children gained wrapper actors, visible after the pass.
    let first_actor = str_field(&nodes[0], "actor");
    assert!(registry.get(&first_actor).is_some());
    assert_eq!(registry.actor_to_script(&first_actor), "dom-a");
}

#[test]
fn document_element_completion_replies_with_the_root() {
    let mut registry = ActorRegistry::new();
    let walker = install_walker(&mut registry);
    let msg = Json::Obj(vec![
        ("to".to_owned(), Json::Str(walker.clone())),
        ("type".to_owned(), Json::Str("documentElement".to_owned())),
    ]);
    let mut stream = StreamBuf::new(1);
    let outcome = registry.handle_message(&msg, &mut stream, 1);
    assert!(matches!(outcome, DispatchOutcome::AwaitPage(PageRequest::WalkerDocumentElement { .. })));

    complete_document_element(&mut registry, &walker, node("dom-html", "HTML", 1), None, &mut stream)
        .expect("completes");
    assert_eq!(stream.packets.len(), 1);
    let reply_node = stream.packets[0].get("node").unwrap();
    assert_eq!(str_field(reply_node, "displayName"), "html");
}

#[test]
fn children_parameter_errors_are_the_protocol_errors() {
    let mut registry = ActorRegistry::new();
    let walker = install_walker(&mut registry);
    // No `node` field.
    let mut stream = StreamBuf::new(1);
    let msg = Json::Obj(vec![
        ("to".to_owned(), Json::Str(walker.clone())),
        ("type".to_owned(), Json::Str("children".to_owned())),
    ]);
    let outcome = registry.handle_message(&msg, &mut stream, 1);
    assert!(matches!(
        outcome,
        DispatchOutcome::HandlerError(devtools_server::error::ActorError::MissingParameter)
    ));
    // A non-string `node` field.
    let mut stream = StreamBuf::new(1);
    let msg = Json::Obj(vec![
        ("to".to_owned(), Json::Str(walker.clone())),
        ("type".to_owned(), Json::Str("children".to_owned())),
        ("node".to_owned(), Json::Uint(4)),
    ]);
    let outcome = registry.handle_message(&msg, &mut stream, 1);
    assert!(matches!(
        outcome,
        DispatchOutcome::HandlerError(devtools_server::error::ActorError::BadParameterType)
    ));
    // A node actor the registry never produced.
    let mut stream = StreamBuf::new(1);
    let msg = Json::Obj(vec![
        ("to".to_owned(), Json::Str(walker.clone())),
        ("type".to_owned(), Json::Str("children".to_owned())),
        ("node".to_owned(), Json::Str("node999".to_owned())),
    ]);
    let outcome = registry.handle_message(&msg, &mut stream, 1);
    assert!(matches!(
        outcome,
        DispatchOutcome::HandlerError(devtools_server::error::ActorError::Internal)
    ));
}

#[test]
fn selector_search_walks_depth_first_until_the_match() {
    let mut registry = ActorRegistry::new();
    let walker = install_walker(&mut registry);
    let mut stream = StreamBuf::new(1);
    let mut search = SelectorSearch::new(
        walker.clone(),
        PipelineId { namespace_id: 1, index: 1 },
        "em".to_owned(),
    );
    // First round: the start node's children; the searcher descends into
    // the one with children.
    let step = search
        .step(
            &mut registry,
            vec![(node("dom-a", "DIV", 1), None), (node("dom-b", "EM", 0), None)],
            &mut stream,
        )
        .expect("steps");
    let inner = match step {
        SearchStep::Descend(script_id) => script_id,
        other => panic!("expected a descent, got {other:?}"),
    };
    assert_eq!(inner, "dom-a");
    // Second round: the inner node's children hold no match and nothing to
    // descend into, so the search backs out and finds the sibling.
    let step = search
        .step(&mut registry, vec![(node("dom-a-1", "B", 0), None)], &mut stream)
        .expect("steps");
    assert!(matches!(step, SearchStep::Done));
    assert_eq!(stream.packets.len(), 1);
    let found = stream.packets[0].get("node").unwrap();
    assert_eq!(str_field(found, "displayName"), "em");
    assert_eq!(str_field(&stream.packets[0], "from"), walker);
}
