//! Individual actor handlers: multi-packet replies, walker mutation
//! bookkeeping, and frame management.

use devtools_server::actor::{ActorHandler, Mutation, ThreadActor, WalkerActor};
use devtools_server::actors::frame::FrameManager;
use devtools_server::json::Json;
use devtools_server::name::ActorKind;
use devtools_server::page::PipelineId;
use devtools_server::registry::{ActorRegistry, DispatchOutcome};
use devtools_server::stream::StreamBuf;

fn message(to: &str, msg_type: &str) -> Json {
    Json::Obj(vec![
        ("to".to_owned(), Json::Str(to.to_owned())),
        ("type".to_owned(), Json::Str(msg_type.to_owned())),
    ])
}

fn str_field(packet: &Json, key: &str) -> String {
    match packet.get(key) {
        Some(Json::Str(s)) => s.clone(),
        other => panic!("expected string under {key}, found {other:?}"),
    }
}

#[test]
fn thread_attach_pushes_then_replies() {
    let mut registry = ActorRegistry::new();
    let name = registry.register(
        ActorKind::Thread,
        ActorHandler::Thread(ThreadActor { source_actor_names: vec!["source9".to_owned()] }),
    );
    let mut stream = StreamBuf::new(1);
    let outcome = registry.handle_message(&message(&name, "attach"), &mut stream, 1);
    assert!(matches!(outcome, DispatchOutcome::Replied(_)));
    // The pause notification comes first, the final reply second.
    assert_eq!(stream.packets.len(), 2);
    assert_eq!(str_field(&stream.packets[0], "type"), "paused");
    let pause_name = str_field(&stream.packets[0], "actor");
    assert_eq!(str_field(&stream.packets[1], "from"), name);
    // The pause actor the notification names exists after the pass.
    assert!(registry.get(&pause_name).is_some());

    let mut stream = StreamBuf::new(1);
    let _ = registry.handle_message(&message(&name, "sources"), &mut stream, 1);
    let sources = stream.packets[0].get("sources").unwrap();
    match sources {
        Json::Arr(items) => {
            assert_eq!(items.len(), 1);
            assert_eq!(str_field(&items[0], "actor"), "source9");
        },
        other => panic!("sources not an array: {other:?}"),
    }
}

#[test]
fn walker_hands_mutations_out_once() {
    let mut registry = ActorRegistry::new();
    let name = registry.reserve_name(ActorKind::Walker);
    let walker = WalkerActor {
        name: name.clone(),
        browsing_context: "none".to_owned(),
        pipeline: PipelineId { namespace_id: 1, index: 1 },
        root_node: Json::Null,
        mutations: vec![Mutation {
            attribute_name: "class".to_owned(),
            new_value: Some("wide".to_owned()),
            target: "node3".to_owned(),
        }],
    };
    registry.install(name.clone(), ActorHandler::Walker(walker));

    let mut stream = StreamBuf::new(1);
    let _ = registry.handle_message(&message(&name, "getMutations"), &mut stream, 1);
    let mutations = stream.packets[0].get("mutations").unwrap();
    match mutations {
        Json::Arr(items) => {
            assert_eq!(items.len(), 1);
            assert_eq!(str_field(&items[0], "attributeName"), "class");
            assert_eq!(str_field(&items[0], "newValue"), "wide");
            assert_eq!(str_field(&items[0], "target"), "node3");
            assert_eq!(str_field(&items[0], "type"), "attributes");
        },
        other => panic!("mutations not an array: {other:?}"),
    }
    // Collected mutations are gone; asking again finds none.
    let mut stream = StreamBuf::new(1);
    let _ = registry.handle_message(&message(&name, "getMutations"), &mut stream, 1);
    match stream.packets[0].get("mutations").unwrap() {
        Json::Arr(items) => assert!(items.is_empty()),
        other => panic!("mutations not an array: {other:?}"),
    }
}

#[test]
fn walker_watch_root_node_pushes_the_root() {
    let mut registry = ActorRegistry::new();
    let name = registry.reserve_name(ActorKind::Walker);
    let walker = WalkerActor {
        name: name.clone(),
        browsing_context: "none".to_owned(),
        pipeline: PipelineId { namespace_id: 1, index: 1 },
        root_node: Json::Obj(vec![("actor".to_owned(), Json::Str("node0".to_owned()))]),
        mutations: Vec::new(),
    };
    registry.install(name.clone(), ActorHandler::Walker(walker));
    let mut stream = StreamBuf::new(1);
    let _ = registry.handle_message(&message(&name, "watchRootNode"), &mut stream, 1);
    assert_eq!(stream.packets.len(), 2);
    assert_eq!(str_field(&stream.packets[0], "type"), "root-available");
    let node = stream.packets[0].get("node").unwrap();
    assert_eq!(str_field(node, "actor"), "node0");
    assert_eq!(str_field(&stream.packets[1], "from"), name);
}

#[test]
fn frame_manager_records_each_frame_once_in_ascending_order() {
    let mut manager = FrameManager::new();
    manager.add_frame("frame2");
    manager.add_frame("frame1");
    manager.add_frame("frame3");
    manager.add_frame("frame1");
    assert_eq!(
        manager.frame_actor_names,
        vec!["frame1".to_owned(), "frame2".to_owned(), "frame3".to_owned()]
    );
}

#[test]
fn frame_get_environment_creates_the_environment() {
    let mut registry = ActorRegistry::new();
    let name = registry.register(
        ActorKind::Frame,
        ActorHandler::Frame(devtools_server::actor::FrameActor {
            name: "frame0".to_owned(),
            source_actor: "source0".to_owned(),
            object_actor: "object0".to_owned(),
        }),
    );
    let mut stream = StreamBuf::new(1);
    let outcome = registry.handle_message(&message(&name, "getEnvironment"), &mut stream, 1);
    assert!(matches!(outcome, DispatchOutcome::Replied(_)));
    let environment = str_field(&stream.packets[0], "actor");
    assert!(registry.get(&environment).is_some());
}

#[test]
fn accessibility_traits_and_bootstrap() {
    let mut registry = ActorRegistry::new();
    let name = registry.register(
        ActorKind::Accessibility,
        ActorHandler::Accessibility(devtools_server::actor::AccessibilityActor::new(
            "unused".to_owned(),
        )),
    );
    let mut stream = StreamBuf::new(1);
    let _ = registry.handle_message(&message(&name, "getTraits"), &mut stream, 1);
    let traits = stream.packets[0].get("traits").unwrap();
    assert_eq!(traits.get("tabbingOrder"), Some(&Json::Bool(true)));

    let mut stream = StreamBuf::new(1);
    let _ = registry.handle_message(&message(&name, "bootstrap"), &mut stream, 1);
    let state = stream.packets[0].get("state").unwrap();
    assert_eq!(state.get("enabled"), Some(&Json::Bool(false)));
}
