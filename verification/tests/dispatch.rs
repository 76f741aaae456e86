//! The protocol dispatcher: routing, error replies, and the two-phase
//! visibility of deferred registrations and removals.

use devtools_server::actor::{ActorHandler, ObjectActor, PreferenceActor, RootActor, ThreadActor};
use devtools_server::error::ActorError;
use devtools_server::json::Json;
use devtools_server::name::ActorKind;
use devtools_server::registry::{ActorRegistry, DispatchOutcome};
use devtools_server::stream::StreamBuf;

fn message(to: &str, msg_type: &str) -> Json {
    Json::Obj(vec![
        ("to".to_owned(), Json::Str(to.to_owned())),
        ("type".to_owned(), Json::Str(msg_type.to_owned())),
    ])
}

fn field<'a>(packet: &'a Json, key: &str) -> &'a Json {
    packet.get(key).expect("field missing")
}

fn str_field(packet: &Json, key: &str) -> String {
    match field(packet, key) {
        Json::Str(s) => s.clone(),
        other => panic!("expected string under {key}, found {other:?}"),
    }
}

#[test]
fn error_names_are_the_protocol_names() {
    assert_eq!(ActorError::MissingParameter.name(), "missingParameter");
    assert_eq!(ActorError::BadParameterType.name(), "badParameterType");
    assert_eq!(ActorError::UnrecognizedPacketType.name(), "unrecognizedPacketType");
    assert_eq!(ActorError::Internal.name(), "");
}

#[test]
fn message_without_destination_is_dropped() {
    let mut registry = ActorRegistry::new();
    let mut stream = StreamBuf::new(1);
    let msg = Json::Obj(vec![("type".to_owned(), Json::Str("listFrames".to_owned()))]);
    let outcome = registry.handle_message(&msg, &mut stream, 1);
    assert!(matches!(outcome, DispatchOutcome::Malformed));
    assert!(stream.packets.is_empty());
}

#[test]
fn unknown_destination_earns_exactly_one_no_such_actor_reply() {
    let mut registry = ActorRegistry::new();
    let mut stream = StreamBuf::new(1);
    let outcome = registry.handle_message(&message("ghost9", "listFrames"), &mut stream, 1);
    assert!(matches!(outcome, DispatchOutcome::NoSuchActor));
    assert_eq!(stream.packets.len(), 1);
    assert_eq!(str_field(&stream.packets[0], "from"), "ghost9");
    assert_eq!(str_field(&stream.packets[0], "error"), "noSuchActor");
    // No other side effect: nothing was installed or staged.
    assert!(registry.get("ghost9").is_none());
    assert!(registry.new_actors.is_empty());
    assert!(registry.old_actors.is_empty());
}

#[test]
fn singleton_target_rejects_unsupported_operation() {
    let mut registry = ActorRegistry::new();
    let name = registry.register(ActorKind::Root, ActorHandler::Root(RootActor {}));
    assert_eq!(name, "target0");
    let mut stream = StreamBuf::new(1);
    let outcome = registry.handle_message(&message("target0", "listFrames"), &mut stream, 1);
    assert!(matches!(
        outcome,
        DispatchOutcome::HandlerError(devtools_server::error::ActorError::UnrecognizedPacketType)
    ));
    assert_eq!(stream.packets.len(), 1);
    assert_eq!(str_field(&stream.packets[0], "from"), "target0");
    assert_eq!(str_field(&stream.packets[0], "error"), "unrecognizedPacketType");
}

#[test]
fn deferred_removal_is_observable_only_after_the_pass() {
    let mut registry = ActorRegistry::new();
    let name = registry.register(
        ActorKind::Object,
        ActorHandler::Object(ObjectActor { uuid: "obj-1".to_owned() }),
    );
    registry.drop_actor_later(name.clone());
    // Still visible while the pass is open.
    assert!(registry.get(&name).is_some());
    // The dispatch pass that runs next still resolves the actor: it answers
    // (here with an error, since objects handle nothing) rather than
    // noSuchActor...
    let mut stream = StreamBuf::new(1);
    let outcome = registry.handle_message(&message(&name, "ping"), &mut stream, 1);
    assert!(matches!(outcome, DispatchOutcome::HandlerError(_)));
    assert_eq!(str_field(&stream.packets[0], "error"), "unrecognizedPacketType");
    // ...and once that pass completed, the removal has been applied.
    assert!(registry.get(&name).is_none());
}

#[test]
fn lazily_registered_actor_is_visible_to_the_very_next_pass() {
    let mut registry = ActorRegistry::new();
    let name = registry.reserve_name(ActorKind::Thread);
    registry.register_deferred(
        name.clone(),
        ActorHandler::Thread(ThreadActor { source_actor_names: Vec::new() }),
    );
    // Not visible during the pass that created it.
    assert!(registry.get(&name).is_none());
    // A dispatch pass completes (here: noSuchActor for a ghost), applying
    // the deferred registration.
    let mut stream = StreamBuf::new(1);
    let _ = registry.handle_message(&message("ghost1", "x"), &mut stream, 1);
    assert!(registry.get(&name).is_some());
}

#[test]
fn handler_staged_registration_appears_after_its_own_pass() {
    let mut registry = ActorRegistry::new();
    let accessibility = registry.register(
        ActorKind::Accessibility,
        ActorHandler::Accessibility(devtools_server::actor::AccessibilityActor {
            name: String::new(),
        }),
    );
    let mut stream = StreamBuf::new(1);
    let outcome = registry.handle_message(&message(&accessibility, "getSimulator"), &mut stream, 1);
    assert!(matches!(outcome, DispatchOutcome::Replied(_)));
    let simulator = field(&stream.packets[0], "simulator");
    let simulator_name = str_field(simulator, "actor");
    // The simulator the reply names exists now that the pass is over.
    assert!(registry.get(&simulator_name).is_some());
}

#[test]
fn preference_reads() {
    let mut registry = ActorRegistry::new();
    let name = registry.register(
        ActorKind::Preference,
        ActorHandler::Preference(PreferenceActor { service_workers_enabled: true }),
    );
    // The mapped preference returns the embedder's value.
    let mut stream = StreamBuf::new(1);
    let msg = Json::Obj(vec![
        ("to".to_owned(), Json::Str(name.clone())),
        ("type".to_owned(), Json::Str("getBoolPref".to_owned())),
        ("value".to_owned(), Json::Str("dom.serviceWorkers.enabled".to_owned())),
    ]);
    let _ = registry.handle_message(&msg, &mut stream, 1);
    assert_eq!(field(&stream.packets[0], "value"), &Json::Bool(true));

    // A missing `value` field is a missing parameter.
    let mut stream = StreamBuf::new(1);
    let _ = registry.handle_message(&message(&name, "getBoolPref"), &mut stream, 1);
    assert_eq!(str_field(&stream.packets[0], "error"), "missingParameter");

    // A non-string `value` field has the wrong type.
    let mut stream = StreamBuf::new(1);
    let msg = Json::Obj(vec![
        ("to".to_owned(), Json::Str(name.clone())),
        ("type".to_owned(), Json::Str("getBoolPref".to_owned())),
        ("value".to_owned(), Json::Uint(3)),
    ]);
    let _ = registry.handle_message(&msg, &mut stream, 1);
    assert_eq!(str_field(&stream.packets[0], "error"), "badParameterType");

    // An unmapped preference read of each supported type gets its default.
    let mut stream = StreamBuf::new(1);
    let msg = Json::Obj(vec![
        ("to".to_owned(), Json::Str(name.clone())),
        ("type".to_owned(), Json::Str("getIntPref".to_owned())),
        ("value".to_owned(), Json::Str("layout.tabs".to_owned())),
    ]);
    let _ = registry.handle_message(&msg, &mut stream, 1);
    assert_eq!(field(&stream.packets[0], "value"), &Json::Int(0));
}

#[test]
fn internal_fault_is_reported_under_the_empty_name() {
    let mut registry = ActorRegistry::new();
    let name = registry.reserve_name(ActorKind::NetworkEvent);
    let actor = devtools_server::actors::network_event::NetworkEventActor::new(
        name.clone(),
        7,
        "watcher0".to_owned(),
    );
    registry.install(name.clone(), ActorHandler::NetworkEvent(actor));
    // Asking about a request that was never observed is an internal fault,
    // reported under the reserved empty error name.
    let mut stream = StreamBuf::new(1);
    let _ = registry.handle_message(&message(&name, "getRequestCookies"), &mut stream, 1);
    assert_eq!(str_field(&stream.packets[0], "from"), name);
    assert_eq!(str_field(&stream.packets[0], "error"), "");
}

#[test]
fn long_string_substring() {
    let mut registry = ActorRegistry::new();
    let name = registry.register(
        ActorKind::LongString,
        ActorHandler::LongString(devtools_server::actor::LongStringActor {
            full_string: "hello world".to_owned(),
        }),
    );
    let mut stream = StreamBuf::new(1);
    let msg = Json::Obj(vec![
        ("to".to_owned(), Json::Str(name.clone())),
        ("type".to_owned(), Json::Str("substring".to_owned())),
        ("start".to_owned(), Json::Uint(0)),
        ("end".to_owned(), Json::Uint(5)),
    ]);
    let _ = registry.handle_message(&msg, &mut stream, 1);
    assert_eq!(str_field(&stream.packets[0], "substring"), "hello");

    // A reversed range selects nothing.
    let mut stream = StreamBuf::new(1);
    let msg = Json::Obj(vec![
        ("to".to_owned(), Json::Str(name.clone())),
        ("type".to_owned(), Json::Str("substring".to_owned())),
        ("start".to_owned(), Json::Uint(8)),
        ("end".to_owned(), Json::Uint(2)),
    ]);
    let _ = registry.handle_message(&msg, &mut stream, 1);
    assert_eq!(str_field(&stream.packets[0], "substring"), "");
}

#[test]
fn missing_operation_name_earns_missing_parameter() {
    let mut registry = ActorRegistry::new();
    let name = registry.register(ActorKind::Root, ActorHandler::Root(RootActor {}));
    let mut stream = StreamBuf::new(1);
    let msg = Json::Obj(vec![("to".to_owned(), Json::Str(name.clone()))]);
    let outcome = registry.handle_message(&msg, &mut stream, 1);
    assert!(matches!(
        outcome,
        DispatchOutcome::HandlerError(devtools_server::error::ActorError::MissingParameter)
    ));
    assert_eq!(str_field(&stream.packets[0], "from"), name);
    assert_eq!(str_field(&stream.packets[0], "error"), "missingParameter");

    // A non-string operation name has the wrong type.
    let mut stream = StreamBuf::new(1);
    let msg = Json::Obj(vec![
        ("to".to_owned(), Json::Str(name.clone())),
        ("type".to_owned(), Json::Uint(7)),
    ]);
    let outcome = registry.handle_message(&msg, &mut stream, 1);
    assert!(matches!(
        outcome,
        DispatchOutcome::HandlerError(devtools_server::error::ActorError::BadParameterType)
    ));
    assert_eq!(str_field(&stream.packets[0], "error"), "badParameterType");

    // A non-string destination is malformed input: dropped, no reply.
    let mut stream = StreamBuf::new(1);
    let msg = Json::Obj(vec![("to".to_owned(), Json::Uint(1))]);
    let outcome = registry.handle_message(&msg, &mut stream, 1);
    assert!(matches!(outcome, DispatchOutcome::Malformed));
    assert!(stream.packets.is_empty());
}

#[test]
fn script_actor_bindings_are_bidirectional_and_unique() {
    let mut registry = ActorRegistry::new();
    let first = ObjectActor::register(&mut registry, "node-uuid-1".to_owned());
    // Asking again for the same script identity returns the same wrapper.
    let second = ObjectActor::register(&mut registry, "node-uuid-1".to_owned());
    assert_eq!(first, second);
    assert!(registry.script_actor_registered("node-uuid-1"));
    assert_eq!(registry.script_to_actor("node-uuid-1"), first);
    assert_eq!(registry.actor_to_script(&first), "node-uuid-1");
    // The empty identity maps to the empty identifier.
    assert_eq!(registry.script_to_actor(""), "");
}
