//! The resource broadcaster and the navigation lifecycle: every attached
//! stream hears the same notifications, snapshots strictly before updates.

use devtools_server::actor::{ActorHandler, BrowsingContextActor};
use devtools_server::actors::browsing_context::NavigationState;
use devtools_server::actors::network_event::{DevtoolsHttpRequest, NetworkEventActor};
use devtools_server::json::Json;
use devtools_server::name::ActorKind;
use devtools_server::network_handler::{NetworkEvent, handle_network_event};
use devtools_server::page::PipelineId;
use devtools_server::registry::ActorRegistry;
use devtools_server::stream::StreamBuf;

fn str_field(packet: &Json, key: &str) -> String {
    match packet.get(key) {
        Some(Json::Str(s)) => s.clone(),
        other => panic!("expected string under {key}, found {other:?}"),
    }
}

fn sample_request() -> DevtoolsHttpRequest {
    DevtoolsHttpRequest {
        url: "https://example.test/".to_owned(),
        method: "GET".to_owned(),
        headers: vec![("Host".to_owned(), "example.test".to_owned())],
        body: None,
        started_ms: 1_700_000_000_000,
        time_stamp: 1_700_000_000,
        destination: "document".to_owned(),
        cookies: Vec::new(),
        is_xhr: false,
    }
}

fn sample_context(registry: &mut ActorRegistry, streams: Vec<u64>) -> BrowsingContextActor {
    let mut ctx = BrowsingContextActor::new(
        registry,
        "console0".to_owned(),
        1,
        10,
        "title".to_owned(),
        "https://example.test/".to_owned(),
        PipelineId { namespace_id: 1, index: 1 },
        42,
    );
    ctx.streams = streams;
    ctx
}

#[test]
fn network_snapshot_arrives_before_its_update_on_both_streams() {
    let mut registry = ActorRegistry::new();
    let name = registry.reserve_name(ActorKind::NetworkEvent);
    let actor = NetworkEventActor::new(name.clone(), 99, "watcher0".to_owned());
    registry.install(name.clone(), ActorHandler::NetworkEvent(actor));

    let mut connections = vec![StreamBuf::new(1), StreamBuf::new(2)];
    let result = handle_network_event(
        &mut registry,
        &name,
        &mut connections,
        NetworkEvent::HttpRequest { request: sample_request(), connect_ms: 3, send_ms: 4 },
    );
    assert!(result.is_ok());
    for stream in &connections {
        assert_eq!(stream.packets.len(), 2);
        assert_eq!(str_field(&stream.packets[0], "type"), "resources-available-array");
        assert_eq!(str_field(&stream.packets[1], "type"), "resources-updated-array");
        assert_eq!(str_field(&stream.packets[0], "from"), "watcher0");
        assert_eq!(str_field(&stream.packets[1], "from"), "watcher0");
    }

    // Later activity earns only an update, after the snapshot.
    let result = handle_network_event(
        &mut registry,
        &name,
        &mut connections,
        NetworkEvent::SecurityInfo { security_info: None },
    );
    assert!(result.is_ok());
    for stream in &connections {
        assert_eq!(stream.packets.len(), 3);
        assert_eq!(str_field(&stream.packets[2], "type"), "resources-updated-array");
    }
}

#[test]
fn navigation_events_arrive_in_document_order_on_both_streams() {
    let mut registry = ActorRegistry::new();
    let ctx = sample_context(&mut registry, vec![1, 2]);
    let name = ctx.name.clone();
    registry.install(name.clone(), ActorHandler::BrowsingContext(ctx));

    let mut streams = vec![StreamBuf::new(1), StreamBuf::new(2)];
    let mut ctx = match registry.store.take(&name) {
        Some(ActorHandler::BrowsingContext(c)) => c,
        _ => panic!("target lost"),
    };
    ctx.navigate(
        NavigationState::Start { url: "https://example.test/next".to_owned() },
        Some(43),
        1000,
        &mut streams,
    );
    ctx.navigate(
        NavigationState::Stop {
            pipeline_id: PipelineId { namespace_id: 1, index: 2 },
            title: "next".to_owned(),
            url: "https://example.test/next".to_owned(),
        },
        Some(43),
        2000,
        &mut streams,
    );
    registry.install(name, ActorHandler::BrowsingContext(ctx));

    for stream in &streams {
        // will-navigate and dom-loading, then the interactive/complete pair.
        assert_eq!(stream.packets.len(), 3);
        let names: Vec<String> = stream
            .packets
            .iter()
            .map(|p| {
                let array = p.get("array").unwrap();
                let entry = match array {
                    Json::Arr(items) => &items[0],
                    _ => panic!("array field not an array"),
                };
                let payloads = match entry {
                    Json::Arr(pair) => &pair[1],
                    _ => panic!("entry not an array"),
                };
                match payloads {
                    Json::Arr(events) => str_field(&events[0], "name"),
                    _ => panic!("payloads not an array"),
                }
            })
            .collect();
        assert_eq!(names[0], "will-navigate");
        assert_eq!(names[1], "dom-loading");
        assert_eq!(names[2], "dom-interactive");
        // The dom-loading notification sits strictly before the pair that
        // ends the navigation, on every stream.
    }

    // A stream that is not attached hears nothing.
    let mut registry = ActorRegistry::new();
    let ctx2 = sample_context(&mut registry, vec![1]);
    let mut ctx2 = ctx2;
    let mut streams = vec![StreamBuf::new(1), StreamBuf::new(9)];
    ctx2.navigate(
        NavigationState::Start { url: "https://example.test/a".to_owned() },
        None,
        5,
        &mut streams,
    );
    assert_eq!(streams[0].packets.len(), 1);
    assert!(streams[1].packets.is_empty());
}

#[test]
fn network_event_for_a_missing_or_mismatched_actor_fails() {
    let mut registry = ActorRegistry::new();
    let mut connections = vec![StreamBuf::new(1)];
    // No such actor.
    let result = handle_network_event(
        &mut registry,
        "network-event9",
        &mut connections,
        NetworkEvent::SecurityInfo { security_info: None },
    );
    assert!(result.is_err());
    assert!(connections[0].packets.is_empty());
    // An identifier bound to a different kind of actor.
    let name = registry.register(
        ActorKind::Root,
        devtools_server::actor::ActorHandler::Root(devtools_server::actor::RootActor {}),
    );
    let result = handle_network_event(
        &mut registry,
        &name,
        &mut connections,
        NetworkEvent::SecurityInfo { security_info: None },
    );
    assert!(result.is_err());
    assert!(connections[0].packets.is_empty());
}

#[test]
fn cleanup_sheds_a_stream_and_tells_the_page_on_the_last_one() {
    let mut registry = ActorRegistry::new();
    let ctx = sample_context(&mut registry, vec![1, 2]);
    let name = ctx.name.clone();
    registry.install(name.clone(), ActorHandler::BrowsingContext(ctx));

    let commands = registry.cleanup(1);
    assert!(commands.is_empty());
    let commands = registry.cleanup(2);
    assert_eq!(commands.len(), 1);
    // Cleaning the same stream again changes nothing more.
    let commands = registry.cleanup(2);
    assert!(commands.is_empty());
}

#[test]
fn encoding_round_trips_the_identifier() {
    let mut registry = ActorRegistry::new();
    let ctx = sample_context(&mut registry, Vec::new());
    let name = ctx.name.clone();
    let tab_name = ctx.tab.clone();
    let encoded = ctx.encode();
    assert_eq!(str_field(&encoded, "actor"), name);
    registry.install(name.clone(), ActorHandler::BrowsingContext(ctx));

    // The tab descriptor reads its description off the target.
    let tab = match registry.get(&tab_name) {
        Some(ActorHandler::Tab(t)) => t,
        _ => panic!("tab descriptor lost"),
    };
    let msg = tab.encode(tab_name.clone(), &registry).expect("tab encodes");
    assert_eq!(msg.actor(), tab_name);
    assert_eq!(msg.browser_id(), 1);
    let as_json = msg.to_json();
    assert_eq!(str_field(&as_json, "actor"), tab_name);

    // An object actor's wire form names the actor it was encoded under.
    let object = devtools_server::actor::ObjectActor { uuid: "u1".to_owned() };
    let encoded = object.encode("object7".to_owned());
    assert_eq!(str_field(&encoded, "actor"), "object7");
}
