//! JSON values: field lookup, duplication, and the node-encoding helpers.

use devtools_server::actors::node::{NodeInfo, ascii_lower_str, encode_node_info,
    wants_inline_child};
use devtools_server::json::Json;
use devtools_server::registry::ActorRegistry;

#[test]
fn object_lookup_takes_the_first_binding() {
    let obj = Json::Obj(vec![
        ("a".to_owned(), Json::Uint(1)),
        ("b".to_owned(), Json::Uint(2)),
        ("a".to_owned(), Json::Uint(3)),
    ]);
    assert_eq!(obj.get("a"), Some(&Json::Uint(1)));
    assert_eq!(obj.get("b"), Some(&Json::Uint(2)));
    assert_eq!(obj.get("c"), None);
    assert_eq!(obj.get_uint("a"), Some(1));
}

#[test]
fn duplication_is_deep_equality() {
    let value = Json::Obj(vec![
        ("items".to_owned(), Json::Arr(vec![Json::Null, Json::Bool(true), Json::Int(-4)])),
        ("name".to_owned(), Json::Str("walker1".to_owned())),
    ]);
    assert_eq!(value.dup(), value);
}

#[test]
fn ascii_lowering() {
    assert_eq!(ascii_lower_str("DIV"), "div");
    assert_eq!(ascii_lower_str("a-Mixed_NAME9"), "a-mixed_name9");
}

fn node(unique_id: &str, name: &str, children: u64) -> NodeInfo {
    NodeInfo {
        unique_id: unique_id.to_owned(),
        host: None,
        base_uri: "https://example.test/".to_owned(),
        node_type: 1,
        node_name: name.to_owned(),
        node_value: None,
        num_children: children,
        attrs: vec![("id".to_owned(), "main".to_owned())],
        is_top_level_document: false,
        is_displayed: true,
        is_shadow_host: false,
        shadow_root_mode: None,
        display: Some("block".to_owned()),
        parent: String::new(),
        doctype_name: None,
        doctype_public_identifier: None,
        doctype_system_identifier: None,
    }
}

#[test]
fn encoding_a_node_registers_exactly_one_wrapper() {
    let mut registry = ActorRegistry::new();
    let first = encode_node_info(&mut registry, node("dom-1", "DIV", 0), "walker0", None)
        .expect("encodes");
    assert_eq!(first.display_name, "div");
    // The wrapper becomes visible at the end of the pass.
    registry.end_pass();
    // Encoding the same underlying node again reuses the wrapper.
    let second = encode_node_info(&mut registry, node("dom-1", "DIV", 0), "walker0", None)
        .expect("encodes");
    assert_eq!(first.actor, second.actor);
    assert_eq!(registry.actor_to_script(&first.actor), "dom-1");
}

#[test]
fn a_small_text_child_travels_inline() {
    let mut registry = ActorRegistry::new();
    let mut text_child = node("dom-text", "#text", 0);
    text_child.node_type = 3;
    text_child.node_value = Some("hi".to_owned());
    let parent = node("dom-parent", "P", 1);
    assert!(wants_inline_child(&parent));
    let msg = encode_node_info(&mut registry, parent, "walker0", Some(text_child))
        .expect("encodes");
    assert!(msg.body.get("inlineTextChild").is_some());

    // An element child is not shown inline.
    let mut registry = ActorRegistry::new();
    let element_child = node("dom-el", "SPAN", 0);
    let parent = node("dom-parent2", "P", 1);
    let msg = encode_node_info(&mut registry, parent, "walker0", Some(element_child))
        .expect("encodes");
    assert!(msg.body.get("inlineTextChild").is_none());
}
