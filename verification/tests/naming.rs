//! The name allocator: uniqueness and the singleton's fixed identifier.

use devtools_server::name::{ActorKind, NameAllocator, decimal_string};

#[test]
fn decimal_rendering_is_exact() {
    assert_eq!(decimal_string(0), "0");
    assert_eq!(decimal_string(7), "7");
    assert_eq!(decimal_string(10), "10");
    assert_eq!(decimal_string(12345), "12345");
    assert_eq!(decimal_string(u64::MAX), "18446744073709551615");
}

#[test]
fn names_are_never_reissued() {
    let mut alloc = NameAllocator::new();
    let mut seen: Vec<String> = Vec::new();
    let kinds = [
        ActorKind::BrowsingContext,
        ActorKind::Tab,
        ActorKind::Thread,
        ActorKind::LongString,
        ActorKind::Object,
        ActorKind::Walker,
        ActorKind::Node,
        ActorKind::Object,
        ActorKind::Thread,
        ActorKind::Thread,
    ];
    for kind in kinds {
        let name = alloc.new_name(kind);
        assert!(!seen.contains(&name), "identifier {name} issued twice");
        seen.push(name);
    }
}

#[test]
fn names_carry_base_and_counter() {
    let mut alloc = NameAllocator::new();
    assert_eq!(alloc.new_name(ActorKind::Thread), "thread0");
    assert_eq!(alloc.new_name(ActorKind::Walker), "walker1");
    assert_eq!(alloc.new_name(ActorKind::Thread), "thread2");
}

#[test]
fn singleton_always_gets_the_fixed_identifier() {
    let mut alloc = NameAllocator::new();
    assert_eq!(alloc.new_name(ActorKind::Root), "target0");
    let _ = alloc.new_name(ActorKind::Thread);
    assert_eq!(alloc.new_name(ActorKind::Root), "target0");
    assert_eq!(alloc.new_name(ActorKind::Root), "target0");
}

#[test]
fn allocated_names_never_collide_with_the_singleton() {
    let mut alloc = NameAllocator::new();
    for _ in 0..50 {
        let name = alloc.new_name(ActorKind::Tab);
        assert_ne!(name, "target0");
    }
}
