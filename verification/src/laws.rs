//! The laws this library promises, stated once and proved.
//!
//! Each law speaks over the spec functions the public contracts use, so a
//! caller can combine it with those contracts without reading any body.

use vstd::prelude::*;

use crate::actor::ActorHandler;
use crate::json::{JVal, jget_str};
use crate::name::{ActorKind, is_singleton, name_for, lemma_names_unique,
    lemma_singleton_name_distinct};
use crate::registry::{apply_pending, apply_new, apply_old, lemma_apply_new_last,
    lemma_apply_new_untouched, lemma_apply_old_removed, lemma_apply_old_untouched};
use crate::resource::{ResourceArrayType, resource_packet};

verus! {

/// Within one registry, the allocator never hands the same identifier out
/// twice: identifiers issued at different counter values differ, whatever
/// the kinds, and an allocated identifier never collides with the
/// singleton's fixed identifier.
pub proof fn law_new_name_never_reissued(k1: ActorKind, k2: ActorKind, n1: nat, n2: nat)
    requires
        n1 != n2,
    ensures
        !is_singleton(k1) && !is_singleton(k2) ==> name_for(k1, n1) != name_for(k2, n2),
        is_singleton(k1) && !is_singleton(k2) ==> name_for(k1, n1) != name_for(k2, n2),
{
    if !is_singleton(k1) && !is_singleton(k2) {
        lemma_names_unique(k1, k2, n1, n2);
    }
    if is_singleton(k1) && !is_singleton(k2) {
        lemma_singleton_name_distinct(k1, k2, n2);
    }
}

/// A singleton kind always receives the same fixed identifier, whatever the
/// counter holds.
pub proof fn law_singleton_name_fixed(kind: ActorKind, n1: nat, n2: nat)
    requires
        is_singleton(kind),
    ensures
        name_for(kind, n1) == name_for(kind, n2),
{
}

/// An actor staged for removal stays visible through the pass that staged
/// it — staging changes no binding — and is gone once the pass's deferred
/// changes apply, whatever else the pass staged.
pub proof fn law_deferred_removal(
    m: Map<Seq<char>, ActorHandler>,
    adds: Seq<(String, ActorHandler)>,
    removes: Seq<String>,
    i: int,
)
    requires
        0 <= i < removes.len(),
    ensures
        !apply_pending(m, adds, removes).contains_key(removes[i]@),
{
    lemma_apply_old_removed(apply_new(m, adds), removes, i);
}

/// An actor staged for insertion is invisible during the pass that staged
/// it — staging changes no binding — and is bound exactly to the staged
/// handler once the pass's deferred changes apply, provided nothing later
/// rebinds or removes its identifier.
pub proof fn law_deferred_registration(
    m: Map<Seq<char>, ActorHandler>,
    adds: Seq<(String, ActorHandler)>,
    removes: Seq<String>,
    i: int,
)
    requires
        0 <= i < adds.len(),
        forall|j: int| i < j < adds.len() ==> (#[trigger] adds[j]).0@ != adds[i].0@,
        forall|j: int| 0 <= j < removes.len() ==> (#[trigger] removes[j])@ != adds[i].0@,
    ensures
        apply_pending(m, adds, removes).contains_key(adds[i].0@),
        apply_pending(m, adds, removes)[adds[i].0@] == adds[i].1,
{
    lemma_apply_new_last(m, adds, i);
    lemma_apply_old_untouched(apply_new(m, adds), removes, adds[i].0@);
}

/// An identifier that neither the staged insertions nor the staged removals
/// name keeps its binding across a whole pass.
pub proof fn law_pass_preserves_others(
    m: Map<Seq<char>, ActorHandler>,
    adds: Seq<(String, ActorHandler)>,
    removes: Seq<String>,
    k: Seq<char>,
)
    requires
        forall|j: int| 0 <= j < adds.len() ==> (#[trigger] adds[j]).0@ != k,
        forall|j: int| 0 <= j < removes.len() ==> (#[trigger] removes[j])@ != k,
    ensures
        apply_pending(m, adds, removes).contains_key(k) == m.contains_key(k),
        m.contains_key(k) ==> apply_pending(m, adds, removes)[k] == m[k],
{
    lemma_apply_new_untouched(m, adds, k);
    lemma_apply_old_untouched(apply_new(m, adds), removes, k);
}

/// On any stream that hears a resource's Available framing and then its
/// Updated framing, the snapshot sits strictly before the update.
pub proof fn law_snapshot_precedes_update(
    pre: Seq<JVal>,
    w: Seq<char>,
    resource_type: Seq<char>,
    ev: JVal,
    up: JVal,
)
    ensures
        exists|a: int, b: int|
            0 <= a < b < (pre + seq![
                resource_packet(w, resource_type, ResourceArrayType::Available, seq![ev]),
                resource_packet(w, resource_type, ResourceArrayType::Updated, seq![up]),
            ]).len() && (pre + seq![
                resource_packet(w, resource_type, ResourceArrayType::Available, seq![ev]),
                resource_packet(w, resource_type, ResourceArrayType::Updated, seq![up]),
            ])[a] == resource_packet(w, resource_type, ResourceArrayType::Available, seq![ev])
                && (pre + seq![
                resource_packet(w, resource_type, ResourceArrayType::Available, seq![ev]),
                resource_packet(w, resource_type, ResourceArrayType::Updated, seq![up]),
            ])[b] == resource_packet(w, resource_type, ResourceArrayType::Updated, seq![up]),
{
    let pair = seq![
        resource_packet(w, resource_type, ResourceArrayType::Available, seq![ev]),
        resource_packet(w, resource_type, ResourceArrayType::Updated, seq![up]),
    ];
    let out = pre + pair;
    assert(out[pre.len() as int] == pair[0]);
    assert(out[pre.len() as int + 1] == pair[1]);
}

/// Encoding an object actor to its wire form and reading the actor-id
/// field back yields the identifier the encoding was made under.
pub proof fn law_encode_round_trip_object(actor: Seq<char>)
    ensures
        jget_str(crate::actors::object::object_actor_msg_val(actor), "actor"@) == Some(actor),
{
    let v = crate::actors::object::object_actor_msg_val(actor);
    assert(v->Obj_0[0].0 == "actor"@);
}

/// Encoding a browsing-context target to its wire form and reading the
/// actor-id field back yields the target's identifier.
pub proof fn law_encode_round_trip_target(ctx: crate::actor::BrowsingContextActor)
    ensures
        jget_str(
            crate::actors::browsing_context::browsing_context_msg_val(ctx),
            "actor"@,
        ) == Some(ctx.name@),
{
    let cv = crate::actors::browsing_context::browsing_context_msg_val(ctx);
    assert(cv->Obj_0[0].0 == "actor"@);
}

/// Encoding a tab descriptor to its wire form and reading the actor-id
/// field back yields the identifier the encoding was made under.
pub proof fn law_encode_round_trip_tab(
    actor: Seq<char>,
    browser_id: u32,
    browsing_context_id: u32,
    is_zombie_tab: bool,
    outer_window_id: u32,
    selected: bool,
    title: Seq<char>,
    url: Seq<char>,
)
    ensures
        jget_str(
            crate::actors::tab::tab_descriptor_msg_val(
                actor,
                browser_id,
                browsing_context_id,
                is_zombie_tab,
                outer_window_id,
                selected,
                title,
                url,
            ),
            "actor"@,
        ) == Some(actor),
{
    let v = crate::actors::tab::tab_descriptor_msg_val(
        actor,
        browser_id,
        browsing_context_id,
        is_zombie_tab,
        outer_window_id,
        selected,
        title,
        url,
    );
    assert(v->Obj_0[0].0 == "actor"@);
}

} // verus!
