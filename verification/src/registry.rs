//! The actor registry: the facade over the name allocator and the actor
//! store.
//!
//! Beyond raw storage it owns the deferred-registration buffers, the
//! script-object bindings, and the per-page auxiliary indices, and it runs
//! the protocol dispatcher. Structural changes requested while a message is
//! being handled are staged and take effect only when the pass ends, so no
//! lookup mid-pass observes a half-constructed or half-torn-down actor.

use vstd::prelude::*;

use crate::actor::{ActorHandler, HandlerStep, cleans_to, handler_cleanup, handle_message};
use crate::error::ActorError;
use crate::json::{Json, JVal, jget, jget_str, jobj2, mk_obj2};
use crate::page::{PageCommand, PageRequest};
use crate::stream::{StreamBuf, StreamId};
use crate::name::{ActorKind, NameAllocator, is_singleton, name_for};
use crate::page::PipelineId;
use crate::store::{ActorStore, keys_unique, shard_map, shard_of, lemma_shard_map_at,
    lemma_shard_map_contains, lemma_shard_map_push, lemma_shard_map_update,
    lemma_shard_map_pointwise};

verus! {

/// The mapping a list of page-keyed entries holds.
pub open spec fn pid_map<V>(s: Seq<(PipelineId, V)>) -> Map<PipelineId, V>
    decreases s.len(),
{
    if s.len() == 0 {
        Map::empty()
    } else {
        pid_map(s.drop_last()).insert(s.last().0, s.last().1)
    }
}

/// Whether the pages of a list of page-keyed entries are pairwise distinct.
pub open spec fn pids_unique<V>(s: Seq<(PipelineId, V)>) -> bool {
    forall|i: int, j: int| 0 <= i < j < s.len() ==> (#[trigger] s[i]).0 != (#[trigger] s[j]).0
}

/// A page-keyed map contains exactly the pages of its entries.
pub proof fn lemma_pid_map_contains<V>(s: Seq<(PipelineId, V)>, k: PipelineId)
    ensures
        pid_map(s).contains_key(k) <==> exists|i: int| 0 <= i < s.len() && (#[trigger] s[i]).0
            == k,
    decreases s.len(),
{
    if s.len() > 0 {
        lemma_pid_map_contains(s.drop_last(), k);
        if s.last().0 == k {
            assert(s[s.len() - 1].0 == k);
        } else {
            if pid_map(s).contains_key(k) {
                let i = choose|i: int| 0 <= i < s.drop_last().len() && (#[trigger] s.drop_last()[i]).0 == k;
                assert(s[i].0 == k);
            }
            if exists|i: int| 0 <= i < s.len() && (#[trigger] s[i]).0 == k {
                let i = choose|i: int| 0 <= i < s.len() && (#[trigger] s[i]).0 == k;
                assert(s.drop_last()[i].0 == k);
            }
        }
    }
}

/// Without repeated pages, the map binds each page to the value beside it.
pub proof fn lemma_pid_map_at<V>(s: Seq<(PipelineId, V)>, i: int)
    requires
        pids_unique(s),
        0 <= i < s.len(),
    ensures
        pid_map(s).contains_key(s[i].0),
        pid_map(s)[s[i].0] == s[i].1,
    decreases s.len(),
{
    lemma_pid_map_contains(s, s[i].0);
    if i < s.len() - 1 {
        assert(s.drop_last()[i] == s[i]);
        lemma_pid_map_at(s.drop_last(), i);
        assert(s[i].0 != s.last().0);
    }
}

/// Appending an entry with a fresh page inserts its binding.
pub proof fn lemma_pid_map_push<V>(s: Seq<(PipelineId, V)>, k: PipelineId, v: V)
    ensures
        pid_map(s.push((k, v))) == pid_map(s).insert(k, v),
{
    assert(s.push((k, v)).drop_last() =~= s);
}

/// Replacing the entry at an index rebinds only its page.
#[verifier::rlimit(30)]
#[verifier::spinoff_prover]
pub proof fn lemma_pid_map_update<V>(s: Seq<(PipelineId, V)>, i: int, k: PipelineId, v: V)
    requires
        pids_unique(s),
        0 <= i < s.len(),
        s[i].0 == k,
    ensures
        pid_map(s.update(i, (k, v))) =~= pid_map(s).insert(k, v),
        pids_unique(s.update(i, (k, v))),
{
    let t = s.update(i, (k, v));
    assert forall|p: PipelineId| #[trigger] pid_map(t).contains_key(p) <==> pid_map(s).insert(
        k,
        v,
    ).contains_key(p) by {
        lemma_pid_map_contains(t, p);
        lemma_pid_map_contains(s, p);
        if pid_map(t).contains_key(p) {
            let ix = choose|ix: int| 0 <= ix < t.len() && (#[trigger] t[ix]).0 == p;
            if ix != i {
                assert(s[ix].0 == p);
            }
        }
        if pid_map(s).contains_key(p) {
            let ix = choose|ix: int| 0 <= ix < s.len() && (#[trigger] s[ix]).0 == p;
            if ix != i {
                assert(t[ix].0 == p);
            }
        }
    }
    assert forall|p: PipelineId| pid_map(t).contains_key(p) implies #[trigger] pid_map(t)[p]
        == pid_map(s).insert(k, v)[p] by {
        lemma_pid_map_contains(t, p);
        let ix = choose|ix: int| 0 <= ix < t.len() && (#[trigger] t[ix]).0 == p;
        lemma_pid_map_at(t, ix);
        if p == k {
            assert(t[i].0 == p);
            lemma_pid_map_at(t, i);
        } else {
            assert(ix != i);
            assert(s[ix].0 == p);
            lemma_pid_map_at(s, ix);
        }
    }
}

/// A sequence is a prefix of itself.
pub broadcast proof fn lemma_prefix_refl<T>(s: Seq<T>)
    ensures
        #[trigger] s.is_prefix_of(s),
{
    assert(s.subrange(0, s.len() as int) =~= s);
}

/// A sequence is a prefix of itself extended by one element.
pub broadcast proof fn lemma_prefix_push<T>(s: Seq<T>, x: T)
    ensures
        s.is_prefix_of(#[trigger] s.push(x)),
{
    assert(s.push(x).subrange(0, s.len() as int) =~= s);
}

/// Being a prefix carries across one further element.
pub broadcast proof fn lemma_prefix_push_trans<T>(a: Seq<T>, s: Seq<T>, x: T)
    ensures
        #![trigger a.is_prefix_of(s), s.push(x)]
        a.is_prefix_of(s) ==> a.is_prefix_of(s.push(x)),
{
    if a.is_prefix_of(s) {
        assert(a =~= s.push(x).subrange(0, a.len() as int));
    }
}

/// The prefix facts the handler contracts lean on.
pub broadcast group group_prefix_lemmas {
    lemma_prefix_refl,
    lemma_prefix_push,
    lemma_prefix_push_trans,
}

/// Deferred insertions, applied in order.
pub open spec fn apply_new(
    m: Map<Seq<char>, ActorHandler>,
    adds: Seq<(String, ActorHandler)>,
) -> Map<Seq<char>, ActorHandler>
    decreases adds.len(),
{
    if adds.len() == 0 {
        m
    } else {
        apply_new(m.insert(adds[0].0@, adds[0].1), adds.drop_first())
    }
}

/// Deferred removals, applied in order.
pub open spec fn apply_old(
    m: Map<Seq<char>, ActorHandler>,
    removes: Seq<String>,
) -> Map<Seq<char>, ActorHandler>
    decreases removes.len(),
{
    if removes.len() == 0 {
        m
    } else {
        apply_old(m.remove(removes[0]@), removes.drop_first())
    }
}

/// What one whole dispatch pass leaves in the store: the staged insertions
/// become visible, then the staged removals are applied.
pub open spec fn apply_pending(
    m: Map<Seq<char>, ActorHandler>,
    adds: Seq<(String, ActorHandler)>,
    removes: Seq<String>,
) -> Map<Seq<char>, ActorHandler> {
    apply_old(apply_new(m, adds), removes)
}

/// An identifier named by no staged insertion keeps its binding across them.
pub proof fn lemma_apply_new_untouched(
    m: Map<Seq<char>, ActorHandler>,
    adds: Seq<(String, ActorHandler)>,
    k: Seq<char>,
)
    requires
        forall|i: int| 0 <= i < adds.len() ==> (#[trigger] adds[i]).0@ != k,
    ensures
        apply_new(m, adds).contains_key(k) == m.contains_key(k),
        m.contains_key(k) ==> apply_new(m, adds)[k] == m[k],
    decreases adds.len(),
{
    if adds.len() > 0 {
        assert(adds[0].0@ != k);
        lemma_apply_new_untouched(m.insert(adds[0].0@, adds[0].1), adds.drop_first(), k);
    }
}

/// An identifier whose last staged insertion binds it to `h` comes out of
/// the staged insertions bound to `h`.
pub proof fn lemma_apply_new_last(
    m: Map<Seq<char>, ActorHandler>,
    adds: Seq<(String, ActorHandler)>,
    i: int,
)
    requires
        0 <= i < adds.len(),
        forall|j: int| i < j < adds.len() ==> (#[trigger] adds[j]).0@ != adds[i].0@,
    ensures
        apply_new(m, adds).contains_key(adds[i].0@),
        apply_new(m, adds)[adds[i].0@] == adds[i].1,
    decreases adds.len(),
{
    if i == 0 {
        lemma_apply_new_untouched(
            m.insert(adds[0].0@, adds[0].1),
            adds.drop_first(),
            adds[0].0@,
        );
    } else {
        assert(adds.drop_first()[i - 1] == adds[i]);
        lemma_apply_new_last(m.insert(adds[0].0@, adds[0].1), adds.drop_first(), i - 1);
    }
}

/// An identifier named by a staged removal is gone after the removals.
pub proof fn lemma_apply_old_removed(
    m: Map<Seq<char>, ActorHandler>,
    removes: Seq<String>,
    i: int,
)
    requires
        0 <= i < removes.len(),
    ensures
        !apply_old(m, removes).contains_key(removes[i]@),
    decreases removes.len(),
{
    if i == 0 {
        lemma_apply_old_untouched_or_gone(m.remove(removes[0]@), removes.drop_first(), removes[0]@);
    } else {
        assert(removes.drop_first()[i - 1] == removes[i]);
        lemma_apply_old_removed(m.remove(removes[0]@), removes.drop_first(), i - 1);
    }
}

/// Removals never add a binding.
pub proof fn lemma_apply_old_untouched_or_gone(
    m: Map<Seq<char>, ActorHandler>,
    removes: Seq<String>,
    k: Seq<char>,
)
    requires
        !m.contains_key(k),
    ensures
        !apply_old(m, removes).contains_key(k),
    decreases removes.len(),
{
    if removes.len() > 0 {
        lemma_apply_old_untouched_or_gone(m.remove(removes[0]@), removes.drop_first(), k);
    }
}

/// An identifier named by no staged removal keeps its binding across them.
pub proof fn lemma_apply_old_untouched(
    m: Map<Seq<char>, ActorHandler>,
    removes: Seq<String>,
    k: Seq<char>,
)
    requires
        forall|i: int| 0 <= i < removes.len() ==> (#[trigger] removes[i])@ != k,
    ensures
        apply_old(m, removes).contains_key(k) == m.contains_key(k),
        m.contains_key(k) ==> apply_old(m, removes)[k] == m[k],
    decreases removes.len(),
{
    if removes.len() > 0 {
        lemma_apply_old_untouched(m.remove(removes[0]@), removes.drop_first(), k);
    }
}

/// Re-binding a routed destination to its own handler covers a pass that
/// did not touch the store: the identity insertion witnesses it.
proof fn lemma_routed_pass_applied(
    m0: Map<Seq<char>, ActorHandler>,
    t: Seq<char>,
    h: ActorHandler,
    adds: Seq<(String, ActorHandler)>,
    removes: Seq<String>,
)
    requires
        m0.contains_key(t),
        m0[t] == h,
    ensures
        apply_pending(m0.insert(t, h).insert(t, h), adds, removes) == apply_pending(
            m0,
            adds,
            removes,
        ),
{
    assert(m0.insert(t, h).insert(t, h) =~= m0);
}

/// After a handler ran on the taken-out destination and the destination was
/// put back, the store is the pre-pass store with at most one foreign
/// rebinding and the destination's binding refreshed.
proof fn lemma_mid_map_shape(
    m0: Map<Seq<char>, ActorHandler>,
    t: Seq<char>,
    m_after_handler: Map<Seq<char>, ActorHandler>,
    h2: ActorHandler,
    m_mid: Map<Seq<char>, ActorHandler>,
)
    requires
        m0.contains_key(t),
        m_mid == m_after_handler.insert(t, h2),
        m_after_handler == m0.remove(t) || (exists|t2: Seq<char>, h3: ActorHandler|
            m_after_handler =~~= #[trigger] m0.remove(t).insert(t2, h3)),
    ensures
        exists|t2: Seq<char>, h3: ActorHandler|
            m_mid =~~= #[trigger] m0.insert(t2, h3).insert(t, h2),
{
    if m_after_handler == m0.remove(t) {
        assert(m_mid =~~= m0.insert(t, h2).insert(t, h2));
    } else {
        let (t2, h3) = choose|t2: Seq<char>, h3: ActorHandler|
            m_after_handler =~~= #[trigger] m0.remove(t).insert(t2, h3);
        if t2 == t {
            assert(m_mid =~~= m0.insert(t, h2).insert(t, h2));
        } else {
            assert(m_mid =~~= m0.insert(t2, h3).insert(t, h2));
        }
    }
}

/// The list of known, owned actors, with its auxiliary indices.
pub struct ActorRegistry {
    /// The live, addressable actors.
    pub store: ActorStore<ActorHandler>,
    /// Actors staged for insertion at the end of the current pass.
    pub new_actors: Vec<(String, ActorHandler)>,
    /// Identifiers staged for removal at the end of the current pass.
    pub old_actors: Vec<String>,
    /// Script identity to actor identifier, one actor per script object.
    pub script_actors: Vec<(String, String)>,
    /// The source actors of each page.
    pub source_actor_names: Vec<(PipelineId, Vec<String>)>,
    /// The inline source text of each page; written once per page.
    pub inline_source_content: Vec<(PipelineId, String)>,
    /// Issues the actor identifiers.
    pub alloc: NameAllocator,
}

impl ActorRegistry {
    /// The live actors, as a map from identifier to handler.
    pub open spec fn actors(&self) -> Map<Seq<char>, ActorHandler> {
        self.store@
    }

    /// The next counter value the allocator will issue.
    pub open spec fn counter(&self) -> nat {
        self.alloc.next as nat
    }

    /// The script-object bindings, as a map from script identity to actor
    /// identifier.
    pub open spec fn script_map(&self) -> Map<Seq<char>, String> {
        shard_map(self.script_actors@)
    }

    /// The source-actor names of each page.
    pub open spec fn sources_map(&self) -> Map<PipelineId, Vec<String>> {
        pid_map(self.source_actor_names@)
    }

    /// The inline source text of each page.
    pub open spec fn inline_map(&self) -> Map<PipelineId, String> {
        pid_map(self.inline_source_content@)
    }

    /// Structural soundness: the store partition is intact and no auxiliary
    /// index binds a key twice.
    pub open spec fn wf(&self) -> bool {
        &&& self.store.wf()
        &&& keys_unique(self.script_actors@)
        &&& pids_unique(self.source_actor_names@)
        &&& pids_unique(self.inline_source_content@)
    }

    /// An empty registry.
    pub fn new() -> (r: ActorRegistry)
        ensures
            r.wf(),
            r.actors() =~= Map::<Seq<char>, ActorHandler>::empty(),
            r.new_actors@.len() == 0,
            r.old_actors@.len() == 0,
            r.script_map() =~= Map::<Seq<char>, String>::empty(),
            r.sources_map() =~= Map::<PipelineId, Vec<String>>::empty(),
            r.inline_map() =~= Map::<PipelineId, String>::empty(),
            r.counter() == 0,
    {
        ActorRegistry {
            store: ActorStore::new(),
            new_actors: Vec::new(),
            old_actors: Vec::new(),
            script_actors: Vec::new(),
            source_actor_names: Vec::new(),
            inline_source_content: Vec::new(),
            alloc: NameAllocator::new(),
        }
    }

    /// Issues a fresh identifier of the given kind without installing
    /// anything under it; the caller hands the name around and installs the
    /// actor later.
    pub fn reserve_name(&mut self, kind: ActorKind) -> (r: String)
        requires
            old(self).counter() < u64::MAX,
        ensures
            r@ == name_for(kind, old(self).counter()),
            is_singleton(kind) ==> final(self).counter() == old(self).counter(),
            !is_singleton(kind) ==> final(self).counter() == old(self).counter() + 1,
            final(self).store == old(self).store,
            final(self).new_actors == old(self).new_actors,
            final(self).old_actors == old(self).old_actors,
            final(self).script_actors == old(self).script_actors,
            final(self).source_actor_names == old(self).source_actor_names,
            final(self).inline_source_content == old(self).inline_source_content,
    {
        self.alloc.new_name(kind)
    }

    /// Adds an actor under a fresh identifier, immediately visible.
    pub fn register(&mut self, kind: ActorKind, handler: ActorHandler) -> (r: String)
        requires
            old(self).wf(),
            old(self).counter() < u64::MAX,
        ensures
            final(self).wf(),
            r@ == name_for(kind, old(self).counter()),
            final(self).actors() =~= old(self).actors().insert(r@, handler),
            is_singleton(kind) ==> final(self).counter() == old(self).counter(),
            !is_singleton(kind) ==> final(self).counter() == old(self).counter() + 1,
            final(self).new_actors == old(self).new_actors,
            final(self).old_actors == old(self).old_actors,
            final(self).script_actors == old(self).script_actors,
            final(self).source_actor_names == old(self).source_actor_names,
            final(self).inline_source_content == old(self).inline_source_content,
    {
        let name = self.alloc.new_name(kind);
        let name_copy = name.clone();
        self.store.insert(name, handler);
        name_copy
    }

    /// Stages an actor for insertion under an already reserved identifier;
    /// it becomes visible to lookups only when the current pass ends.
    pub fn register_deferred(&mut self, name: String, handler: ActorHandler)
        ensures
            final(self).actors() == old(self).actors(),
            final(self).new_actors@ == old(self).new_actors@.push((name, handler)),
            final(self).old_actors == old(self).old_actors,
            final(self).store == old(self).store,
            final(self).script_actors == old(self).script_actors,
            final(self).source_actor_names == old(self).source_actor_names,
            final(self).inline_source_content == old(self).inline_source_content,
            final(self).alloc == old(self).alloc,
    {
        self.new_actors.push((name, handler));
    }

    /// Removes an actor at once.
    pub fn drop_actor(&mut self, name: &str)
        requires
            old(self).wf(),
        ensures
            final(self).wf(),
            final(self).actors() =~= old(self).actors().remove(name@),
            final(self).new_actors == old(self).new_actors,
            final(self).old_actors == old(self).old_actors,
            final(self).script_actors == old(self).script_actors,
            final(self).source_actor_names == old(self).source_actor_names,
            final(self).inline_source_content == old(self).inline_source_content,
            final(self).alloc == old(self).alloc,
    {
        let _ = self.store.take(name);
    }

    /// Stages an actor for removal when the current pass ends; until then it
    /// stays visible to lookups.
    pub fn drop_actor_later(&mut self, name: String)
        ensures
            final(self).actors() == old(self).actors(),
            final(self).old_actors@ == old(self).old_actors@.push(name),
            final(self).new_actors == old(self).new_actors,
            final(self).store == old(self).store,
            final(self).script_actors == old(self).script_actors,
            final(self).source_actor_names == old(self).source_actor_names,
            final(self).inline_source_content == old(self).inline_source_content,
            final(self).alloc == old(self).alloc,
    {
        self.old_actors.push(name);
    }

    /// The handler of an identifier, if one is installed.
    pub fn get<'a>(&'a self, name: &str) -> (r: Option<&'a ActorHandler>)
        requires
            self.wf(),
        ensures
            match r {
                Some(h) => self.actors().contains_key(name@) && self.actors()[name@] == *h,
                None => !self.actors().contains_key(name@),
            },
    {
        self.store.get(name)
    }

    /// Applies the deferred insertions and removals: the end of a dispatch
    /// pass. Staged insertions become visible first, then staged removals
    /// take effect, each exactly once.
    #[verifier::loop_isolation(false)]
    pub fn end_pass(&mut self)
        requires
            old(self).wf(),
        ensures
            final(self).wf(),
            final(self).actors() == apply_pending(
                old(self).actors(),
                old(self).new_actors@,
                old(self).old_actors@,
            ),
            final(self).new_actors@.len() == 0,
            final(self).old_actors@.len() == 0,
            final(self).script_actors == old(self).script_actors,
            final(self).alloc == old(self).alloc,
    {
        let mut adds: Vec<(String, ActorHandler)> = Vec::new();
        core::mem::swap(&mut adds, &mut self.new_actors);
        let ghost all_adds = adds@;
        while adds.len() > 0
            invariant
                self.wf(),
                apply_new(self.actors(), adds@) == apply_new(
                    old(self).actors(),
                    all_adds,
                ),
                self.new_actors@.len() == 0,
                self.old_actors == old(self).old_actors,
                self.script_actors == old(self).script_actors,
                self.source_actor_names == old(self).source_actor_names,
                self.inline_source_content == old(self).inline_source_content,
                self.alloc == old(self).alloc,
            decreases adds@.len(),
        {
            let ghost pre = adds@;
            let (name, handler) = adds.remove(0);
            proof {
                assert(adds@ =~= pre.drop_first());
            }
            self.store.insert(name, handler);
        }
        let mut removes: Vec<String> = Vec::new();
        core::mem::swap(&mut removes, &mut self.old_actors);
        let ghost all_removes = removes@;
        let ghost mid = self.actors();
        while removes.len() > 0
            invariant
                self.wf(),
                apply_old(self.actors(), removes@) == apply_old(mid, all_removes),
                self.new_actors@.len() == 0,
                self.old_actors@.len() == 0,
                self.script_actors == old(self).script_actors,
                self.source_actor_names == old(self).source_actor_names,
                self.inline_source_content == old(self).inline_source_content,
                self.alloc == old(self).alloc,
            decreases removes@.len(),
        {
            let ghost pre = removes@;
            let ghost pre_actors = self.actors();
            let name = removes.remove(0);
            proof {
                assert(removes@ =~= pre.drop_first());
            }
            let taken = self.store.take(name.as_str());
            proof {
                if taken is None {
                    assert(pre_actors.remove(name@) =~= pre_actors);
                }
            }
        }
    }

    /// Binds a script identity to the actor wrapping it; a later binding of
    /// the same identity replaces the earlier one.
    #[verifier::loop_isolation(false)]
    pub fn register_script_actor(&mut self, script_id: String, actor: String)
        requires
            old(self).wf(),
        ensures
            final(self).wf(),
            final(self).script_map() =~= old(self).script_map().insert(script_id@, actor),
            final(self).store == old(self).store,
            final(self).new_actors == old(self).new_actors,
            final(self).old_actors == old(self).old_actors,
            final(self).source_actor_names == old(self).source_actor_names,
            final(self).inline_source_content == old(self).inline_source_content,
            final(self).alloc == old(self).alloc,
    {
        let ghost olds = self.script_actors@;
        let n = self.script_actors.len();
        let mut i: usize = 0;
        while i < n
            invariant
                n == self.script_actors@.len(),
                i <= n,
                *self == *old(self),
                self.script_actors@ == olds,
                forall|j: int| 0 <= j < i ==> (#[trigger] olds[j]).0@ != script_id@,
            decreases n - i,
        {
            if self.script_actors[i].0 == script_id {
                proof {
                    lemma_shard_map_update(olds, i as int, script_id, actor);
                }
                let ghost gid = script_id@;
                self.script_actors[i] = (script_id, actor);
                proof {
                    assert(self.script_actors@ =~= olds.update(
                        i as int,
                        self.script_actors@[i as int],
                    ));
                }
                return ;
            }
            i = i + 1;
        }
        proof {
            lemma_shard_map_push(olds, script_id, actor);
            assert forall|j: int, l: int|
                0 <= j < l < olds.push((script_id, actor)).len() implies (#[trigger] olds.push(
                (script_id, actor),
            )[j]).0@ != (#[trigger] olds.push((script_id, actor))[l]).0@ by {
                if l < olds.len() {
                    assert(olds[j].0@ != olds[l].0@);
                }
            }
        }
        self.script_actors.push((script_id, actor));
    }

    /// The actor bound to a script identity, if any.
    #[verifier::loop_isolation(false)]
    pub fn script_binding<'a>(&'a self, script_id: &str) -> (r: Option<&'a String>)
        requires
            self.wf(),
        ensures
            match r {
                Some(a) => self.script_map().contains_key(script_id@) && self.script_map()[
                    script_id@] == *a,
                None => !self.script_map().contains_key(script_id@),
            },
    {
        let key: String = script_id.to_owned();
        let n = self.script_actors.len();
        let mut i: usize = 0;
        while i < n
            invariant
                n == self.script_actors@.len(),
                i <= n,
                key@ == script_id@,
                forall|j: int| 0 <= j < i ==> (#[trigger] self.script_actors@[j]).0@ != script_id@,
                self.wf(),
            decreases n - i,
        {
            let pair = &self.script_actors[i];
            if pair.0 == key {
                proof {
                    lemma_shard_map_at(self.script_actors@, i as int);
                }
                return Some(&pair.1);
            }
            i = i + 1;
        }
        proof {
            lemma_shard_map_contains(self.script_actors@, script_id@);
        }
        None
    }

    /// Whether a script identity already has a wrapper actor.
    pub fn script_actor_registered(&self, script_id: &str) -> (r: bool)
        requires
            self.wf(),
        ensures
            r == self.script_map().contains_key(script_id@),
    {
        self.script_binding(script_id).is_some()
    }

    /// The actor identifier of a script identity. An empty identity maps to
    /// the empty identifier; any other identity must be bound.
    pub fn script_to_actor(&self, script_id: &str) -> (r: String)
        requires
            self.wf(),
            script_id@.len() == 0 || self.script_map().contains_key(script_id@),
        ensures
            script_id@.len() == 0 ==> r@ == Seq::<char>::empty(),
            script_id@.len() > 0 ==> r@ == self.script_map()[script_id@]@,
    {
        if script_id.is_empty() {
            return String::new();
        }
        match self.script_binding(script_id) {
            Some(a) => a.clone(),
            None => vstd::pervasive::unreached(),
        }
    }

    /// The script identity whose wrapper is the given actor, if one exists.
    /// This is only ever called with identifiers the registry itself
    /// produced, so a miss is a wiring defect, not a protocol error.
    #[verifier::loop_isolation(false)]
    pub fn script_for_actor(&self, actor: &str) -> (r: Option<String>)
        requires
            self.wf(),
        ensures
            match r {
                Some(s) => self.script_map().contains_key(s@) && self.script_map()[s@]@ == actor@,
                None => forall|k: Seq<char>|
                    self.script_map().contains_key(k) ==> (#[trigger] self.script_map()[k])@
                        != actor@,
            },
    {
        let key: String = actor.to_owned();
        let n = self.script_actors.len();
        let mut i: usize = 0;
        while i < n
            invariant
                n == self.script_actors@.len(),
                i <= n,
                key@ == actor@,
                forall|j: int| 0 <= j < i ==> (#[trigger] self.script_actors@[j]).1@ != actor@,
                self.wf(),
            decreases n - i,
        {
            let pair = &self.script_actors[i];
            if pair.1 == key {
                proof {
                    lemma_shard_map_at(self.script_actors@, i as int);
                }
                return Some(pair.0.clone());
            }
            i = i + 1;
        }
        proof {
            assert forall|k: Seq<char>|
                self.script_map().contains_key(k) implies (#[trigger] self.script_map()[k])@
                != actor@ by {
                lemma_shard_map_contains(self.script_actors@, k);
                let ix = choose|ix: int|
                    0 <= ix < self.script_actors@.len() && (#[trigger] self.script_actors@[ix]).0@
                        == k;
                lemma_shard_map_at(self.script_actors@, ix);
            }
        }
        None
    }

    /// The script identity whose wrapper is the given actor; the binding
    /// must exist.
    pub fn actor_to_script(&self, actor: &str) -> (r: String)
        requires
            self.wf(),
            exists|k: Seq<char>|
                self.script_map().contains_key(k) && (#[trigger] self.script_map()[k])@ == actor@,
        ensures
            self.script_map().contains_key(r@),
            self.script_map()[r@]@ == actor@,
    {
        match self.script_for_actor(actor) {
            Some(s) => s,
            None => {
                proof {
                    let k = choose|k: Seq<char>|
                        self.script_map().contains_key(k) && (#[trigger] self.script_map()[k])@
                            == actor@;
                    assert(self.script_map()[k]@ != actor@);
                }
                vstd::pervasive::unreached()
            },
        }
    }

    /// Records one more source actor for a page.
    #[verifier::loop_isolation(false)]
    pub fn register_source_actor(&mut self, pipeline_id: PipelineId, actor_name: &str)
        requires
            old(self).wf(),
        ensures
            final(self).wf(),
            final(self).sources_map().contains_key(pipeline_id),
            final(self).sources_map()[pipeline_id].deep_view() == if old(self).sources_map().contains_key(pipeline_id) {
                old(self).sources_map()[pipeline_id].deep_view().push(actor_name@)
            } else {
                seq![actor_name@]
            },
            forall|p: PipelineId|
                p != pipeline_id ==> (final(self).sources_map().contains_key(p) == old(self).sources_map().contains_key(p) && (old(self).sources_map().contains_key(p)
                    ==> final(self).sources_map()[p] == old(self).sources_map()[p])),
            final(self).store == old(self).store,
            final(self).new_actors == old(self).new_actors,
            final(self).old_actors == old(self).old_actors,
            final(self).script_actors == old(self).script_actors,
            final(self).alloc == old(self).alloc,
    {
        let ghost olds = self.source_actor_names@;
        let n = self.source_actor_names.len();
        let mut i: usize = 0;
        while i < n
            invariant
                n == self.source_actor_names@.len(),
                i <= n,
                *self == *old(self),
                self.source_actor_names@ == olds,
                forall|j: int| 0 <= j < i ==> (#[trigger] olds[j]).0 != pipeline_id,
            decreases n - i,
        {
            if self.source_actor_names[i].0 == pipeline_id {
                proof {
                    lemma_pid_map_at(olds, i as int);
                }
                let ghost prev = self.source_actor_names@[i as int].1;
                let found = &self.source_actor_names[i].1;
                let m = found.len();
                let mut names: Vec<String> = Vec::new();
                let mut j: usize = 0;
                while j < m
                    invariant
                        m == found@.len(),
                        j <= m,
                        names@.len() == j,
                        forall|l: int| 0 <= l < j ==> (#[trigger] names@[l])@ == found@[l]@,
                        found == &self.source_actor_names@[i as int].1,
                        0 <= i < self.source_actor_names@.len(),
                    decreases m - j,
                {
                    names.push(found[j].clone());
                    j = j + 1;
                }
                names.push(actor_name.to_owned());
                proof {
                    assert(names@.len() == prev@.len() + 1);
                    assert(names.deep_view() =~= prev.deep_view().push(actor_name@));
                }
                self.source_actor_names[i] = (pipeline_id, names);
                proof {
                    let updated = self.source_actor_names@[i as int];
                    assert(self.source_actor_names@ =~= olds.update(i as int, updated));
                    lemma_pid_map_update(olds, i as int, pipeline_id, updated.1);
                }
                return ;
            }
            i = i + 1;
        }
        let mut names: Vec<String> = Vec::new();
        names.push(actor_name.to_owned());
        proof {
            assert(names.deep_view() =~= seq![actor_name@]);
        }
        self.source_actor_names.push((pipeline_id, names));
        proof {
            lemma_pid_map_push(olds, pipeline_id, self.source_actor_names@.last().1);
            lemma_pid_map_contains(olds, pipeline_id);
            assert forall|j: int, l: int|
                0 <= j < l < self.source_actor_names@.len() implies (
            #[trigger] self.source_actor_names@[j]).0 != (
            #[trigger] self.source_actor_names@[l]).0 by {
                if l < olds.len() {
                    assert(olds[j].0 != olds[l].0);
                }
            }
        }
    }

    /// The source-actor names recorded for a page; empty if none were.
    #[verifier::loop_isolation(false)]
    pub fn source_actor_names_for_pipeline(&mut self, pipeline_id: PipelineId) -> (r: Vec<String>)
        requires
            old(self).wf(),
        ensures
            *final(self) == *old(self),
            old(self).sources_map().contains_key(pipeline_id) ==> r.deep_view() == old(self).sources_map()[pipeline_id].deep_view(),
            !old(self).sources_map().contains_key(pipeline_id) ==> r@.len() == 0,
    {
        let n = self.source_actor_names.len();
        let mut i: usize = 0;
        while i < n
            invariant
                n == self.source_actor_names@.len(),
                i <= n,
                *self == *old(self),
                forall|j: int|
                    0 <= j < i ==> (#[trigger] self.source_actor_names@[j]).0 != pipeline_id,
                self.wf(),
            decreases n - i,
        {
            if self.source_actor_names[i].0 == pipeline_id {
                proof {
                    lemma_pid_map_at(self.source_actor_names@, i as int);
                }
                let found = &self.source_actor_names[i].1;
                let m = found.len();
                let mut out: Vec<String> = Vec::new();
                let mut j: usize = 0;
                while j < m
                    invariant
                        m == found@.len(),
                        j <= m,
                        out@.len() == j,
                        forall|l: int| 0 <= l < j ==> (#[trigger] out@[l])@ == found@[l]@,
                    decreases m - j,
                {
                    out.push(found[j].clone());
                    j = j + 1;
                }
                proof {
                    assert(out.deep_view() =~= found.deep_view());
                }
                return out;
            }
            i = i + 1;
        }
        proof {
            lemma_pid_map_contains(self.source_actor_names@, pipeline_id);
        }
        Vec::new()
    }

    /// Records a page's inline source text. Each page's text is written
    /// once; writing it again is a wiring defect.
    pub fn set_inline_source_content(&mut self, pipeline_id: PipelineId, content: String)
        requires
            old(self).wf(),
            !old(self).inline_map().contains_key(pipeline_id),
        ensures
            final(self).wf(),
            final(self).inline_map() =~= old(self).inline_map().insert(pipeline_id, content),
            final(self).store == old(self).store,
            final(self).script_actors == old(self).script_actors,
            final(self).new_actors == old(self).new_actors,
            final(self).old_actors == old(self).old_actors,
            final(self).alloc == old(self).alloc,
    {
        let ghost olds = self.inline_source_content@;
        proof {
            lemma_pid_map_push(olds, pipeline_id, content);
            lemma_pid_map_contains(olds, pipeline_id);
        }
        self.inline_source_content.push((pipeline_id, content));
        proof {
            assert forall|j: int, l: int|
                0 <= j < l < self.inline_source_content@.len() implies (
            #[trigger] self.inline_source_content@[j]).0 != (
            #[trigger] self.inline_source_content@[l]).0 by {
                if l < olds.len() {
                    assert(olds[j].0 != olds[l].0);
                }
            }
        }
    }

    /// The inline source text of a page, if one was recorded.
    #[verifier::loop_isolation(false)]
    pub fn inline_source_content(&mut self, pipeline_id: PipelineId) -> (r: Option<String>)
        requires
            old(self).wf(),
        ensures
            *final(self) == *old(self),
            match r {
                Some(c) => old(self).inline_map().contains_key(pipeline_id) && c@ == old(self).inline_map()[pipeline_id]@,
                None => !old(self).inline_map().contains_key(pipeline_id),
            },
    {
        let n = self.inline_source_content.len();
        let mut i: usize = 0;
        while i < n
            invariant
                n == self.inline_source_content@.len(),
                i <= n,
                *self == *old(self),
                forall|j: int|
                    0 <= j < i ==> (#[trigger] self.inline_source_content@[j]).0 != pipeline_id,
                self.wf(),
            decreases n - i,
        {
            if self.inline_source_content[i].0 == pipeline_id {
                proof {
                    lemma_pid_map_at(self.inline_source_content@, i as int);
                }
                return Some(self.inline_source_content[i].1.clone());
            }
            i = i + 1;
        }
        proof {
            lemma_pid_map_contains(self.inline_source_content@, pipeline_id);
        }
        None
    }
}


/// How a dispatch pass ended.
#[derive(Debug)]
pub enum DispatchOutcome {
    /// The message named no destination: it was dropped without a reply.
    Malformed,
    /// The destination is not in the store: the client was told so.
    NoSuchActor,
    /// The destination handled the message; the commands go to the page, no
    /// answer expected.
    Replied(Vec<PageCommand>),
    /// The destination's handler reported a fault, or the message lacked a
    /// usable operation name; the error reply was written.
    HandlerError(ActorError),
    /// The destination needs an answer from the page before it can reply;
    /// the transport performs the round trip, calls the matching completion
    /// function, and ends the pass.
    AwaitPage(PageRequest),
}

/// The reply sent when a message names an absent actor.
pub open spec fn no_such_actor_reply_val(to: Seq<char>) -> JVal {
    jobj2("from"@, JVal::Str(to), "error"@, JVal::Str("noSuchActor"@))
}

/// The reply sent when the destination's handler reports a fault.
pub open spec fn error_reply_val(to: Seq<char>, e: ActorError) -> JVal {
    jobj2("from"@, JVal::Str(to), "error"@, JVal::Str(e.spec_name()))
}

impl ActorRegistry {
    /// Installs an actor under an identifier obtained earlier, immediately
    /// visible.
    pub fn install(&mut self, name: String, handler: ActorHandler)
        requires
            old(self).wf(),
        ensures
            final(self).wf(),
            final(self).actors() =~= old(self).actors().insert(name@, handler),
            final(self).new_actors == old(self).new_actors,
            final(self).old_actors == old(self).old_actors,
            final(self).script_actors == old(self).script_actors,
            final(self).source_actor_names == old(self).source_actor_names,
            final(self).inline_source_content == old(self).inline_source_content,
            final(self).alloc == old(self).alloc,
    {
        self.store.insert(name, handler);
    }

    /// Attempts to process a message as directed by its `to` field. A
    /// message without a destination is dropped. An unknown destination
    /// earns exactly the `noSuchActor` reply. A known destination without a
    /// usable operation name earns the matching parameter error. Otherwise
    /// the destination's handler runs; a handler fault becomes an error
    /// reply from the destination. However the pass ends — handled, unknown
    /// destination, or an error reply — the deferred insertions and removals
    /// staged before and during the pass are applied, in order, exactly
    /// once; only a pass paused on the page applies them later, when its
    /// completion has run.
    pub fn handle_message(
        &mut self,
        msg: &Json,
        stream: &mut StreamBuf,
        stream_id: StreamId,
    ) -> (r: DispatchOutcome)
        requires
            old(self).wf(),
            old(self).counter() < u64::MAX,
        ensures
            final(self).wf(),
            final(stream).id == old(stream).id,
            old(stream).out().is_prefix_of(final(stream).out()),
            (r is Malformed <==> !(jget(msg@, "to"@) matches Some(JVal::Str(_)))),
            r is Malformed ==> *final(self) == *old(self) && *final(stream) == *old(stream),
            (match jget(msg@, "to"@) {
                Some(JVal::Str(t)) => !old(self).actors().contains_key(t) ==> {
                    &&& r is NoSuchActor
                    &&& final(stream).out() == old(stream).out().push(no_such_actor_reply_val(t))
                    &&& final(self).actors() == apply_pending(
                        old(self).actors(),
                        old(self).new_actors@,
                        old(self).old_actors@,
                    )
                    &&& final(self).new_actors@.len() == 0
                    &&& final(self).old_actors@.len() == 0
                    &&& final(self).script_actors == old(self).script_actors
                    &&& final(self).alloc == old(self).alloc
                },
                _ => true,
            }),
            (match jget(msg@, "to"@) {
                Some(JVal::Str(t)) => old(self).actors().contains_key(t) ==> {
                    &&& !(r is Malformed) && !(r is NoSuchActor)
                    &&& (jget(msg@, "type"@) is None ==> r == DispatchOutcome::HandlerError(
                        ActorError::MissingParameter,
                    ))
                    &&& (jget(msg@, "type"@) matches Some(ty) ==> (!(ty is Str) ==> r
                        == DispatchOutcome::HandlerError(ActorError::BadParameterType)))
                    &&& (r matches DispatchOutcome::HandlerError(e) ==> final(stream).out()
                        == old(stream).out().push(error_reply_val(t, e)))
                    &&& ((jget_str(msg@, "type"@) is Some && (old(self).actors()[t] is Root
                        || old(self).actors()[t] is Support || old(self).actors()[t] is Watcher
                        || old(self).actors()[t] is Object)) ==> r
                        == DispatchOutcome::HandlerError(ActorError::UnrecognizedPacketType))
                    &&& (r is Replied ==> crate::actor::replied_from(
                        old(stream).out(),
                        final(stream).out(),
                        t,
                    ))
                    &&& ((r is Replied || r is HandlerError) ==> {
                        &&& final(self).new_actors@.len() == 0
                        &&& final(self).old_actors@.len() == 0
                        &&& exists|t2: Seq<char>, h3: ActorHandler, h2: ActorHandler, adds: Seq<
                            (String, ActorHandler),
                        >, removes: Seq<String>|
                            #![trigger apply_pending(old(self).actors().insert(t2, h3).insert(t, h2), adds, removes)]
                            {
                                &&& old(self).new_actors@.is_prefix_of(adds)
                                &&& old(self).old_actors@.is_prefix_of(removes)
                                &&& final(self).actors() =~~= apply_pending(
                                    old(self).actors().insert(t2, h3).insert(t, h2),
                                    adds,
                                    removes,
                                )
                            }
                    })
                    &&& (r is AwaitPage ==> final(self).old_actors == old(self).old_actors && old(
                        self,
                    ).new_actors@.is_prefix_of(final(self).new_actors@))
                },
                _ => true,
            }),
    {
        broadcast use group_prefix_lemmas;

        let to_field = match msg.get("to") {
            Some(v) => v,
            None => {
                return DispatchOutcome::Malformed;
            },
        };
        let to = match to_field {
            Json::Str(s) => s.clone(),
            _ => {
                return DispatchOutcome::Malformed;
            },
        };
        if !self.store.contains(to.as_str()) {
            let reply = mk_obj2(
                "from",
                Json::Str(to.clone()),
                "error",
                Json::of_str("noSuchActor"),
            );
            stream.write_json_packet(reply);
            self.end_pass();
            return DispatchOutcome::NoSuchActor;
        }
        let ghost m0 = self.actors();
        let ghost adds0 = self.new_actors@;
        let ghost removes0 = self.old_actors@;
        let msg_type = match msg.get("type") {
            Some(Json::Str(t)) => t.clone(),
            Some(_) => {
                let e = ActorError::BadParameterType;
                let reply = mk_obj2("from", Json::Str(to), "error", Json::of_str(e.name()));
                stream.write_json_packet(reply);
                self.end_pass();
                proof {
                    lemma_routed_pass_applied(m0, to@, m0[to@], adds0, removes0);
                }
                return DispatchOutcome::HandlerError(e);
            },
            None => {
                let e = ActorError::MissingParameter;
                let reply = mk_obj2("from", Json::Str(to), "error", Json::of_str(e.name()));
                stream.write_json_packet(reply);
                self.end_pass();
                proof {
                    lemma_routed_pass_applied(m0, to@, m0[to@], adds0, removes0);
                }
                return DispatchOutcome::HandlerError(e);
            },
        };
        let mut handler = match self.store.take(to.as_str()) {
            Some(h) => h,
            None => vstd::pervasive::unreached(),
        };
        let outcome = handle_message(
            &mut handler,
            to.as_str(),
            self,
            msg_type.as_str(),
            msg,
            stream,
            stream_id,
        );
        let ghost m_after_handler = self.actors();
        let ghost adds_mid = self.new_actors@;
        let ghost removes_mid = self.old_actors@;
        let ghost h2 = handler;
        self.store.insert(to.clone(), handler);
        proof {
            lemma_mid_map_shape(m0, to@, m_after_handler, h2, self.actors());
        }
        let ghost m_mid = self.actors();
        match outcome {
            Ok(HandlerStep::Done(commands)) => {
                self.end_pass();
                proof {
                    let (t2, h3) = choose|t2: Seq<char>, h3: ActorHandler|
                        m_mid =~~= #[trigger] m0.insert(t2, h3).insert(to@, h2);
                    assert(self.actors() =~~= apply_pending(
                        m0.insert(t2, h3).insert(to@, h2),
                        adds_mid,
                        removes_mid,
                    ));
                }
                DispatchOutcome::Replied(commands)
            },
            Ok(HandlerStep::Await(request)) => DispatchOutcome::AwaitPage(request),
            Err(e) => {
                let reply = mk_obj2("from", Json::Str(to), "error", Json::of_str(e.name()));
                stream.write_json_packet(reply);
                self.end_pass();
                proof {
                    let (t2, h3) = choose|t2: Seq<char>, h3: ActorHandler|
                        m_mid =~~= #[trigger] m0.insert(t2, h3).insert(to@, h2);
                    assert(self.actors() =~~= apply_pending(
                        m0.insert(t2, h3).insert(to@, h2),
                        adds_mid,
                        removes_mid,
                    ));
                }
                DispatchOutcome::HandlerError(e)
            },
        }
    }

    /// Sheds a disconnected stream from every actor, collecting what the
    /// page must be told. Invoking it again for the same stream changes
    /// nothing more.
    pub fn cleanup(&mut self, stream_id: StreamId) -> (r: Vec<PageCommand>)
        requires
            old(self).wf(),
        ensures
            final(self).wf(),
            forall|k: Seq<char>| #[trigger] final(self).actors().contains_key(k) == old(self).actors().contains_key(k),
            forall|k: Seq<char>|
                old(self).actors().contains_key(k) ==> cleans_to(
                    #[trigger] old(self).actors()[k],
                    final(self).actors()[k],
                    stream_id,
                ),
            final(self).new_actors == old(self).new_actors,
            final(self).old_actors == old(self).old_actors,
            final(self).script_actors == old(self).script_actors,
            final(self).alloc == old(self).alloc,
    {
        let mut commands: Vec<PageCommand> = Vec::new();
        let shard_count = self.store.shards.len();
        let mut s: usize = 0;
        while s < shard_count
            invariant
                shard_count == self.store.shards@.len(),
                s <= shard_count,
                self.store.shards@.len() == old(self).store.shards@.len(),
                forall|t: int|
                    s <= t < shard_count ==> (#[trigger] self.store.shards@[t]) == old(self).store.shards@[t],
                forall|t: int|
                    0 <= t < s ==> (#[trigger] self.store.shards@[t])@.len() == old(self).store.shards@[t]@.len(),
                forall|t: int, i: int|
                    0 <= t < s && 0 <= i < self.store.shards@[t]@.len() ==> (
                    #[trigger] self.store.shards@[t]@[i]).0@ == old(self).store.shards@[t]@[i].0@ && cleans_to(
                        old(self).store.shards@[t]@[i].1,
                        self.store.shards@[t]@[i].1,
                        stream_id,
                    ),
                self.new_actors == old(self).new_actors,
                self.old_actors == old(self).old_actors,
                self.script_actors == old(self).script_actors,
                self.source_actor_names == old(self).source_actor_names,
                self.inline_source_content == old(self).inline_source_content,
                self.alloc == old(self).alloc,
            decreases shard_count - s,
        {
            let shard_len = self.store.shards[s].len();
            let mut i: usize = 0;
            while i < shard_len
                invariant
                    0 <= s < self.store.shards@.len(),
                    shard_len == self.store.shards@[s as int]@.len(),
                    i <= shard_len,
                    self.store.shards@.len() == old(self).store.shards@.len(),
                    shard_len == old(self).store.shards@[s as int]@.len(),
                    forall|t: int|
                        s < t < self.store.shards@.len() ==> (#[trigger] self.store.shards@[t])
                            == old(self).store.shards@[t],
                    forall|t: int|
                        0 <= t < s ==> (#[trigger] self.store.shards@[t])@.len() == old(self).store.shards@[t]@.len(),
                    forall|t: int, k: int|
                        0 <= t < s && 0 <= k < self.store.shards@[t]@.len() ==> (
                        #[trigger] self.store.shards@[t]@[k]).0@ == old(self).store.shards@[t]@[k].0@ && cleans_to(
                            old(self).store.shards@[t]@[k].1,
                            self.store.shards@[t]@[k].1,
                            stream_id,
                        ),
                    forall|k: int|
                        i <= k < shard_len ==> (#[trigger] self.store.shards@[s as int]@[k]) == old(self).store.shards@[s as int]@[k],
                    forall|k: int|
                        0 <= k < i ==> (#[trigger] self.store.shards@[s as int]@[k]).0@ == old(self).store.shards@[s as int]@[k].0@ && cleans_to(
                            old(self).store.shards@[s as int]@[k].1,
                            self.store.shards@[s as int]@[k].1,
                            stream_id,
                        ),
                    self.new_actors == old(self).new_actors,
                    self.old_actors == old(self).old_actors,
                    self.script_actors == old(self).script_actors,
                    self.source_actor_names == old(self).source_actor_names,
                    self.inline_source_content == old(self).inline_source_content,
                    self.alloc == old(self).alloc,
                decreases shard_len - i,
            {
                let mut entry: (String, ActorHandler) = (
                    String::new(),
                    ActorHandler::Root(crate::actor::RootActor {}),
                );
                let shard = &mut self.store.shards[s];
                shard.set_and_swap(i, &mut entry);
                let command = handler_cleanup(&mut entry.1, stream_id);
                shard.set_and_swap(i, &mut entry);
                match command {
                    Some(c) => {
                        commands.push(c);
                    },
                    None => {},
                }
                i = i + 1;
            }
            s = s + 1;
        }
        proof {
            assert forall|k: Seq<char>| #[trigger] final(self).actors().contains_key(k) == old(self).actors().contains_key(k) by {
                if shard_of(k) < self.store.shards@.len() {
                    lemma_shard_map_pointwise(
                        old(self).store.shards@[shard_of(k) as int]@,
                        self.store.shards@[shard_of(k) as int]@,
                        |a: ActorHandler, b: ActorHandler| cleans_to(a, b, stream_id),
                    );
                }
            }
            assert forall|k: Seq<char>|
                old(self).actors().contains_key(k) implies cleans_to(
                #[trigger] old(self).actors()[k],
                final(self).actors()[k],
                stream_id,
            ) by {
                lemma_shard_map_pointwise(
                    old(self).store.shards@[shard_of(k) as int]@,
                    self.store.shards@[shard_of(k) as int]@,
                    |a: ActorHandler, b: ActorHandler| cleans_to(a, b, stream_id),
                );
            }
            assert forall|t: int, j: int|
                0 <= t < self.store.shards@.len() && 0 <= j < self.store.shards@[t]@.len()
                    implies shard_of((#[trigger] self.store.shards@[t]@[j]).0@) == t by {
                assert(old(self).store.shards@[t]@[j].0@ == self.store.shards@[t]@[j].0@);
            }
            assert forall|t: int| 0 <= t < self.store.shards@.len() implies keys_unique(
                #[trigger] self.store.shards@[t]@,
            ) by {
                lemma_shard_map_pointwise(
                    old(self).store.shards@[t]@,
                    self.store.shards@[t]@,
                    |a: ActorHandler, b: ActorHandler| cleans_to(a, b, stream_id),
                );
            }
        }
        commands
    }
}

} // verus!
