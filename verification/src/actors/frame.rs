//! The frame actor: one stack frame shown while the thread is paused, and
//! the manager that tracks which frame actors exist.

use vstd::prelude::*;

use crate::actor::{ActorHandler, FrameActor, HandlerStep, SupportActor, empty_reply_val};
use crate::error::ActorError;
use crate::json::{Json, JVal, jobj1, jobj2, mk_obj1, mk_obj2, str_eq, jvals_of, lemma_jvals_of,
    lemma_jflds_of};
use crate::name::{ActorKind, name_for};
use crate::registry::ActorRegistry;
use crate::stream::StreamBuf;

verus! {

/// The state a frame can be in; only on-stack frames are produced.
pub enum FrameState {
    OnStack,
    Suspended,
    Dead,
}

/// Where a frame's code lives.
pub struct FrameWhere {
    pub actor: String,
    pub line: u32,
    pub column: u32,
}

/// The wire form of one frame.
pub struct FrameActorMsg {
    pub actor: String,
    pub display_name: String,
    pub this_: Json,
    pub where_actor: String,
}

/// The reply listing a thread's frames.
pub struct FramesReply {
    pub from: String,
    pub frames: Vec<Json>,
}

/// Strict lexicographic order on character strings, by code point; a
/// proper prefix comes first.
pub open spec fn lex_lt(a: Seq<char>, b: Seq<char>) -> bool
    decreases a.len() + b.len(),
{
    if b.len() == 0 {
        false
    } else if a.len() == 0 {
        true
    } else if a[0] != b[0] {
        a[0] < b[0]
    } else {
        lex_lt(a.drop_first(), b.drop_first())
    }
}

/// Of two different strings, one comes lexicographically first.
pub proof fn lemma_lex_total(a: Seq<char>, b: Seq<char>)
    requires
        a != b,
        !lex_lt(a, b),
    ensures
        lex_lt(b, a),
    decreases a.len() + b.len(),
{
    if b.len() == 0 {
        if a.len() == 0 {
            assert(a =~= b);
        }
    } else if a.len() == 0 {
    } else if a[0] != b[0] {
    } else {
        if a.drop_first() == b.drop_first() {
            assert(a.drop_first().len() == b.drop_first().len());
            assert(a.len() == b.len());
            assert forall|k: int| 0 <= k < a.len() implies a[k] == b[k] by {
                if k > 0 {
                    assert(a.drop_first()[k - 1] == b.drop_first()[k - 1]);
                }
            }
            assert(a =~= b);
        }
        lemma_lex_total(a.drop_first(), b.drop_first());
    }
}

/// Lexicographic order is transitive.
pub proof fn lemma_lex_trans(a: Seq<char>, b: Seq<char>, c: Seq<char>)
    requires
        lex_lt(a, b),
        lex_lt(b, c),
    ensures
        lex_lt(a, c),
    decreases a.len() + b.len() + c.len(),
{
    if a.len() == 0 {
    } else if a[0] == b[0] && b[0] == c[0] {
        lemma_lex_trans(a.drop_first(), b.drop_first(), c.drop_first());
    }
}

/// Whether one string slice comes lexicographically before another.
#[verifier::loop_isolation(false)]
pub fn str_lt(a: &str, b: &str) -> (r: bool)
    ensures
        r == lex_lt(a@, b@),
{
    let an = a.unicode_len();
    let bn = b.unicode_len();
    let mut i: usize = 0;
    proof {
        assert(a@.skip(0) =~= a@);
        assert(b@.skip(0) =~= b@);
    }
    while i < an && i < bn
        invariant
            an == a@.len(),
            bn == b@.len(),
            i <= an,
            i <= bn,
            lex_lt(a@, b@) == lex_lt(a@.skip(i as int), b@.skip(i as int)),
        decreases an - i,
    {
        let ghost pa = a@.skip(i as int);
        let ghost pb = b@.skip(i as int);
        let ca = a.get_char(i);
        let cb = b.get_char(i);
        if ca < cb {
            proof {
                assert(pa[0] == ca && pb[0] == cb);
            }
            return true;
        }
        if cb < ca {
            proof {
                assert(pa[0] == ca && pb[0] == cb);
            }
            return false;
        }
        proof {
            assert(pa[0] == pb[0]);
            assert(pa.drop_first() =~= a@.skip(i + 1 as int));
            assert(pb.drop_first() =~= b@.skip(i + 1 as int));
        }
        i = i + 1;
    }
    proof {
        if i >= an {
            assert(a@.skip(i as int).len() == 0);
        } else {
            assert(b@.skip(i as int).len() == 0);
        }
    }
    an < bn
}

/// Whether a name list is strictly ascending (so also duplicate-free).
pub open spec fn names_sorted(names: Seq<String>) -> bool {
    forall|i: int, j: int|
        0 <= i < j < names.len() ==> lex_lt((#[trigger] names[i])@, (#[trigger] names[j])@)
}

/// The set of names a list holds.
pub open spec fn name_set(names: Seq<String>) -> Set<Seq<char>> {
    Set::new(|s: Seq<char>| exists|i: int| 0 <= i < names.len() && (#[trigger] names[i])@ == s)
}

/// Keeps the names of the live frame actors, each at most once, in
/// ascending lexicographic order.
pub struct FrameManager {
    pub frame_actor_names: Vec<String>,
}

impl FrameManager {
    /// Whether the recorded names are strictly ascending.
    pub open spec fn wf(&self) -> bool {
        names_sorted(self.frame_actor_names@)
    }

    /// A manager that knows no frames.
    pub fn new() -> (r: FrameManager)
        ensures
            r.wf(),
            r.frame_actor_names@.len() == 0,
    {
        FrameManager { frame_actor_names: Vec::new() }
    }

    /// Records one frame actor in its sorted place; recording a name again
    /// changes nothing.
    #[verifier::loop_isolation(false)]
    pub fn add_frame(&mut self, actor_name: &str)
        requires
            old(self).wf(),
        ensures
            final(self).wf(),
            name_set(final(self).frame_actor_names@) =~= name_set(
                old(self).frame_actor_names@,
            ).insert(actor_name@),
    {
        let key: String = actor_name.to_owned();
        let n = self.frame_actor_names.len();
        let mut i: usize = 0;
        while i < n && str_lt(self.frame_actor_names[i].as_str(), key.as_str())
            invariant
                n == self.frame_actor_names@.len(),
                i <= n,
                key@ == actor_name@,
                *self == *old(self),
                forall|k: int|
                    0 <= k < i ==> lex_lt((#[trigger] self.frame_actor_names@[k])@, actor_name@),
            decreases n - i,
        {
            i = i + 1;
        }
        if i < n && self.frame_actor_names[i] == key {
            proof {
                assert(name_set(self.frame_actor_names@) =~= name_set(
                    old(self).frame_actor_names@,
                ).insert(actor_name@));
            }
            return ;
        }
        let ghost olds = self.frame_actor_names@;
        proof {
            if i < olds.len() {
                lemma_lex_total(olds[i as int]@, actor_name@);
            }
            assert forall|k: int| i <= k < olds.len() implies lex_lt(
                actor_name@,
                (#[trigger] olds[k])@,
            ) by {
                lemma_lex_total(olds[i as int]@, actor_name@);
                if k > i {
                    lemma_lex_trans(actor_name@, olds[i as int]@, olds[k]@);
                }
            }
        }
        self.frame_actor_names.insert(i, key);
        proof {
            let news = self.frame_actor_names@;
            assert forall|p: int, q: int| 0 <= p < q < news.len() implies lex_lt(
                (#[trigger] news[p])@,
                (#[trigger] news[q])@,
            ) by {
                let op = if p < i { p } else { p - 1 };
                let oq = if q < i { q } else { q - 1 };
                if p != i && q != i {
                    assert(news[p] == olds[op] && news[q] == olds[oq]);
                } else if p == i {
                    assert(news[q] == olds[oq]);
                } else {
                    assert(news[p] == olds[op]);
                }
            }
            assert(name_set(news) =~= name_set(olds).insert(actor_name@)) by {
                assert forall|sx: Seq<char>| name_set(news).contains(sx) implies name_set(
                    olds,
                ).insert(actor_name@).contains(sx) by {
                    let ix = choose|ix: int| 0 <= ix < news.len() && (#[trigger] news[ix])@ == sx;
                    if ix != i {
                        let ox = if ix < i { ix } else { ix - 1 };
                        assert(olds[ox]@ == sx);
                    }
                }
                assert forall|sx: Seq<char>| name_set(olds).insert(actor_name@).contains(
                    sx,
                ) implies name_set(news).contains(sx) by {
                    if sx == actor_name@ {
                        assert(news[i as int]@ == sx);
                    } else {
                        let ox = choose|ox: int|
                            0 <= ox < olds.len() && (#[trigger] olds[ox])@ == sx;
                        let ix = if ox < i { ox } else { ox + 1 };
                        assert(news[ix]@ == sx);
                    }
                }
            }
        }
    }
}

/// The environment reply of a frame: the fresh environment actor under its
/// identifier.
pub open spec fn frame_environment_reply_val(from: Seq<char>, environment: Seq<char>) -> JVal {
    jobj2("from"@, JVal::Str(from), "actor"@, JVal::Str(environment))
}

impl FrameActor {
    /// Handles one message addressed to a frame.
    pub fn handle_message(
        &self,
        name: &str,
        registry: &mut ActorRegistry,
        msg_type: &str,
        stream: &mut StreamBuf,
    ) -> (r: Result<HandlerStep, ActorError>)
        requires
            old(registry).wf(),
            old(registry).counter() < u64::MAX,
        ensures
            final(registry).wf(),
            final(stream).id == old(stream).id,
            final(registry).actors() == old(registry).actors(),
            final(registry).old_actors == old(registry).old_actors,
            old(stream).out().is_prefix_of(final(stream).out()),
            old(registry).new_actors@.is_prefix_of(final(registry).new_actors@),
            r is Err ==> *final(stream) == *old(stream) && *final(registry) == *old(registry),
            !(r matches Ok(HandlerStep::Await(_))),
            r matches Ok(HandlerStep::Done(_)) ==> crate::actor::replied_from(
                old(stream).out(),
                final(stream).out(),
                name@,
            ),
            msg_type@ == "getEnvironment"@ ==> r is Ok && final(stream).out() == old(
                stream,
            ).out().push(
                frame_environment_reply_val(
                    name@,
                    name_for(ActorKind::Environment, old(registry).counter()),
                ),
            ),
            msg_type@ != "getEnvironment"@ ==> r == Result::<HandlerStep, ActorError>::Err(
                ActorError::UnrecognizedPacketType,
            ),
    {
        broadcast use crate::registry::group_prefix_lemmas;

        if str_eq(msg_type, "getEnvironment") {
            let environment_name = registry.reserve_name(ActorKind::Environment);
            let reply = mk_obj2(
                "from",
                Json::of_str(name),
                "actor",
                Json::Str(environment_name.clone()),
            );
            registry.register_deferred(
                environment_name,
                ActorHandler::Support(SupportActor { kind: ActorKind::Environment }),
            );
            stream.write_json_packet(reply);
            Ok(HandlerStep::Done(Vec::new()))
        } else {
            Err(ActorError::UnrecognizedPacketType)
        }
    }

    /// The wire form of one frame: an on-stack call whose receiver is the
    /// frame's object actor. Only a frame whose object actor is missing or
    /// of another kind cannot be encoded.
    pub fn encode(&self, registry: &ActorRegistry) -> (r: Result<Json, ActorError>)
        requires
            registry.wf(),
        ensures
            r matches Ok(v) ==> crate::json::jget_str(v@, "actor"@) == Some(self.name@),
            r is Err <==> !(registry.actors().contains_key(self.object_actor@)
                && registry.actors()[self.object_actor@] is Object),
            r is Err ==> r == Result::<Json, ActorError>::Err(ActorError::Internal),
    {
        let object_json = match registry.get(self.object_actor.as_str()) {
            Some(ActorHandler::Object(o)) => o.encode(self.object_actor.clone()),
            _ => {
                return Err(ActorError::Internal);
            },
        };
        let location = FrameWhere { actor: self.source_actor.clone(), line: 1, column: 1 };
        let where_obj = {
            let mut wf: Vec<(String, Json)> = Vec::new();
            wf.push(("actor".to_owned(), Json::Str(location.actor)));
            wf.push(("line".to_owned(), Json::Uint(location.line as u64)));
            wf.push(("column".to_owned(), Json::Uint(location.column as u64)));
            Json::Obj(wf)
        };
        let mut fields: Vec<(String, Json)> = Vec::new();
        fields.push(("actor".to_owned(), Json::Str(self.name.clone())));
        fields.push(("type".to_owned(), Json::of_str("call")));
        fields.push(("arguments".to_owned(), Json::Arr(Vec::new())));
        fields.push(("asyncCause".to_owned(), Json::Null));
        fields.push(("displayName".to_owned(), Json::of_str("")));
        fields.push(("oldest".to_owned(), Json::Bool(true)));
        fields.push(("state".to_owned(), Json::of_str("on-stack")));
        fields.push(("this".to_owned(), object_json));
        fields.push(("where".to_owned(), where_obj));
        let ghost gfields = fields@;
        let r = Json::Obj(fields);
        proof {
            crate::json::lemma_jfield_first(gfields, "actor"@);
        }
        Ok(r)
    }
}

/// Whether a recorded frame name is wholly wired: a frame actor under the
/// name, whose object actor is installed as an object.
pub open spec fn frame_wired(registry: ActorRegistry, name: Seq<char>) -> bool {
    &&& registry.actors().contains_key(name)
    &&& (registry.actors()[name] matches ActorHandler::Frame(f)
        && registry.actors().contains_key(f.object_actor@)
        && registry.actors()[f.object_actor@] is Object)
}

/// Encodes every recorded frame, in ascending name order (the order the
/// manager keeps); each element is the wire form of the frame actor
/// installed under the recorded name. It fails, with an internal fault,
/// exactly when some recorded frame is not wholly wired.
#[verifier::loop_isolation(false)]
pub fn encoded_frames(manager: &FrameManager, registry: &ActorRegistry) -> (r: Result<
    Vec<Json>,
    ActorError,
>)
    requires
        registry.wf(),
    ensures
        (r is Ok <==> forall|i: int|
            0 <= i < manager.frame_actor_names@.len() ==> frame_wired(
                *registry,
                (#[trigger] manager.frame_actor_names@[i])@,
            )),
        r is Err ==> r == Result::<Vec<Json>, ActorError>::Err(ActorError::Internal),
        r matches Ok(frames) ==> {
            &&& frames@.len() == manager.frame_actor_names@.len()
            &&& forall|i: int|
                0 <= i < frames@.len() ==> {
                    &&& registry.actors().contains_key(
                        (#[trigger] manager.frame_actor_names@[i])@,
                    )
                    &&& (registry.actors()[manager.frame_actor_names@[i]@] matches
                        ActorHandler::Frame(f) && crate::json::jget_str(
                        crate::json::jval_of(frames@[i]),
                        "actor"@,
                    ) == Some(f.name@))
                }
        },
        r is Err ==> r == Result::<Vec<Json>, ActorError>::Err(ActorError::Internal),
{
    let n = manager.frame_actor_names.len();
    let mut out: Vec<Json> = Vec::new();
    let mut i: usize = 0;
    while i < n
        invariant
            n == manager.frame_actor_names@.len(),
            i <= n,
            out@.len() == i,
            registry.wf(),
            forall|k: int|
                0 <= k < i ==> frame_wired(*registry, (#[trigger] manager.frame_actor_names@[k])@),
            forall|k: int|
                0 <= k < i ==> {
                    &&& registry.actors().contains_key(
                        (#[trigger] manager.frame_actor_names@[k])@,
                    )
                    &&& (registry.actors()[manager.frame_actor_names@[k]@] matches
                        ActorHandler::Frame(f) && crate::json::jget_str(
                        crate::json::jval_of(out@[k]),
                        "actor"@,
                    ) == Some(f.name@))
                },
        decreases n - i,
    {
        let frame_name = &manager.frame_actor_names[i];
        let encoded = match registry.get(frame_name.as_str()) {
            Some(ActorHandler::Frame(f)) => match f.encode(registry) {
                Ok(v) => v,
                Err(_) => {
                    proof {
                        assert(!frame_wired(*registry, manager.frame_actor_names@[i as int]@));
                    }
                    return Err(ActorError::Internal);
                },
            },
            _ => {
                proof {
                    assert(!frame_wired(*registry, manager.frame_actor_names@[i as int]@));
                }
                return Err(ActorError::Internal);
            },
        };
        out.push(encoded);
        i = i + 1;
    }
    Ok(out)
}

} // verus!
