//! The object actor: wraps one script-side object. At most one wrapper
//! exists per underlying object; asking again for a wrapped object hands the
//! existing wrapper's identifier back.

use vstd::prelude::*;

use crate::actor::{ActorHandler, ObjectActor};
use crate::json::{Json, JVal};
use crate::name::{ActorKind, name_for};
use crate::registry::ActorRegistry;

verus! {

/// The preview part of an object's wire form.
pub struct ObjectPreview {
    pub kind: String,
    pub url: String,
}

/// The wire form of an object actor.
pub struct ObjectActorMsg {
    pub actor: String,
    pub type_: String,
    pub class: String,
    pub own_property_length: i32,
    pub extensible: bool,
    pub frozen: bool,
    pub sealed: bool,
    pub is_error: bool,
    pub preview: ObjectPreview,
}

/// The wire form of an object actor, as a JSON value.
pub open spec fn object_actor_msg_val(actor: Seq<char>) -> JVal {
    JVal::Obj(
        seq![
            ("actor"@, JVal::Str(actor)),
            ("type"@, JVal::Str("object"@)),
            ("class"@, JVal::Str("Window"@)),
            ("ownPropertyLength"@, JVal::Int(0)),
            ("extensible"@, JVal::Bool(true)),
            ("frozen"@, JVal::Bool(false)),
            ("sealed"@, JVal::Bool(false)),
            ("isError"@, JVal::Bool(false)),
            (
                "preview"@,
                JVal::Obj(
                    seq![
                        ("kind"@, JVal::Str("ObjectWithURL"@)),
                        ("url"@, JVal::Str(Seq::<char>::empty())),
                    ],
                ),
            ),
        ],
    )
}

impl ObjectActor {
    /// Makes sure the object with the given script identity has a wrapper
    /// actor, and hands its identifier back. A fresh wrapper is staged for
    /// the end of the current pass; the binding itself is recorded at once,
    /// so no second wrapper can arise within the pass.
    pub fn register(registry: &mut ActorRegistry, uuid: String) -> (r: String)
        requires
            old(registry).wf(),
            old(registry).counter() < u64::MAX,
        ensures
            final(registry).wf(),
            final(registry).actors() == old(registry).actors(),
            final(registry).old_actors == old(registry).old_actors,
            old(registry).script_map().contains_key(uuid@) ==> {
                &&& uuid@.len() > 0 ==> r@ == old(registry).script_map()[uuid@]@
                &&& uuid@.len() == 0 ==> r@.len() == 0
                &&& *final(registry) == *old(registry)
            },
            !old(registry).script_map().contains_key(uuid@) ==> {
                &&& r@ == name_for(ActorKind::Object, old(registry).counter())
                &&& final(registry).counter() == old(registry).counter() + 1
                &&& final(registry).script_map() =~~= old(registry).script_map().insert(
                    uuid@,
                    r,
                )
                &&& final(registry).new_actors@.len() == old(registry).new_actors@.len() + 1
                &&& final(registry).new_actors@.drop_last() == old(registry).new_actors@
                &&& final(registry).new_actors@.last().0@ == r@
                &&& final(registry).new_actors@.last().1 matches ActorHandler::Object(o)
                    && o.uuid@ == uuid@
            },
    {
        if !registry.script_actor_registered(uuid.as_str()) {
            let object_name = registry.reserve_name(ActorKind::Object);
            let name_copy = object_name.clone();
            let handler_uuid = uuid.clone();
            registry.register_deferred(
                object_name.clone(),
                ActorHandler::Object(ObjectActor { uuid: handler_uuid }),
            );
            registry.register_script_actor(uuid, object_name);
            name_copy
        } else {
            registry.script_to_actor(uuid.as_str())
        }
    }

    /// The wire form of this object actor.
    pub fn encode(&self, name: String) -> (r: Json)
        ensures
            r@ == object_actor_msg_val(name@),
    {
        let mut preview_fields: Vec<(String, Json)> = Vec::new();
        preview_fields.push(("kind".to_owned(), Json::of_str("ObjectWithURL")));
        preview_fields.push(("url".to_owned(), Json::of_str("")));
        let ghost gpf = preview_fields@;
        let preview = Json::Obj(preview_fields);
        let mut fields: Vec<(String, Json)> = Vec::new();
        fields.push(("actor".to_owned(), Json::Str(name)));
        fields.push(("type".to_owned(), Json::of_str("object")));
        fields.push(("class".to_owned(), Json::of_str("Window")));
        fields.push(("ownPropertyLength".to_owned(), Json::Int(0)));
        fields.push(("extensible".to_owned(), Json::Bool(true)));
        fields.push(("frozen".to_owned(), Json::Bool(false)));
        fields.push(("sealed".to_owned(), Json::Bool(false)));
        fields.push(("isError".to_owned(), Json::Bool(false)));
        fields.push(("preview".to_owned(), preview));
        let r = Json::Obj(fields);
        proof {
            crate::json::lemma_jflds_of(gpf);
            crate::json::lemma_jflds_of(fields@);
            reveal_strlit("");
            assert(""@ =~= Seq::<char>::empty());
            assert(crate::json::jflds_of(gpf) =~= object_actor_msg_val(name@)->Obj_0[8].1->Obj_0);
            assert(r@->Obj_0 =~= object_actor_msg_val(name@)->Obj_0);
        }
        r
    }
}

} // verus!
