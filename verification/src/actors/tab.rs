//! The tab descriptor actor: describes one web view and links it to the
//! watcher that inspects it.

use vstd::prelude::*;

use crate::actor::{ActorHandler, HandlerStep, TabDescriptorActor, empty_reply, empty_reply_val};
use crate::error::ActorError;
use crate::json::{Json, JVal, jobj2, mk_obj2, str_eq, lemma_jflds_of};
use crate::page::PageCommand;
use crate::registry::ActorRegistry;
use crate::stream::StreamBuf;

verus! {

/// The wire form of a tab descriptor.
pub struct TabDescriptorActorMsg {
    pub actor: String,
    pub browser_id: u32,
    pub browsing_context_id: u32,
    pub is_zombie_tab: bool,
    pub outer_window_id: u32,
    pub selected: bool,
    pub title: String,
    pub url: String,
}

impl TabDescriptorActorMsg {
    /// The identifier of the web view this tab describes.
    pub fn browser_id(&self) -> (r: u32)
        ensures
            r == self.browser_id,
    {
        self.browser_id
    }

    /// The identifier of the tab descriptor actor itself.
    pub fn actor(&self) -> (r: String)
        ensures
            r@ == self.actor@,
    {
        self.actor.clone()
    }

    /// This description as a JSON value.
    pub fn to_json(self) -> (r: Json)
        ensures
            r@ == tab_descriptor_msg_val(
                self.actor@,
                self.browser_id,
                self.browsing_context_id,
                self.is_zombie_tab,
                self.outer_window_id,
                self.selected,
                self.title@,
                self.url@,
            ),
    {
        let ghost gself = self;
        let mut fields: Vec<(String, Json)> = Vec::new();
        fields.push(("actor".to_owned(), Json::Str(self.actor)));
        fields.push(("browserId".to_owned(), Json::Uint(self.browser_id as u64)));
        fields.push(
            ("browsingContextID".to_owned(), Json::Uint(self.browsing_context_id as u64)),
        );
        fields.push(("isZombieTab".to_owned(), Json::Bool(self.is_zombie_tab)));
        fields.push(("outerWindowID".to_owned(), Json::Uint(self.outer_window_id as u64)));
        fields.push(("selected".to_owned(), Json::Bool(self.selected)));
        fields.push(("title".to_owned(), Json::Str(self.title)));
        fields.push(
            (
                "traits".to_owned(),
                mk_obj2(
                    "watcher",
                    Json::Bool(true),
                    "supportsReloadDescriptor",
                    Json::Bool(true),
                ),
            ),
        );
        fields.push(("url".to_owned(), Json::Str(self.url)));
        let r = Json::Obj(fields);
        proof {
            lemma_jflds_of(fields@);
            let gspec = tab_descriptor_msg_val(
                gself.actor@,
                gself.browser_id,
                gself.browsing_context_id,
                gself.is_zombie_tab,
                gself.outer_window_id,
                gself.selected,
                gself.title@,
                gself.url@,
            );
            assert(r@->Obj_0 =~~= gspec->Obj_0);
        }
        r
    }
}

/// The wire form of a tab descriptor, as a JSON value. A zombie tab is
/// never reported, and the descriptor always announces watcher support.
pub open spec fn tab_descriptor_msg_val(
    actor: Seq<char>,
    browser_id: u32,
    browsing_context_id: u32,
    is_zombie_tab: bool,
    outer_window_id: u32,
    selected: bool,
    title: Seq<char>,
    url: Seq<char>,
) -> JVal {
    JVal::Obj(
        seq![
            ("actor"@, JVal::Str(actor)),
            ("browserId"@, JVal::Uint(browser_id as u64)),
            ("browsingContextID"@, JVal::Uint(browsing_context_id as u64)),
            ("isZombieTab"@, JVal::Bool(is_zombie_tab)),
            ("outerWindowID"@, JVal::Uint(outer_window_id as u64)),
            ("selected"@, JVal::Bool(selected)),
            ("title"@, JVal::Str(title)),
            (
                "traits"@,
                jobj2("watcher"@, JVal::Bool(true), "supportsReloadDescriptor"@, JVal::Bool(true)),
            ),
            ("url"@, JVal::Str(url)),
        ],
    )
}

impl TabDescriptorActor {
    /// The wire form of this tab descriptor: the description is read off the
    /// linked browsing context. A descriptor without one is a wiring defect.
    pub fn encode(&self, name: String, registry: &ActorRegistry) -> (r: Result<
        TabDescriptorActorMsg,
        ActorError,
    >)
        requires
            registry.wf(),
        ensures
            r matches Ok(msg) ==> {
                &&& self.browsing_context matches Some(b)
                &&& registry.actors().contains_key(b@)
                &&& registry.actors()[b@] matches ActorHandler::BrowsingContext(ctx)
                &&& msg.actor == name
                &&& msg.browser_id == ctx.browser_id
                &&& msg.browsing_context_id == ctx.browsing_context_id
                &&& msg.outer_window_id == ctx.active_outer_window_id
                &&& msg.title@ == ctx.title@
                &&& msg.url@ == ctx.url@
                &&& !msg.selected
                &&& !msg.is_zombie_tab
            },
    {
        let ctx_name = match &self.browsing_context {
            Some(b) => b,
            None => {
                return Err(ActorError::Internal);
            },
        };
        let ctx = match registry.get(ctx_name.as_str()) {
            Some(ActorHandler::BrowsingContext(ctx)) => ctx,
            _ => {
                return Err(ActorError::Internal);
            },
        };
        Ok(
            TabDescriptorActorMsg {
                actor: name,
                browser_id: ctx.browser_id,
                browsing_context_id: ctx.browsing_context_id,
                is_zombie_tab: false,
                outer_window_id: ctx.active_outer_window_id,
                selected: false,
                title: ctx.title.clone(),
                url: ctx.url.clone(),
            },
        )
    }

    /// Handles one message addressed to the tab descriptor.
    pub fn handle_message(
        &self,
        name: &str,
        registry: &mut ActorRegistry,
        msg_type: &str,
        stream: &mut StreamBuf,
    ) -> (r: Result<HandlerStep, ActorError>)
        requires
            old(registry).wf(),
        ensures
            final(registry).wf(),
            final(stream).id == old(stream).id,
            *final(registry) == *old(registry),
            old(stream).out().is_prefix_of(final(stream).out()),
            r is Err ==> *final(stream) == *old(stream),
            !(r matches Ok(HandlerStep::Await(_))),
            r matches Ok(HandlerStep::Done(_)) ==> crate::actor::replied_from(
                old(stream).out(),
                final(stream).out(),
                name@,
            ),
            (msg_type@ != "getTarget"@ && msg_type@ != "getFavicon"@ && msg_type@ != "getWatcher"@
                && msg_type@ != "reloadDescriptor"@) ==> r == Result::<
                HandlerStep,
                ActorError,
            >::Err(ActorError::UnrecognizedPacketType),
            msg_type@ == "getFavicon"@ ==> r is Ok && final(stream).out() == old(
                stream,
            ).out().push(
                jobj2("from"@, JVal::Str(name@), "favicon"@, JVal::Str(Seq::<char>::empty())),
            ),
    {
        proof {
            reveal_strlit("getTarget");
            reveal_strlit("getFavicon");
            reveal_strlit("getWatcher");
            reveal_strlit("reloadDescriptor");
            assert("getTarget"@.len() != "getFavicon"@.len());
            assert("getTarget"@.len() != "getWatcher"@.len());
            assert("getTarget"@.len() != "reloadDescriptor"@.len());
            assert("getFavicon"@[3] != "getWatcher"@[3]);
            assert("getFavicon"@.len() != "reloadDescriptor"@.len());
            assert("getWatcher"@.len() != "reloadDescriptor"@.len());
        }
        if str_eq(msg_type, "getTarget") {
            let ctx_name = match &self.browsing_context {
                Some(b) => b.clone(),
                None => {
                    return Err(ActorError::Internal);
                },
            };
            let frame = match registry.get(ctx_name.as_str()) {
                Some(ActorHandler::BrowsingContext(ctx)) => ctx.encode(),
                _ => {
                    return Err(ActorError::Internal);
                },
            };
            let reply = mk_obj2("from", Json::of_str(name), "frame", frame);
            stream.write_json_packet(reply);
            Ok(HandlerStep::Done(Vec::new()))
        } else if str_eq(msg_type, "getFavicon") {
            let reply = mk_obj2("from", Json::of_str(name), "favicon", Json::of_str(""));
            proof {
                reveal_strlit("");
                assert(""@ =~= Seq::<char>::empty());
            }
            stream.write_json_packet(reply);
            Ok(HandlerStep::Done(Vec::new()))
        } else if str_eq(msg_type, "getWatcher") {
            let watcher_name = match &self.browsing_context {
                Some(b) => match registry.get(b.as_str()) {
                    Some(ActorHandler::BrowsingContext(ctx)) => ctx.watcher.clone(),
                    _ => {
                        return Err(ActorError::Internal);
                    },
                },
                None => {
                    return Err(ActorError::Internal);
                },
            };
            let reply = mk_obj2("from", Json::of_str(name), "actor", Json::Str(watcher_name));
            stream.write_json_packet(reply);
            Ok(HandlerStep::Done(Vec::new()))
        } else if str_eq(msg_type, "reloadDescriptor") {
            let pipeline = match &self.browsing_context {
                Some(b) => match registry.get(b.as_str()) {
                    Some(ActorHandler::BrowsingContext(ctx)) => ctx.active_pipeline_id,
                    _ => {
                        return Err(ActorError::Internal);
                    },
                },
                None => {
                    return Err(ActorError::Internal);
                },
            };
            stream.write_json_packet(empty_reply(name));
            Ok(HandlerStep::Done(vec![PageCommand::Reload(pipeline)]))
        } else {
            Err(ActorError::UnrecognizedPacketType)
        }
    }
}

} // verus!
