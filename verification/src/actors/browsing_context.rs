//! The browsing-context target actor: the connection point for clients that
//! inspect one web view's contents. It owns the supporting actors of that
//! view and announces navigation lifecycle events to every attached stream.

use vstd::prelude::*;

use crate::actor::{
    AccessibilityActor, ActorHandler, BrowsingContextActor, SupportActor, TabDescriptorActor,
    ThreadActor, WalkerActor, WatcherActor, empty_reply, empty_reply_val,
};
use crate::error::ActorError;
use crate::json::{Json, JVal, jobj2, mk_obj2, str_eq, jvals_of, lemma_jvals_of, lemma_jflds_of};
use crate::name::{ActorKind, name_for};
use crate::page::{ColorScheme, PageCommand, PipelineId};
use crate::registry::ActorRegistry;
use crate::resource::{ResourceArrayType, broadcast_resource, broadcast_resources,
    resource_packet};
use crate::stream::{StreamBuf, StreamId};

verus! {

/// One lifecycle notification of a document, as pushed to clients.
pub struct DocumentEvent {
    /// The event's kebab-case wire name.
    pub name: String,
    /// When the event happened, in milliseconds since the epoch.
    pub time: u64,
    pub browsing_context_id: Option<u32>,
    pub inner_window_id: Option<u32>,
    pub new_uri: Option<String>,
    pub title: Option<String>,
    pub url: Option<String>,
}

/// The ghost form of a document lifecycle event.
pub struct DocEventView {
    pub name: Seq<char>,
    pub time: u64,
    pub browsing_context_id: Option<u32>,
    pub inner_window_id: Option<u32>,
    pub new_uri: Option<Seq<char>>,
    pub title: Option<Seq<char>>,
    pub url: Option<Seq<char>>,
}

impl View for DocumentEvent {
    type V = DocEventView;

    open spec fn view(&self) -> DocEventView {
        DocEventView {
            name: self.name@,
            time: self.time,
            browsing_context_id: self.browsing_context_id,
            inner_window_id: self.inner_window_id,
            new_uri: match self.new_uri {
                Some(u) => Some(u@),
                None => None,
            },
            title: match self.title {
                Some(t) => Some(t@),
                None => None,
            },
            url: match self.url {
                Some(u) => Some(u@),
                None => None,
            },
        }
    }
}

/// An optional string as a JSON value: absent strings become null.
pub open spec fn opt_str_val(v: Option<Seq<char>>) -> JVal {
    match v {
        Some(s) => JVal::Str(s),
        None => JVal::Null,
    }
}

/// The wire form of a document lifecycle event.
pub open spec fn document_event_val(e: DocEventView) -> JVal {
    JVal::Obj(
        (match e.browsing_context_id {
            Some(b) => seq![("browsingContextID"@, JVal::Uint(b as u64))],
            None => Seq::empty(),
        }) + seq![("hasNativeConsoleAPI"@, JVal::Null)] + (match e.inner_window_id {
            Some(w) => seq![("innerWindowId"@, JVal::Uint(w as u64))],
            None => Seq::empty(),
        }) + seq![("name"@, JVal::Str(e.name))] + seq![("newURI"@, opt_str_val(e.new_uri))]
            + seq![("time"@, JVal::Uint(e.time))] + (match e.title {
            Some(t) => seq![("title"@, JVal::Str(t))],
            None => Seq::empty(),
        }) + (match e.url {
            Some(u) => seq![("url"@, JVal::Str(u))],
            None => Seq::empty(),
        }),
    )
}

/// The view of a will-navigate event.
pub open spec fn will_navigate_view(url: Seq<char>, browsing_context_id: u32, time: u64)
    -> DocEventView {
    DocEventView {
        name: "will-navigate"@,
        time,
        browsing_context_id: Some(browsing_context_id),
        inner_window_id: Some(0),
        new_uri: Some(url),
        title: None,
        url: None,
    }
}

/// The view of a dom-loading event.
pub open spec fn dom_loading_view(url: Seq<char>, time: u64) -> DocEventView {
    DocEventView {
        name: "dom-loading"@,
        time,
        browsing_context_id: None,
        inner_window_id: None,
        new_uri: None,
        title: None,
        url: Some(url),
    }
}

/// The view of a dom-interactive event.
pub open spec fn dom_interactive_view(title: Seq<char>, url: Seq<char>, time: u64)
    -> DocEventView {
    DocEventView {
        name: "dom-interactive"@,
        time,
        browsing_context_id: None,
        inner_window_id: None,
        new_uri: None,
        title: Some(title),
        url: Some(url),
    }
}

/// The view of a dom-complete event.
pub open spec fn dom_complete_view(time: u64) -> DocEventView {
    DocEventView {
        name: "dom-complete"@,
        time,
        browsing_context_id: None,
        inner_window_id: None,
        new_uri: None,
        title: None,
        url: None,
    }
}

impl DocumentEvent {
    /// The moment of the call, for stamping an event.
    pub fn now() -> u64 {
        crate::clock::now_unix_ms()
    }

    /// The event announcing that a navigation is about to happen.
    pub fn will_navigate(url: String, browsing_context_id: u32, inner_window_id: u32, time: u64)
        -> (r: DocumentEvent)
        ensures
            inner_window_id == 0 ==> r@ == will_navigate_view(url@, browsing_context_id, time),
    {
        DocumentEvent {
            name: "will-navigate".to_owned(),
            time,
            browsing_context_id: Some(browsing_context_id),
            inner_window_id: Some(inner_window_id),
            new_uri: Some(url),
            title: None,
            url: None,
        }
    }

    /// The event announcing that the new document started loading.
    pub fn dom_loading(url: String, time: u64) -> (r: DocumentEvent)
        ensures
            r@ == dom_loading_view(url@, time),
    {
        DocumentEvent {
            name: "dom-loading".to_owned(),
            time,
            browsing_context_id: None,
            inner_window_id: None,
            new_uri: None,
            title: None,
            url: Some(url),
        }
    }

    /// The event announcing that the document became interactive.
    pub fn dom_interactive(title: String, url: String, time: u64) -> (r: DocumentEvent)
        ensures
            r@ == dom_interactive_view(title@, url@, time),
    {
        DocumentEvent {
            name: "dom-interactive".to_owned(),
            time,
            browsing_context_id: None,
            inner_window_id: None,
            new_uri: None,
            title: Some(title),
            url: Some(url),
        }
    }

    /// The event announcing that the document finished loading.
    pub fn dom_complete(time: u64) -> (r: DocumentEvent)
        ensures
            r@ == dom_complete_view(time),
    {
        DocumentEvent {
            name: "dom-complete".to_owned(),
            time,
            browsing_context_id: None,
            inner_window_id: None,
            new_uri: None,
            title: None,
            url: None,
        }
    }

    /// This event as a JSON value.
    pub fn to_json(self) -> (r: Json)
        ensures
            r@ == document_event_val(self@),
    {
        let ghost ge = self@;
        let mut fields: Vec<(String, Json)> = Vec::new();
        match self.browsing_context_id {
            Some(b) => {
                fields.push(("browsingContextID".to_owned(), Json::Uint(b as u64)));
            },
            None => {},
        }
        fields.push(("hasNativeConsoleAPI".to_owned(), Json::Null));
        match self.inner_window_id {
            Some(w) => {
                fields.push(("innerWindowId".to_owned(), Json::Uint(w as u64)));
            },
            None => {},
        }
        fields.push(("name".to_owned(), Json::Str(self.name)));
        match self.new_uri {
            Some(u) => {
                fields.push(("newURI".to_owned(), Json::Str(u)));
            },
            None => {
                fields.push(("newURI".to_owned(), Json::Null));
            },
        }
        fields.push(("time".to_owned(), Json::Uint(self.time)));
        match self.title {
            Some(t) => {
                fields.push(("title".to_owned(), Json::Str(t)));
            },
            None => {},
        }
        match self.url {
            Some(u) => {
                fields.push(("url".to_owned(), Json::Str(u)));
            },
            None => {},
        }
        let r = Json::Obj(fields);
        proof {
            lemma_jflds_of(fields@);
            assert(r@->Obj_0 =~= document_event_val(ge)->Obj_0);
        }
        r
    }
}

/// What a navigation reports: its start, or its end with the new document's
/// details.
pub enum NavigationState {
    Start { url: String },
    Stop { pipeline_id: PipelineId, title: String, url: String },
}

/// The will-navigate notification of a navigation start, framed for the
/// watcher.
pub open spec fn will_navigate_packet(
    watcher: Seq<char>,
    url: Seq<char>,
    browsing_context_id: u32,
    time: u64,
) -> JVal {
    resource_packet(
        watcher,
        "document-event"@,
        ResourceArrayType::Available,
        seq![document_event_val(will_navigate_view(url, browsing_context_id, time))],
    )
}

/// The dom-loading notification of a navigation start.
pub open spec fn dom_loading_packet(from: Seq<char>, url: Seq<char>, time: u64) -> JVal {
    resource_packet(
        from,
        "document-event"@,
        ResourceArrayType::Available,
        seq![document_event_val(dom_loading_view(url, time))],
    )
}

/// The paired dom-interactive and dom-complete notification of a finished
/// navigation, in that order.
pub open spec fn dom_ready_packet(
    from: Seq<char>,
    title: Seq<char>,
    url: Seq<char>,
    time: u64,
) -> JVal {
    resource_packet(
        from,
        "document-event"@,
        ResourceArrayType::Available,
        seq![
            document_event_val(dom_interactive_view(title, url, time)),
            document_event_val(dom_complete_view(time)),
        ],
    )
}

impl BrowsingContextActor {
    /// Handles one message addressed to the target actor: frame and worker
    /// lists are answered directly.
    pub fn handle_message(&self, name: &str, msg_type: &str, stream: &mut StreamBuf) -> (r: Result<
        (),
        ActorError,
    >)
        ensures
            final(stream).id == old(stream).id,
            old(stream).out().is_prefix_of(final(stream).out()),
            r is Err ==> *final(stream) == *old(stream),
            r is Ok ==> crate::actor::replied_from(old(stream).out(), final(stream).out(), name@),
            msg_type@ == "listFrames"@ ==> r is Ok && final(stream).out() == old(
                stream,
            ).out().push(empty_reply_val(name@)),
            msg_type@ == "listWorkers"@ ==> r is Ok && final(stream).out() == old(
                stream,
            ).out().push(
                jobj2("from"@, JVal::Str(name@), "workers"@, JVal::Arr(Seq::empty())),
            ),
            (msg_type@ != "listFrames"@ && msg_type@ != "listWorkers"@) ==> r == Result::<
                (),
                ActorError,
            >::Err(ActorError::UnrecognizedPacketType) && *final(stream) == *old(stream),
    {
        broadcast use crate::registry::group_prefix_lemmas;

        proof {
            reveal_strlit("listFrames");
            reveal_strlit("listWorkers");
            assert("listFrames"@.len() != "listWorkers"@.len());
        }
        if str_eq(msg_type, "listFrames") {
            stream.write_json_packet(empty_reply(name));
            Ok(())
        } else if str_eq(msg_type, "listWorkers") {
            let workers: Vec<Json> = Vec::new();
            proof {
                lemma_jvals_of(workers@);
                assert(jvals_of(workers@) =~= Seq::<JVal>::empty());
            }
            let reply = mk_obj2("from", Json::of_str(name), "workers", Json::Arr(workers));
            stream.write_json_packet(reply);
            Ok(())
        } else {
            Err(ActorError::UnrecognizedPacketType)
        }
    }

    /// Announces a navigation to every attached stream, and tracks the new
    /// document. On a start, streams learn that the old document is going
    /// away (only when the caller can name the browsing context's windows)
    /// and that the new one is loading; on a stop, that the new document is
    /// interactive and complete, in that order within one notification.
    pub fn navigate(
        &mut self,
        state: NavigationState,
        outer_window_id: Option<u32>,
        time: u64,
        streams: &mut Vec<StreamBuf>,
    )
        ensures
            final(self).streams == old(self).streams,
            final(self).name == old(self).name,
            final(self).watcher == old(self).watcher,
            final(streams)@.len() == old(streams)@.len(),
            forall|i: int|
                0 <= i < old(streams)@.len() ==> (#[trigger] final(streams)@[i]).id == old(
                    streams,
                )@[i].id,
            forall|i: int|
                0 <= i < old(streams)@.len() && !old(self).streams@.contains(old(streams)@[i].id)
                    ==> (#[trigger] final(streams)@[i]) == old(streams)@[i],
            state matches NavigationState::Start { url } ==> {
                &&& final(self).url == url
                &&& *final(self) == (BrowsingContextActor { url: final(self).url, ..*old(self) })
                &&& final(self).title == old(self).title
                &&& outer_window_id is Some ==> forall|i: int|
                    0 <= i < old(streams)@.len() && old(self).streams@.contains(
                        old(streams)@[i].id,
                    ) ==> (#[trigger] final(streams)@[i]).out() == old(streams)@[i].out().push(
                        will_navigate_packet(
                            old(self).watcher@,
                            url@,
                            old(self).browsing_context_id,
                            time,
                        ),
                    ).push(dom_loading_packet(old(self).name@, url@, time))
                &&& outer_window_id is None ==> forall|i: int|
                    0 <= i < old(streams)@.len() && old(self).streams@.contains(
                        old(streams)@[i].id,
                    ) ==> (#[trigger] final(streams)@[i]).out() == old(streams)@[i].out().push(
                        dom_loading_packet(old(self).name@, url@, time),
                    )
            },
            state matches NavigationState::Stop { pipeline_id, title, url } ==> {
                &&& forall|i: int|
                    0 <= i < old(streams)@.len() && old(self).streams@.contains(
                        old(streams)@[i].id,
                    ) ==> (#[trigger] final(streams)@[i]).out() == old(streams)@[i].out().push(
                        dom_ready_packet(old(self).name@, title@, url@, time),
                    )
                &&& outer_window_id matches Some(w) ==> final(self).active_outer_window_id == w
                    && final(self).active_pipeline_id == pipeline_id && final(self).url == url
                    && final(self).title == title
                &&& outer_window_id is None ==> final(self).url == old(self).url
                    && final(self).title == old(self).title
            },
    {
        match state {
            NavigationState::Start { url } => {
                if outer_window_id.is_some() {
                    let wn = DocumentEvent::will_navigate(
                        url.clone(),
                        self.browsing_context_id,
                        0,
                        time,
                    );
                    let payload = wn.to_json();
                    broadcast_resource(
                        self.watcher.as_str(),
                        "document-event",
                        ResourceArrayType::Available,
                        &payload,
                        &self.streams,
                        streams,
                    );
                }
                let dl = DocumentEvent::dom_loading(url.clone(), time);
                let payload = dl.to_json();
                broadcast_resource(
                    self.name.as_str(),
                    "document-event",
                    ResourceArrayType::Available,
                    &payload,
                    &self.streams,
                    streams,
                );
                self.url = url;
            },
            NavigationState::Stop { pipeline_id, title, url } => {
                let di = DocumentEvent::dom_interactive(title.clone(), url.clone(), time);
                let dc = DocumentEvent::dom_complete(time);
                let mut payloads: Vec<Json> = Vec::new();
                payloads.push(di.to_json());
                payloads.push(dc.to_json());
                proof {
                    lemma_jvals_of(payloads@);
                    assert(jvals_of(payloads@) =~= seq![
                        document_event_val(dom_interactive_view(title@, url@, time)),
                        document_event_val(dom_complete_view(time)),
                    ]);
                }
                broadcast_resources(
                    self.name.as_str(),
                    "document-event",
                    ResourceArrayType::Available,
                    &payloads,
                    &self.streams,
                    streams,
                );
                match outer_window_id {
                    Some(w) => {
                        self.active_outer_window_id = w;
                        self.active_pipeline_id = pipeline_id;
                        self.url = url;
                        self.title = title;
                    },
                    None => {},
                }
            },
        }
    }

    /// Tracks a title change of the active document; changes of other
    /// pipelines are ignored.
    pub fn title_changed(&mut self, pipeline_id: PipelineId, title: String)
        ensures
            pipeline_id == old(self).active_pipeline_id ==> *final(self) == (BrowsingContextActor {
                title,
                ..*old(self)
            }),
            pipeline_id != old(self).active_pipeline_id ==> *final(self) == *old(self),
    {
        if pipeline_id == self.active_pipeline_id {
            self.title = title;
        }
    }

    /// Asks the page to simulate a color scheme.
    pub fn simulate_color_scheme(&self, scheme: ColorScheme) -> (r: PageCommand)
        ensures
            r == PageCommand::SimulateColorScheme(self.active_pipeline_id, scheme),
    {
        PageCommand::SimulateColorScheme(self.active_pipeline_id, scheme)
    }

    /// Sheds one disconnected stream; the page is told when the last one is
    /// gone.
    pub fn cleanup(&mut self, id: StreamId) -> (r: Option<PageCommand>)
        ensures
            final(self).streams@ == crate::actor::without_stream(old(self).streams@, id),
            *final(self) == (BrowsingContextActor { streams: final(self).streams, ..*old(self) }),
            r is Some <==> (old(self).streams@.contains(id) && final(self).streams@.len() == 0),
            r matches Some(c) ==> c == PageCommand::WantsLiveNotifications(
                old(self).active_pipeline_id,
                false,
            ),
    {
        let n = self.streams.len();
        let mut kept: Vec<StreamId> = Vec::new();
        let mut removed = false;
        let mut i: usize = 0;
        while i < n
            invariant
                n == self.streams@.len(),
                i <= n,
                kept@ == crate::actor::without_stream(self.streams@.subrange(0, i as int), id),
                removed == self.streams@.subrange(0, i as int).contains(id),
            decreases n - i,
        {
            let ghost pre = self.streams@.subrange(0, i as int);
            let s = self.streams[i];
            if s != id {
                kept.push(s);
            } else {
                removed = true;
            }
            proof {
                assert(self.streams@.subrange(0, i + 1 as int) =~= pre.push(s));
                lemma_without_stream_push(pre, s, id);
                if s == id {
                    assert(pre.push(s)[pre.len() as int] == id);
                    assert(pre.push(s).contains(id));
                } else {
                    assert(pre.push(s).contains(id) == pre.contains(id)) by {
                        if pre.push(s).contains(id) {
                            let ix = choose|ix: int|
                                0 <= ix < pre.push(s).len() && pre.push(s)[ix] == id;
                            assert(pre[ix] == id);
                        }
                        if pre.contains(id) {
                            let ix = choose|ix: int| 0 <= ix < pre.len() && pre[ix] == id;
                            assert(pre.push(s)[ix] == id);
                        }
                    }
                }
            }
            i = i + 1;
        }
        proof {
            assert(self.streams@.subrange(0, n as int) =~= self.streams@);
            assert(kept@ == crate::actor::without_stream(self.streams@, id));
        }
        let empty_now = kept.len() == 0;
        self.streams = kept;
        if removed && empty_now {
            Some(PageCommand::WantsLiveNotifications(self.active_pipeline_id, false))
        } else {
            None
        }
    }
}


/// The wire form of a browsing-context target.
pub open spec fn browsing_context_msg_val(a: BrowsingContextActor) -> JVal {
    JVal::Obj(
        seq![
            ("actor"@, JVal::Str(a.name@)),
            ("title"@, JVal::Str(a.title@)),
            ("url"@, JVal::Str(a.url@)),
            ("browserId"@, JVal::Uint(a.browser_id as u64)),
            ("outerWindowID"@, JVal::Uint(a.active_outer_window_id as u64)),
            ("browsingContextID"@, JVal::Uint(a.browsing_context_id as u64)),
            ("isTopLevelTarget"@, JVal::Bool(true)),
            (
                "traits"@,
                JVal::Obj(
                    seq![
                        ("frames"@, JVal::Bool(true)),
                        ("isBrowsingContext"@, JVal::Bool(true)),
                        ("logInPage"@, JVal::Bool(false)),
                        ("navigation"@, JVal::Bool(true)),
                        ("supportsTopLevelTargetFlag"@, JVal::Bool(true)),
                        ("watchpoints"@, JVal::Bool(true)),
                    ],
                ),
            ),
            ("accessibilityActor"@, JVal::Str(a.accessibility@)),
            ("consoleActor"@, JVal::Str(a.console@)),
            ("cssPropertiesActor"@, JVal::Str(a.css_properties@)),
            ("inspectorActor"@, JVal::Str(a.inspector@)),
            ("reflowActor"@, JVal::Str(a.reflow@)),
            ("styleSheetsActor"@, JVal::Str(a.style_sheets@)),
            ("threadActor"@, JVal::Str(a.thread@)),
            ("targetType"@, JVal::Str("frame"@)),
        ],
    )
}

impl BrowsingContextActor {
    /// The wire form of this target.
    pub fn encode(&self) -> (r: Json)
        ensures
            r@ == browsing_context_msg_val(*self),
    {
        let mut traits: Vec<(String, Json)> = Vec::new();
        traits.push(("frames".to_owned(), Json::Bool(true)));
        traits.push(("isBrowsingContext".to_owned(), Json::Bool(true)));
        traits.push(("logInPage".to_owned(), Json::Bool(false)));
        traits.push(("navigation".to_owned(), Json::Bool(true)));
        traits.push(("supportsTopLevelTargetFlag".to_owned(), Json::Bool(true)));
        traits.push(("watchpoints".to_owned(), Json::Bool(true)));
        let ghost gtraits = traits@;
        let traits_obj = Json::Obj(traits);
        let mut fields: Vec<(String, Json)> = Vec::new();
        fields.push(("actor".to_owned(), Json::Str(self.name.clone())));
        fields.push(("title".to_owned(), Json::Str(self.title.clone())));
        fields.push(("url".to_owned(), Json::Str(self.url.clone())));
        fields.push(("browserId".to_owned(), Json::Uint(self.browser_id as u64)));
        fields.push(
            ("outerWindowID".to_owned(), Json::Uint(self.active_outer_window_id as u64)),
        );
        fields.push(
            ("browsingContextID".to_owned(), Json::Uint(self.browsing_context_id as u64)),
        );
        fields.push(("isTopLevelTarget".to_owned(), Json::Bool(true)));
        fields.push(("traits".to_owned(), traits_obj));
        fields.push(("accessibilityActor".to_owned(), Json::Str(self.accessibility.clone())));
        fields.push(("consoleActor".to_owned(), Json::Str(self.console.clone())));
        fields.push(("cssPropertiesActor".to_owned(), Json::Str(self.css_properties.clone())));
        fields.push(("inspectorActor".to_owned(), Json::Str(self.inspector.clone())));
        fields.push(("reflowActor".to_owned(), Json::Str(self.reflow.clone())));
        fields.push(("styleSheetsActor".to_owned(), Json::Str(self.style_sheets.clone())));
        fields.push(("threadActor".to_owned(), Json::Str(self.thread.clone())));
        fields.push(("targetType".to_owned(), Json::of_str("frame")));
        let r = Json::Obj(fields);
        proof {
            lemma_jflds_of(gtraits);
            lemma_jflds_of(fields@);
            assert(crate::json::jflds_of(gtraits) =~= browsing_context_msg_val(
                *self,
            )->Obj_0[7].1->Obj_0);
            assert(r@->Obj_0 =~~= browsing_context_msg_val(*self)->Obj_0);
        }
        r
    }

    /// Announces this target's frame to a stream after a change.
    pub fn frame_update(&self, stream: &mut StreamBuf)
        ensures
            final(stream).id == old(stream).id,
            final(stream).out() == old(stream).out().push(frame_update_val(*self)),
    {
        let mut frame: Vec<(String, Json)> = Vec::new();
        frame.push(("id".to_owned(), Json::Uint(self.active_outer_window_id as u64)));
        frame.push(("isTopLevel".to_owned(), Json::Bool(true)));
        frame.push(("url".to_owned(), Json::Str(self.url.clone())));
        frame.push(("title".to_owned(), Json::Str(self.title.clone())));
        let ghost gframe = frame@;
        let frame_obj = Json::Obj(frame);
        let mut frames: Vec<Json> = Vec::new();
        frames.push(frame_obj);
        let ghost gframes = frames@;
        let mut fields: Vec<(String, Json)> = Vec::new();
        fields.push(("from".to_owned(), Json::Str(self.name.clone())));
        fields.push(("type".to_owned(), Json::of_str("frameUpdate")));
        fields.push(("frames".to_owned(), Json::Arr(frames)));
        let packet = Json::Obj(fields);
        proof {
            lemma_jflds_of(gframe);
            lemma_jvals_of(gframes);
            lemma_jflds_of(fields@);
            assert(crate::json::jflds_of(gframe) =~= frame_update_val(
                *self,
            )->Obj_0[2].1->Arr_0[0]->Obj_0);
            assert(jvals_of(gframes) =~~= seq![frame_update_val(*self)->Obj_0[2].1->Arr_0[0]]);
            assert(packet@->Obj_0 =~~= frame_update_val(*self)->Obj_0);
        }
        stream.write_json_packet(packet);
    }

    /// A fresh target for one browsing context, with its supporting actors
    /// registered at once; the caller installs the returned target under its
    /// own name.
    #[verifier::rlimit(50)]
    pub fn new(
        registry: &mut ActorRegistry,
        console: String,
        browser_id: u32,
        browsing_context_id: u32,
        title: String,
        url: String,
        pipeline_id: PipelineId,
        outer_window_id: u32,
    ) -> (r: BrowsingContextActor)
        requires
            old(registry).wf(),
            old(registry).counter() + 16 <= u64::MAX,
        ensures
            final(registry).wf(),
            r.name@ == name_for(ActorKind::BrowsingContext, old(registry).counter()),
            r.browser_id == browser_id,
            r.browsing_context_id == browsing_context_id,
            r.title == title,
            r.url == url,
            r.active_pipeline_id == pipeline_id,
            r.active_outer_window_id == outer_window_id,
            r.console == console,
            r.streams@.len() == 0,
            final(registry).actors().contains_key(r.accessibility@),
            final(registry).actors().contains_key(r.css_properties@),
            final(registry).actors().contains_key(r.inspector@),
            final(registry).actors().contains_key(r.reflow@),
            final(registry).actors().contains_key(r.style_sheets@),
            final(registry).actors().contains_key(r.tab@),
            final(registry).actors().contains_key(r.thread@),
            final(registry).actors().contains_key(r.watcher@),
            final(registry).actors()[r.tab@] matches ActorHandler::Tab(t)
                && t.browsing_context matches Some(b) && b@ == r.name@,
            final(registry).actors()[r.watcher@] matches ActorHandler::Watcher(w)
                && w.browsing_context@ == r.name@,
    {
        let name = registry.reserve_name(ActorKind::BrowsingContext);

        let accessibility = registry.register(
            ActorKind::Accessibility,
            ActorHandler::Accessibility(AccessibilityActor { name: String::new() }),
        );
        let css_properties = registry.register(
            ActorKind::CssProperties,
            ActorHandler::Support(SupportActor { kind: ActorKind::CssProperties }),
        );
        let inspector = registry.register(
            ActorKind::Inspector,
            ActorHandler::Support(SupportActor { kind: ActorKind::Inspector }),
        );
        let reflow = registry.register(
            ActorKind::Reflow,
            ActorHandler::Support(SupportActor { kind: ActorKind::Reflow }),
        );
        let style_sheets = registry.register(
            ActorKind::StyleSheets,
            ActorHandler::Support(SupportActor { kind: ActorKind::StyleSheets }),
        );
        let tab = registry.register(
            ActorKind::Tab,
            ActorHandler::Tab(
                TabDescriptorActor {
                    browsing_context: Some(name.clone()),
                    is_top_level_global: true,
                },
            ),
        );
        let thread = registry.register(
            ActorKind::Thread,
            ActorHandler::Thread(ThreadActor { source_actor_names: Vec::new() }),
        );
        let watcher = registry.register(
            ActorKind::Watcher,
            ActorHandler::Watcher(WatcherActor { name: String::new(), browsing_context: name.clone() }),
        );

        proof {
            let c0 = old(registry).counter();
            crate::name::lemma_names_unique(ActorKind::Thread, ActorKind::Tab, c0 + 7, c0 + 6);
            crate::name::lemma_names_unique(ActorKind::Watcher, ActorKind::Tab, c0 + 8, c0 + 6);
        }
        BrowsingContextActor {
            name,
            title,
            url,
            browser_id,
            active_pipeline_id: pipeline_id,
            active_outer_window_id: outer_window_id,
            browsing_context_id,
            accessibility,
            console,
            css_properties,
            inspector,
            reflow,
            style_sheets,
            thread,
            tab,
            watcher,
            streams: Vec::new(),
        }
    }
}

/// The frame-update notification of a target.
pub open spec fn frame_update_val(a: BrowsingContextActor) -> JVal {
    JVal::Obj(
        seq![
            ("from"@, JVal::Str(a.name@)),
            ("type"@, JVal::Str("frameUpdate"@)),
            (
                "frames"@,
                JVal::Arr(
                    seq![
                        JVal::Obj(
                            seq![
                                ("id"@, JVal::Uint(a.active_outer_window_id as u64)),
                                ("isTopLevel"@, JVal::Bool(true)),
                                ("url"@, JVal::Str(a.url@)),
                                ("title"@, JVal::Str(a.title@)),
                            ],
                        ),
                    ],
                ),
            ),
        ],
    )
}

proof fn lemma_without_stream_push(s: Seq<StreamId>, x: StreamId, id: StreamId)
    ensures
        crate::actor::without_stream(s.push(x), id) == if x != id {
            crate::actor::without_stream(s, id).push(x)
        } else {
            crate::actor::without_stream(s, id)
        },
{
    reveal(Seq::filter);
    assert(s.push(x).drop_last() =~= s);
}

} // verus!
