//! The actor handler set.
//!
//! Every addressable object the server exposes is one of these handlers,
//! stored in the actor store under its identifier. A typed lookup is a
//! match on the variant: the caller created the name itself and therefore
//! knows the concrete kind; a mismatch is a wiring defect of the server,
//! never a client-triggerable condition.

use vstd::prelude::*;

use crate::actors::network_event::NetworkEventActor;
use crate::json::{Json, JVal, jobj1, mk_obj1};
use crate::page::{PageCommand, PageRequest, PipelineId};
use crate::stream::StreamId;

verus! {

/// What a handler's run asks of the transport next.
pub enum HandlerStep {
    /// The final reply is written; these commands go to the page, no answer
    /// expected.
    Done(Vec<PageCommand>),
    /// The handler needs an answer from the page before it can reply; the
    /// transport performs the round trip and calls the matching completion
    /// function.
    Await(PageRequest),
}

/// Whether a packet sequence grew and now ends with a packet sent by
/// `from`: the shape of every completed reply.
pub open spec fn replied_from(pre: Seq<JVal>, post: Seq<JVal>, from: Seq<char>) -> bool {
    post.len() > pre.len() && crate::json::jget_str(post.last(), "from"@) == Some(from)
}

/// A reply that carries nothing but the sender.
pub open spec fn empty_reply_val(from: Seq<char>) -> JVal {
    jobj1("from"@, JVal::Str(from))
}

/// Builds the reply that carries nothing but the sender.
pub fn empty_reply(from: &str) -> (r: Json)
    ensures
        r@ == empty_reply_val(from@),
{
    mk_obj1("from", Json::of_str(from))
}

/// The one-field form in which a supporting actor appears inside a reply.
pub open spec fn actor_msg_val(actor: Seq<char>) -> JVal {
    jobj1("actor"@, JVal::Str(actor))
}

/// Builds the one-field form in which a supporting actor appears.
pub fn actor_msg(actor: &str) -> (r: Json)
    ensures
        r@ == actor_msg_val(actor@),
{
    mk_obj1("actor", Json::of_str(actor))
}

/// The root target: the fixed entry point a client addresses first.
#[derive(Debug)]
pub struct RootActor {}

/// Describes one web view to the client and links it to its target.
#[derive(Debug)]
pub struct TabDescriptorActor {
    /// The browsing-context actor this descriptor belongs to.
    pub browsing_context: Option<String>,
    pub is_top_level_global: bool,
}

/// The target actor of one browsing context, owning its supporting actors.
#[derive(Debug)]
pub struct BrowsingContextActor {
    pub name: String,
    pub title: String,
    pub url: String,
    /// The identifier of the containing web view.
    pub browser_id: u32,
    pub active_pipeline_id: PipelineId,
    pub active_outer_window_id: u32,
    pub browsing_context_id: u32,
    pub accessibility: String,
    pub console: String,
    pub css_properties: String,
    pub inspector: String,
    pub reflow: String,
    pub style_sheets: String,
    pub thread: String,
    pub tab: String,
    pub watcher: String,
    /// The streams currently attached to this target.
    pub streams: Vec<StreamId>,
}

/// Answers thread-lifecycle messages and lists script sources.
#[derive(Debug)]
pub struct ThreadActor {
    /// The names of the source actors of this thread.
    pub source_actor_names: Vec<String>,
}

/// Hands out a long string in pieces.
#[derive(Debug)]
pub struct LongStringActor {
    pub full_string: String,
}

/// Wraps one script-side object.
#[derive(Debug)]
pub struct ObjectActor {
    /// The script identity of the wrapped object.
    pub uuid: String,
}

/// Answers preference reads from the client.
#[derive(Debug)]
pub struct PreferenceActor {
    /// The embedder's value of the one mapped preference.
    pub service_workers_enabled: bool,
}

/// Accepts breakpoint bookkeeping messages.
#[derive(Debug)]
pub struct BreakpointListActor {}

/// The accessibility tab's entry actor.
#[derive(Debug)]
pub struct AccessibilityActor {
    pub name: String,
}

/// Highlights a node in the page on the client's behalf.
#[derive(Debug)]
pub struct HighlighterActor {
    pub name: String,
    pub browsing_context: String,
}

/// One requested attribute mutation, remembered until the client collects it.
#[derive(Debug)]
pub struct Mutation {
    pub attribute_name: String,
    pub new_value: Option<String>,
    /// The node actor the mutation applies to.
    pub target: String,
}

/// Traverses the DOM tree, creating node actors as it goes.
#[derive(Debug)]
pub struct WalkerActor {
    pub name: String,
    pub browsing_context: String,
    pub pipeline: PipelineId,
    /// The encoded form of the document's root node.
    pub root_node: Json,
    /// Attribute changes since the client last asked for them.
    pub mutations: Vec<Mutation>,
}

/// One DOM node, created by a walker.
#[derive(Debug)]
pub struct NodeActor {
    pub name: String,
    pub walker: String,
}

/// The watcher's network parent actor.
#[derive(Debug)]
pub struct NetworkParentActor {}

/// Holds the thread configuration flags the client applies.
#[derive(Debug)]
pub struct ThreadConfigurationActor {}

/// Fans resource notifications out to the streams of its target.
#[derive(Debug)]
pub struct WatcherActor {
    pub name: String,
    pub browsing_context: String,
}

/// One stack frame, shown while the thread is paused.
#[derive(Debug)]
pub struct FrameActor {
    pub name: String,
    pub source_actor: String,
    pub object_actor: String,
}

/// A supporting actor that only answers to its name: it is created so that
/// its identifier can appear in replies, and handles no message of its own.
#[derive(Debug)]
pub struct SupportActor {
    /// What the actor stands for; decides the identifier's base name.
    pub kind: crate::name::ActorKind,
}

/// A stored actor handler: the tagged union of every concrete actor kind.
#[derive(Debug)]
pub enum ActorHandler {
    Root(RootActor),
    BrowsingContext(BrowsingContextActor),
    Tab(TabDescriptorActor),
    Thread(ThreadActor),
    LongString(LongStringActor),
    Object(ObjectActor),
    Preference(PreferenceActor),
    BreakpointList(BreakpointListActor),
    NetworkEvent(NetworkEventActor),
    Accessibility(AccessibilityActor),
    Highlighter(HighlighterActor),
    Walker(WalkerActor),
    Node(NodeActor),
    NetworkParent(NetworkParentActor),
    ThreadConfiguration(ThreadConfigurationActor),
    Watcher(WatcherActor),
    Frame(FrameActor),
    Support(SupportActor),
}


/// A stream list without one identifier.
pub open spec fn without_stream(streams: Seq<StreamId>, id: StreamId) -> Seq<StreamId> {
    streams.filter(|s: StreamId| s != id)
}

/// What one handler leaves of another after a stream is shed: only the
/// browsing-context target tracks streams; everything else is untouched.
pub open spec fn cleans_to(h: ActorHandler, h2: ActorHandler, id: StreamId) -> bool {
    match h {
        ActorHandler::BrowsingContext(ctx) => h2 matches ActorHandler::BrowsingContext(c2)
            && c2.streams@ == without_stream(ctx.streams@, id) && c2.name == ctx.name
            && c2.title == ctx.title && c2.url == ctx.url && c2.browser_id == ctx.browser_id
            && c2.active_pipeline_id == ctx.active_pipeline_id && c2.active_outer_window_id
            == ctx.active_outer_window_id && c2.browsing_context_id == ctx.browsing_context_id
            && c2.accessibility == ctx.accessibility && c2.console == ctx.console
            && c2.css_properties == ctx.css_properties && c2.inspector == ctx.inspector
            && c2.reflow == ctx.reflow && c2.style_sheets == ctx.style_sheets && c2.thread
            == ctx.thread && c2.tab == ctx.tab && c2.watcher == ctx.watcher,
        _ => h2 == h,
    }
}

/// Sheds one disconnected stream from a handler; the browsing-context
/// target may ask the page to stop its notifications.
pub fn handler_cleanup(h: &mut ActorHandler, id: StreamId) -> (r: Option<crate::page::PageCommand>)
    ensures
        cleans_to(*old(h), *final(h), id),
        r matches Some(c) ==> c matches crate::page::PageCommand::WantsLiveNotifications(
            _,
            flag,
        ) && !flag,
{
    match h {
        ActorHandler::BrowsingContext(ctx) => ctx.cleanup(id),
        _ => None,
    }
}

/// Runs one message through the handler it is addressed to. The handler may
/// look other actors up, stage registrations and removals, and write
/// preliminary packets and its final reply; a failure leaves the stream
/// untouched so the dispatcher can write the error reply. At most one
/// binding of the live store changes under a handler (a node rebinding its
/// walker); everything else a handler adds is staged for the end of the
/// pass.
pub fn handle_message(
    h: &mut ActorHandler,
    name: &str,
    registry: &mut crate::registry::ActorRegistry,
    msg_type: &str,
    msg: &Json,
    stream: &mut crate::stream::StreamBuf,
    stream_id: StreamId,
) -> (r: Result<HandlerStep, crate::error::ActorError>)
    requires
        old(registry).wf(),
        old(registry).counter() < u64::MAX,
    ensures
        final(registry).wf(),
        final(stream).id == old(stream).id,
        final(registry).old_actors == old(registry).old_actors,
        old(registry).new_actors@.is_prefix_of(final(registry).new_actors@),
        old(stream).out().is_prefix_of(final(stream).out()),
        r is Err ==> *final(stream) == *old(stream),
        r matches Ok(HandlerStep::Await(_)) ==> *final(stream) == *old(stream)
            && final(registry).actors() == old(registry).actors()
            && final(registry).new_actors == old(registry).new_actors
            && final(registry).old_actors == old(registry).old_actors,
        r matches Ok(HandlerStep::Done(_)) ==> replied_from(
            old(stream).out(),
            final(stream).out(),
            name@,
        ),
        ((*old(h)) is Root || (*old(h)) is Support || (*old(h)) is Watcher || (*old(h)) is Object) ==> r
            == Result::<HandlerStep, crate::error::ActorError>::Err(
            crate::error::ActorError::UnrecognizedPacketType,
        ),
        final(registry).actors() == old(registry).actors() || (exists|t2: Seq<char>,
        h3: ActorHandler|
            final(registry).actors() =~~= #[trigger] old(registry).actors().insert(t2, h3)),
{
    match h {
        ActorHandler::Walker(_) | ActorHandler::Node(_) | ActorHandler::NetworkEvent(_)
            | ActorHandler::Highlighter(_) => handle_message_inspection(
            h,
            name,
            registry,
            msg_type,
            msg,
            stream,
            stream_id,
        ),
        _ => handle_message_basic(h, name, registry, msg_type, msg, stream, stream_id),
    }
}

/// The inspection-side handlers: the walker, node, network-event and
/// highlighter actors.
fn handle_message_inspection(
    h: &mut ActorHandler,
    name: &str,
    registry: &mut crate::registry::ActorRegistry,
    msg_type: &str,
    msg: &Json,
    stream: &mut crate::stream::StreamBuf,
    _stream_id: StreamId,
) -> (r: Result<HandlerStep, crate::error::ActorError>)
    requires
        old(registry).wf(),
        old(registry).counter() < u64::MAX,
    ensures
        final(registry).wf(),
        final(stream).id == old(stream).id,
        final(registry).old_actors == old(registry).old_actors,
        old(registry).new_actors@.is_prefix_of(final(registry).new_actors@),
        old(stream).out().is_prefix_of(final(stream).out()),
        r is Err ==> *final(stream) == *old(stream),
        r matches Ok(HandlerStep::Await(_)) ==> *final(stream) == *old(stream)
            && final(registry).actors() == old(registry).actors()
            && final(registry).new_actors == old(registry).new_actors
            && final(registry).old_actors == old(registry).old_actors,
        r matches Ok(HandlerStep::Done(_)) ==> replied_from(
            old(stream).out(),
            final(stream).out(),
            name@,
        ),
        ((*old(h)) is Root || (*old(h)) is Support || (*old(h)) is Watcher || (*old(h)) is Object) ==> r
            == Result::<HandlerStep, crate::error::ActorError>::Err(
            crate::error::ActorError::UnrecognizedPacketType,
        ),
        final(registry).actors() == old(registry).actors() || (exists|t2: Seq<char>,
        h3: ActorHandler|
            final(registry).actors() =~~= #[trigger] old(registry).actors().insert(t2, h3)),
{
    broadcast use crate::registry::group_prefix_lemmas;

    match h {
        ActorHandler::NetworkEvent(ne) => ne.handle_message(name, registry, msg_type, stream),
        ActorHandler::Highlighter(hl) => hl.handle_message(name, registry, msg_type, msg, stream),
        ActorHandler::Walker(w) => handle_message_walker(w, name, registry, msg_type, msg, stream),
        ActorHandler::Node(node) => handle_message_node(node, name, registry, msg_type, msg, stream),
        _ => Err(crate::error::ActorError::UnrecognizedPacketType),
    }
}

/// The walker's step, under the shared handler contract.
#[verifier::rlimit(100)]
#[verifier::spinoff_prover]
fn handle_message_walker(
    w: &mut WalkerActor,
    name: &str,
    registry: &mut crate::registry::ActorRegistry,
    msg_type: &str,
    msg: &Json,
    stream: &mut crate::stream::StreamBuf,
) -> (r: Result<HandlerStep, crate::error::ActorError>)
    requires
        old(registry).wf(),
        old(registry).counter() < u64::MAX,
    ensures
        final(registry).wf(),
        final(stream).id == old(stream).id,
        final(registry).old_actors == old(registry).old_actors,
        old(registry).new_actors@.is_prefix_of(final(registry).new_actors@),
        old(stream).out().is_prefix_of(final(stream).out()),
        r is Err ==> *final(stream) == *old(stream),
        r matches Ok(HandlerStep::Await(_)) ==> *final(stream) == *old(stream)
            && final(registry).actors() == old(registry).actors()
            && final(registry).new_actors == old(registry).new_actors
            && final(registry).old_actors == old(registry).old_actors,
        r matches Ok(HandlerStep::Done(_)) ==> replied_from(
            old(stream).out(),
            final(stream).out(),
            name@,
        ),
        final(registry).actors() == old(registry).actors() || (exists|t2: Seq<char>,
        h3: ActorHandler|
            final(registry).actors() =~~= #[trigger] old(registry).actors().insert(t2, h3)),
{
    broadcast use crate::registry::group_prefix_lemmas;

    w.handle_message(name, registry, msg_type, msg, stream)
}

/// The node actor's step, under the shared handler contract. A node may
/// rebind its walker in the live store; nothing else changes there.
#[verifier::rlimit(100)]
#[verifier::spinoff_prover]
fn handle_message_node(
    node: &NodeActor,
    name: &str,
    registry: &mut crate::registry::ActorRegistry,
    msg_type: &str,
    msg: &Json,
    stream: &mut crate::stream::StreamBuf,
) -> (r: Result<HandlerStep, crate::error::ActorError>)
    requires
        old(registry).wf(),
        old(registry).counter() < u64::MAX,
    ensures
        final(registry).wf(),
        final(stream).id == old(stream).id,
        final(registry).old_actors == old(registry).old_actors,
        old(registry).new_actors@.is_prefix_of(final(registry).new_actors@),
        old(stream).out().is_prefix_of(final(stream).out()),
        r is Err ==> *final(stream) == *old(stream),
        r matches Ok(HandlerStep::Await(_)) ==> *final(stream) == *old(stream)
            && final(registry).actors() == old(registry).actors()
            && final(registry).new_actors == old(registry).new_actors
            && final(registry).old_actors == old(registry).old_actors,
        r matches Ok(HandlerStep::Done(_)) ==> replied_from(
            old(stream).out(),
            final(stream).out(),
            name@,
        ),
        final(registry).actors() == old(registry).actors() || (exists|t2: Seq<char>,
        h3: ActorHandler|
            final(registry).actors() =~~= #[trigger] old(registry).actors().insert(t2, h3)),
{
    broadcast use crate::registry::group_prefix_lemmas;

    node.handle_message(name, registry, msg_type, msg, stream)
}

/// Every other handler.
#[verifier::rlimit(100)]
#[verifier::spinoff_prover]
fn handle_message_basic(
    h: &mut ActorHandler,
    name: &str,
    registry: &mut crate::registry::ActorRegistry,
    msg_type: &str,
    msg: &Json,
    stream: &mut crate::stream::StreamBuf,
    _stream_id: StreamId,
) -> (r: Result<HandlerStep, crate::error::ActorError>)
    requires
        old(registry).wf(),
        old(registry).counter() < u64::MAX,
    ensures
        final(registry).wf(),
        final(stream).id == old(stream).id,
        final(registry).old_actors == old(registry).old_actors,
        old(registry).new_actors@.is_prefix_of(final(registry).new_actors@),
        old(stream).out().is_prefix_of(final(stream).out()),
        r is Err ==> *final(stream) == *old(stream),
        r matches Ok(HandlerStep::Await(_)) ==> *final(stream) == *old(stream)
            && final(registry).actors() == old(registry).actors()
            && final(registry).new_actors == old(registry).new_actors
            && final(registry).old_actors == old(registry).old_actors,
        r matches Ok(HandlerStep::Done(_)) ==> replied_from(
            old(stream).out(),
            final(stream).out(),
            name@,
        ),
        ((*old(h)) is Root || (*old(h)) is Support || (*old(h)) is Watcher || (*old(h)) is Object) ==> r
            == Result::<HandlerStep, crate::error::ActorError>::Err(
            crate::error::ActorError::UnrecognizedPacketType,
        ),
        final(registry).actors() == old(registry).actors() || (exists|t2: Seq<char>,
        h3: ActorHandler|
            final(registry).actors() =~~= #[trigger] old(registry).actors().insert(t2, h3)),
{
    broadcast use crate::registry::group_prefix_lemmas;

    match h {
        ActorHandler::Root(_) => Err(crate::error::ActorError::UnrecognizedPacketType),
        ActorHandler::BrowsingContext(ctx) => {
            match ctx.handle_message(name, msg_type, stream) {
                Ok(()) => Ok(HandlerStep::Done(Vec::new())),
                Err(e) => Err(e),
            }
        },
        ActorHandler::Tab(tab) => tab.handle_message(name, registry, msg_type, stream),
        ActorHandler::Thread(thread) => {
            match thread.handle_message(name, registry, msg_type, stream) {
                Ok(()) => Ok(HandlerStep::Done(Vec::new())),
                Err(e) => Err(e),
            }
        },
        ActorHandler::LongString(ls) => {
            match ls.handle_message(name.to_owned(), msg_type, msg, stream) {
                Ok(()) => Ok(HandlerStep::Done(Vec::new())),
                Err(e) => Err(e),
            }
        },
        ActorHandler::Object(_) => Err(crate::error::ActorError::UnrecognizedPacketType),
        ActorHandler::Preference(p) => {
            match p.handle_message(name.to_owned(), msg_type, msg, stream) {
                Ok(()) => Ok(HandlerStep::Done(Vec::new())),
                Err(e) => Err(e),
            }
        },
        ActorHandler::BreakpointList(_) => {
            match crate::actors::breakpoint::handle_breakpoint_list(name, msg_type, stream) {
                Ok(()) => Ok(HandlerStep::Done(Vec::new())),
                Err(e) => Err(e),
            }
        },
        ActorHandler::Accessibility(a) => {
            match a.handle_message(name, registry, msg_type, stream) {
                Ok(()) => Ok(HandlerStep::Done(Vec::new())),
                Err(e) => Err(e),
            }
        },
        ActorHandler::NetworkParent(_) => {
            match crate::actors::network_parent::handle_network_parent(name, msg_type, stream) {
                Ok(()) => Ok(HandlerStep::Done(Vec::new())),
                Err(e) => Err(e),
            }
        },
        ActorHandler::ThreadConfiguration(_) => {
            match crate::actors::thread_configuration::handle_thread_configuration(
                name,
                msg_type,
                stream,
            ) {
                Ok(()) => Ok(HandlerStep::Done(Vec::new())),
                Err(e) => Err(e),
            }
        },
        ActorHandler::Watcher(_) => Err(crate::error::ActorError::UnrecognizedPacketType),
        ActorHandler::Frame(f) => f.handle_message(name, registry, msg_type, stream),
        ActorHandler::Support(_) => Err(crate::error::ActorError::UnrecognizedPacketType),
        _ => Err(crate::error::ActorError::UnrecognizedPacketType),
    }
}

} // verus!
