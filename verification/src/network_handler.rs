//! Pushes network events to every stream attached to a debugging target.
//!
//! Browser-side network activity arrives as typed events for one
//! network-event actor. The actor's state is brought up to date and every
//! handed stream hears about it: a fresh request is announced with the
//! Available framing and at once patched with the Updated framing, so on
//! every stream the snapshot comes strictly before any update; later
//! activity arrives as further updates.

use vstd::prelude::*;

use crate::actor::ActorHandler;
use crate::actors::network_event::{DevtoolsHttpRequest, DevtoolsHttpResponse, NetworkEventActor,
    SecurityDetails, resource_updates_val};
use crate::error::ActorError;
use crate::json::{Json, JVal, jget};
use crate::registry::ActorRegistry;
use crate::resource::{ResourceArrayType, broadcast_resource_all, resource_packet};
use crate::stream::StreamBuf;

verus! {

/// What caused a network request, as told to the client.
#[derive(Debug)]
pub struct Cause {
    pub type_: String,
    pub loading_document_uri: Option<String>,
}

/// The snapshot-then-update packet pair a fresh request earns.
pub open spec fn network_event_pair(w: Seq<char>, ev: JVal, up: JVal) -> Seq<JVal> {
    seq![
        resource_packet(w, "network-event"@, ResourceArrayType::Available, seq![ev]),
        resource_packet(w, "network-event"@, ResourceArrayType::Updated, seq![up]),
    ]
}

/// The lone update packet later activity earns.
pub open spec fn network_event_single(w: Seq<char>, up: JVal) -> Seq<JVal> {
    seq![resource_packet(w, "network-event"@, ResourceArrayType::Updated, seq![up])]
}

/// What recording a request leaves of a network-event actor.
pub open spec fn after_set_request(
    pre: NetworkEventActor,
    post: NetworkEventActor,
    request: DevtoolsHttpRequest,
    connect_ms: u64,
    send_ms: u64,
) -> bool {
    &&& post.request == Some(request)
    &&& post.total_time_ms == connect_ms + send_ms
    &&& (post.event_timing matches Some(t) && t.connect == connect_ms && t.send == send_ms
        && t.blocked == 0 && t.dns == 0 && t.wait == 0 && t.receive == 0)
    &&& post.response == pre.response
    &&& post.name == pre.name
    &&& post.resource_id == pre.resource_id
    &&& post.watcher_name == pre.watcher_name
    &&& post.security_state == pre.security_state
    &&& post.security_info == pre.security_info
    &&& post.cache_details == pre.cache_details
}

/// What recording a response leaves of a network-event actor.
pub open spec fn after_set_response(
    pre: NetworkEventActor,
    post: NetworkEventActor,
    response: DevtoolsHttpResponse,
    from_cache: bool,
) -> bool {
    &&& post.response == Some(response)
    &&& (post.cache_details matches Some(c) && c.from_cache == from_cache
        && !c.from_service_worker)
    &&& post.request == pre.request
    &&& post.name == pre.name
    &&& post.resource_id == pre.resource_id
    &&& post.watcher_name == pre.watcher_name
    &&& post.security_state == pre.security_state
    &&& post.security_info == pre.security_info
    &&& post.event_timing == pre.event_timing
    &&& post.total_time_ms == pre.total_time_ms
}

/// What recording a security report leaves of a network-event actor.
pub open spec fn after_set_security(
    pre: NetworkEventActor,
    post: NetworkEventActor,
    security_info: Option<SecurityDetails>,
) -> bool {
    &&& post.security_info == security_info
    &&& (security_info matches Some(i) ==> post.security_state@ == i.state@)
    &&& (security_info is None ==> post.security_state@ == "insecure"@)
    &&& post.request == pre.request
    &&& post.response == pre.response
    &&& post.name == pre.name
    &&& post.resource_id == pre.resource_id
    &&& post.watcher_name == pre.watcher_name
    &&& post.event_timing == pre.event_timing
    &&& post.total_time_ms == pre.total_time_ms
}

/// What one event leaves of the actor it concerns.
pub open spec fn event_applied(
    pre: NetworkEventActor,
    post: NetworkEventActor,
    event: NetworkEvent,
) -> bool {
    match event {
        NetworkEvent::HttpRequest { request, connect_ms, send_ms } => after_set_request(
            pre,
            post,
            request,
            connect_ms,
            send_ms,
        ),
        NetworkEvent::HttpRequestUpdate { request, connect_ms, send_ms } => after_set_request(
            pre,
            post,
            request,
            connect_ms,
            send_ms,
        ),
        NetworkEvent::HttpResponse { response, from_cache } => after_set_response(
            pre,
            post,
            response,
            from_cache,
        ),
        NetworkEvent::SecurityInfo { security_info } => after_set_security(
            pre,
            post,
            security_info,
        ),
    }
}

/// One piece of network activity concerning one event actor.
pub enum NetworkEvent {
    /// A request went out; its connect and send times are known.
    HttpRequest { request: DevtoolsHttpRequest, connect_ms: u64, send_ms: u64 },
    /// More of the request was learned.
    HttpRequestUpdate { request: DevtoolsHttpRequest, connect_ms: u64, send_ms: u64 },
    /// The response arrived.
    HttpResponse { response: DevtoolsHttpResponse, from_cache: bool },
    /// The connection reported its security.
    SecurityInfo { security_info: Option<SecurityDetails> },
}

/// Brings the named network-event actor up to date and tells every handed
/// stream. A fresh request earns the Available announcement first and the
/// Updated patch second, in that order on every stream; anything later
/// earns only an Updated patch.
pub fn handle_network_event(
    registry: &mut ActorRegistry,
    netevent_actor_name: &str,
    connections: &mut Vec<StreamBuf>,
    event: NetworkEvent,
) -> (r: Result<(), ActorError>)
    requires
        old(registry).wf(),
        (match event {
            NetworkEvent::HttpRequest { request, connect_ms, send_ms } => connect_ms + send_ms
                <= u64::MAX,
            NetworkEvent::HttpRequestUpdate { request, connect_ms, send_ms } => connect_ms
                + send_ms <= u64::MAX,
            _ => true,
        }),
    ensures
        final(registry).wf(),
        final(connections)@.len() == old(connections)@.len(),
        forall|i: int|
            0 <= i < old(connections)@.len() ==> (#[trigger] final(connections)@[i]).id == old(connections)@[i].id,
        r is Err ==> *final(connections) == *old(connections) && final(registry).actors() == old(registry).actors(),
        (r is Ok <==> (old(registry).actors().contains_key(netevent_actor_name@) && old(registry).actors()[netevent_actor_name@] is NetworkEvent)),
        r is Ok ==> (old(registry).actors()[netevent_actor_name@] matches
            ActorHandler::NetworkEvent(a0) && (exists|a2: NetworkEventActor|
            #![trigger event_applied(a0, a2, event)]
            {
                &&& event_applied(a0, a2, event)
                &&& final(registry).actors() =~~= old(registry).actors().insert(
                    netevent_actor_name@,
                    ActorHandler::NetworkEvent(a2),
                )
                &&& (event is HttpRequest ==> exists|ev: JVal|
                    #![trigger jget(ev, "resourceId"@)]
                    {
                        &&& jget(ev, "resourceId"@) == Some(JVal::Uint(a2.resource_id))
                        &&& forall|i: int|
                            0 <= i < old(connections)@.len() ==> (#[trigger] final(connections)@[i]).out() == old(connections)@[i].out()
                                + network_event_pair(
                                a0.watcher_name@,
                                ev,
                                resource_updates_val(a2),
                            )
                    })
                &&& (!(event is HttpRequest) ==> forall|i: int|
                    0 <= i < old(connections)@.len() ==> (#[trigger] final(connections)@[i]).out() == old(connections)@[i].out()
                        + network_event_single(
                        a0.watcher_name@,
                        resource_updates_val(a2),
                    ))
            })),
{
    let mut actor = match registry.store.take(netevent_actor_name) {
        Some(ActorHandler::NetworkEvent(a)) => a,
        Some(other) => {
            registry.store.insert(netevent_actor_name.to_owned(), other);
            proof {
                assert(registry.store@ =~= old(registry).store@);
            }
            return Err(ActorError::Internal);
        },
        None => {
            return Err(ActorError::Internal);
        },
    };
    let ghost ga0 = actor;
    let ghost m0 = old(registry).actors();
    let watcher_name = actor.watcher_name.clone();
    let is_fresh_request = match &event {
        NetworkEvent::HttpRequest { .. } => true,
        _ => false,
    };
    match event {
        NetworkEvent::HttpRequest { request, connect_ms, send_ms } => {
            actor.set_request(request, connect_ms, send_ms);
        },
        NetworkEvent::HttpRequestUpdate { request, connect_ms, send_ms } => {
            actor.set_request(request, connect_ms, send_ms);
        },
        NetworkEvent::HttpResponse { response, from_cache } => {
            actor.set_response(response, from_cache);
        },
        NetworkEvent::SecurityInfo { security_info } => {
            actor.set_security_info(security_info);
        },
    }
    let ghost ga2 = actor;
    proof {
        assert(event_applied(ga0, ga2, event));
    }
    let announcement = if is_fresh_request {
        match actor.event_actor() {
            Ok(v) => Some(v),
            Err(_) => {
                return vstd::pervasive::unreached();
            },
        }
    } else {
        None
    };
    let updates = actor.resource_updates();
    registry.store.insert(netevent_actor_name.to_owned(), ActorHandler::NetworkEvent(actor));
    proof {
        assert(registry.actors() =~~= m0.insert(
            netevent_actor_name@,
            ActorHandler::NetworkEvent(ga2),
        ));
    }
    match announcement {
        Some(ev) => {
            let ghost gev = ev@;
            let ghost gup = updates@;
            broadcast_resource_all(
                watcher_name.as_str(),
                "network-event",
                ResourceArrayType::Available,
                &ev,
                connections,
            );
            broadcast_resource_all(
                watcher_name.as_str(),
                "network-event",
                ResourceArrayType::Updated,
                &updates,
                connections,
            );
            proof {
                let gw = watcher_name@;
                assert(jget(gev, "resourceId"@) == Some(JVal::Uint(ga2.resource_id)));
                assert(gup == resource_updates_val(ga2));
                assert(network_event_pair(gw, gev, gup).len() == 2);
                assert forall|i: int|
                    0 <= i < old(connections)@.len() implies (#[trigger] connections@[i]).out()
                    == old(connections)@[i].out() + network_event_pair(gw, gev, gup) by {
                    assert(connections@[i].out() =~= old(connections)@[i].out()
                        + network_event_pair(gw, gev, gup));
                }
            }
        },
        None => {
            let ghost gup = updates@;
            broadcast_resource_all(
                watcher_name.as_str(),
                "network-event",
                ResourceArrayType::Updated,
                &updates,
                connections,
            );
            proof {
                let gw = watcher_name@;
                assert(gup == resource_updates_val(ga2));
                assert(network_event_single(gw, gup).len() == 1);
                assert forall|i: int|
                    0 <= i < old(connections)@.len() implies (#[trigger] connections@[i]).out()
                    == old(connections)@[i].out() + network_event_single(gw, gup) by {
                    assert(connections@[i].out() =~= old(connections)@[i].out()
                        + network_event_single(gw, gup));
                }
            }
        },
    }
    Ok(())
}

} // verus!
