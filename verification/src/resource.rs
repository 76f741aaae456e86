//! The resource broadcaster.
//!
//! Browser-side events reach attached debugger clients as unsolicited
//! resource notifications in one of two framings: a complete snapshot of a
//! newly observed resource, or an incremental update referencing a resource
//! announced earlier. The broadcaster writes the same framed payload to
//! every stream it is handed; per-stream delivery order is the append order
//! here, so a snapshot broadcast before an update stays before it on every
//! stream.

use vstd::prelude::*;
use vstd::pervasive::VecAdditionalExecFns;

use crate::json::{Json, JVal, jobj3, jvals_of, lemma_jvals_of};
use crate::stream::{StreamBuf, StreamId};

verus! {

/// The two framings of a resource notification.
#[derive(Clone, Copy, Debug, PartialEq, Eq, Structural)]
pub enum ResourceArrayType {
    /// A complete snapshot of a newly observed resource.
    Available,
    /// An incremental patch referencing an already-announced resource.
    Updated,
}

/// The wire name of a framing.
pub open spec fn array_type_name(t: ResourceArrayType) -> Seq<char> {
    match t {
        ResourceArrayType::Available => "resources-available-array"@,
        ResourceArrayType::Updated => "resources-updated-array"@,
    }
}

/// A framed resource notification: the sending actor, the framing, and one
/// batch of payloads under their resource-type label.
pub open spec fn resource_packet(
    from: Seq<char>,
    resource_type: Seq<char>,
    t: ResourceArrayType,
    payloads: Seq<JVal>,
) -> JVal {
    jobj3(
        "from"@,
        JVal::Str(from),
        "type"@,
        JVal::Str(array_type_name(t)),
        "array"@,
        JVal::Arr(seq![JVal::Arr(seq![JVal::Str(resource_type), JVal::Arr(payloads)])]),
    )
}

/// The exec form of the wire name of a framing.
pub fn array_type_str(t: ResourceArrayType) -> (r: &'static str)
    ensures
        r@ == array_type_name(t),
{
    match t {
        ResourceArrayType::Available => "resources-available-array",
        ResourceArrayType::Updated => "resources-updated-array",
    }
}

/// Writes one batch of resources, framed, to one stream.
pub fn resources_array(
    from: &str,
    resource_type: &str,
    t: ResourceArrayType,
    payloads: Vec<Json>,
    stream: &mut StreamBuf,
)
    ensures
        final(stream).id == old(stream).id,
        final(stream).out() == old(stream).out().push(
            resource_packet(from@, resource_type@, t, jvals_of(payloads@)),
        ),
{
    let ghost gpayloads = payloads@;
    let framing_name = array_type_str(t);
    let mut inner: Vec<Json> = Vec::new();
    inner.push(Json::of_str(resource_type));
    inner.push(Json::Arr(payloads));
    let ghost ginner = inner@;
    let mut outer: Vec<Json> = Vec::new();
    outer.push(Json::Arr(inner));
    let ghost gouter = outer@;
    let packet = crate::json::mk_obj3(
        "from",
        Json::of_str(from),
        "type",
        Json::of_str(framing_name),
        "array",
        Json::Arr(outer),
    );
    proof {
        lemma_jvals_of(gpayloads);
        lemma_jvals_of(ginner);
        lemma_jvals_of(gouter);
        assert(jvals_of(ginner) =~= seq![
            JVal::Str(resource_type@),
            JVal::Arr(jvals_of(gpayloads)),
        ]);
        assert(jvals_of(gouter) =~= seq![
            JVal::Arr(seq![JVal::Str(resource_type@), JVal::Arr(jvals_of(gpayloads))]),
        ]);
    }
    stream.write_json_packet(packet);
}

/// Writes one resource, framed, to one stream.
pub fn resource_array(
    from: &str,
    resource_type: &str,
    t: ResourceArrayType,
    payload: Json,
    stream: &mut StreamBuf,
)
    ensures
        final(stream).id == old(stream).id,
        final(stream).out() == old(stream).out().push(
            resource_packet(from@, resource_type@, t, seq![payload@]),
        ),
{
    let ghost gpayload = payload@;
    let mut payloads: Vec<Json> = Vec::new();
    payloads.push(payload);
    proof {
        lemma_jvals_of(payloads@);
        assert(jvals_of(payloads@) =~= seq![gpayload]);
    }
    resources_array(from, resource_type, t, payloads, stream);
}

/// Writes one resource, framed, to every listed stream; streams not listed
/// are left alone. A delivery failure on one stream never prevents delivery
/// to the others.
pub fn broadcast_resource(
    from: &str,
    resource_type: &str,
    t: ResourceArrayType,
    payload: &Json,
    targets: &Vec<StreamId>,
    streams: &mut Vec<StreamBuf>,
)
    ensures
        final(streams)@.len() == old(streams)@.len(),
        forall|i: int|
            0 <= i < old(streams)@.len() ==> (#[trigger] final(streams)@[i]).id == old(
                streams,
            )@[i].id,
        forall|i: int|
            0 <= i < old(streams)@.len() && targets@.contains(old(streams)@[i].id) ==> (
            #[trigger] final(streams)@[i]).out() == old(streams)@[i].out().push(
                resource_packet(from@, resource_type@, t, seq![payload@]),
            ),
        forall|i: int|
            0 <= i < old(streams)@.len() && !targets@.contains(old(streams)@[i].id) ==> (
            #[trigger] final(streams)@[i]) == old(streams)@[i],
{
    let n = streams.len();
    let mut i: usize = 0;
    while i < n
        invariant
            n == streams@.len(),
            n == old(streams)@.len(),
            i <= n,
            forall|k: int| i <= k < n ==> (#[trigger] streams@[k]) == old(streams)@[k],
            forall|k: int| 0 <= k < i ==> (#[trigger] streams@[k]).id == old(streams)@[k].id,
            forall|k: int|
                0 <= k < i && targets@.contains(old(streams)@[k].id) ==> (
                #[trigger] streams@[k]).out() == old(streams)@[k].out().push(
                    resource_packet(from@, resource_type@, t, seq![payload@]),
                ),
            forall|k: int|
                0 <= k < i && !targets@.contains(old(streams)@[k].id) ==> (#[trigger] streams@[k])
                    == old(streams)@[k],
        decreases n - i,
    {
        let mut cur = StreamBuf::new(0);
        streams.set_and_swap(i, &mut cur);
        if contains_id(targets, cur.id) {
            let copy = payload.dup();
            resource_array(from, resource_type, t, copy, &mut cur);
        }
        streams.set_and_swap(i, &mut cur);
        i = i + 1;
    }
}

/// A copy of a batch of payloads, equal value for value.
fn dup_payloads(payloads: &Vec<Json>) -> (r: Vec<Json>)
    ensures
        jvals_of(r@) == jvals_of(payloads@),
{
    let n = payloads.len();
    let mut out: Vec<Json> = Vec::new();
    let mut i: usize = 0;
    while i < n
        invariant
            n == payloads@.len(),
            i <= n,
            out@.len() == i,
            forall|k: int| 0 <= k < i ==> crate::json::jval_of(#[trigger] out@[k])
                == crate::json::jval_of(payloads@[k]),
        decreases n - i,
    {
        out.push(payloads[i].dup());
        i = i + 1;
    }
    proof {
        lemma_jvals_of(out@);
        lemma_jvals_of(payloads@);
        assert(jvals_of(out@) =~= jvals_of(payloads@));
    }
    out
}

/// Writes one batch of resources, framed, to every listed stream; streams
/// not listed are left alone.
pub fn broadcast_resources(
    from: &str,
    resource_type: &str,
    t: ResourceArrayType,
    payloads: &Vec<Json>,
    targets: &Vec<StreamId>,
    streams: &mut Vec<StreamBuf>,
)
    ensures
        final(streams)@.len() == old(streams)@.len(),
        forall|i: int|
            0 <= i < old(streams)@.len() ==> (#[trigger] final(streams)@[i]).id == old(
                streams,
            )@[i].id,
        forall|i: int|
            0 <= i < old(streams)@.len() && targets@.contains(old(streams)@[i].id) ==> (
            #[trigger] final(streams)@[i]).out() == old(streams)@[i].out().push(
                resource_packet(from@, resource_type@, t, jvals_of(payloads@)),
            ),
        forall|i: int|
            0 <= i < old(streams)@.len() && !targets@.contains(old(streams)@[i].id) ==> (
            #[trigger] final(streams)@[i]) == old(streams)@[i],
{
    let n = streams.len();
    let mut i: usize = 0;
    while i < n
        invariant
            n == streams@.len(),
            n == old(streams)@.len(),
            i <= n,
            forall|k: int| i <= k < n ==> (#[trigger] streams@[k]) == old(streams)@[k],
            forall|k: int| 0 <= k < i ==> (#[trigger] streams@[k]).id == old(streams)@[k].id,
            forall|k: int|
                0 <= k < i && targets@.contains(old(streams)@[k].id) ==> (
                #[trigger] streams@[k]).out() == old(streams)@[k].out().push(
                    resource_packet(from@, resource_type@, t, jvals_of(payloads@)),
                ),
            forall|k: int|
                0 <= k < i && !targets@.contains(old(streams)@[k].id) ==> (#[trigger] streams@[k])
                    == old(streams)@[k],
        decreases n - i,
    {
        let mut cur = StreamBuf::new(0);
        streams.set_and_swap(i, &mut cur);
        if contains_id(targets, cur.id) {
            let copies = dup_payloads(payloads);
            resources_array(from, resource_type, t, copies, &mut cur);
        }
        streams.set_and_swap(i, &mut cur);
        i = i + 1;
    }
}

/// Writes one resource, framed, to every given stream.
pub fn broadcast_resource_all(
    from: &str,
    resource_type: &str,
    t: ResourceArrayType,
    payload: &Json,
    streams: &mut Vec<StreamBuf>,
)
    ensures
        final(streams)@.len() == old(streams)@.len(),
        forall|i: int|
            0 <= i < old(streams)@.len() ==> (#[trigger] final(streams)@[i]).id == old(
                streams,
            )@[i].id && final(streams)@[i].out() == old(streams)@[i].out().push(
                resource_packet(from@, resource_type@, t, seq![payload@]),
            ),
{
    let n = streams.len();
    let mut i: usize = 0;
    while i < n
        invariant
            n == streams@.len(),
            n == old(streams)@.len(),
            i <= n,
            forall|k: int| i <= k < n ==> (#[trigger] streams@[k]) == old(streams)@[k],
            forall|k: int|
                0 <= k < i ==> (#[trigger] streams@[k]).id == old(streams)@[k].id
                    && streams@[k].out() == old(streams)@[k].out().push(
                    resource_packet(from@, resource_type@, t, seq![payload@]),
                ),
        decreases n - i,
    {
        let mut cur = StreamBuf::new(0);
        streams.set_and_swap(i, &mut cur);
        let copy = payload.dup();
        resource_array(from, resource_type, t, copy, &mut cur);
        streams.set_and_swap(i, &mut cur);
        i = i + 1;
    }
}

/// Whether a stream identifier is in a list.
pub fn contains_id(ids: &Vec<StreamId>, id: StreamId) -> (r: bool)
    ensures
        r == ids@.contains(id),
{
    let n = ids.len();
    let mut i: usize = 0;
    while i < n
        invariant
            n == ids@.len(),
            i <= n,
            forall|k: int| 0 <= k < i ==> ids@[k] != id,
        decreases n - i,
    {
        if ids[i] == id {
            return true;
        }
        i = i + 1;
    }
    false
}

} // verus!
