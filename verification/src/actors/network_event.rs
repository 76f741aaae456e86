//! The network-event actor: answers the web console's questions about one
//! HTTP request/response pair and feeds the resource broadcaster.

use vstd::prelude::*;

use crate::actor::{ActorHandler, HandlerStep, empty_reply, empty_reply_val};
use crate::error::ActorError;
use crate::json::{Json, JVal, jget, jobj2, mk_obj2, str_eq, jval_of, jvals_of, lemma_jvals_of,
    lemma_jflds_of};
use crate::name::{ActorKind, name_for};
use crate::registry::ActorRegistry;
use crate::stream::StreamBuf;

use super::node::{ascii_lower, ascii_lower_str};

verus! {

/// One cookie as shown to the client.
#[derive(Debug)]
pub struct DevtoolsCookie {
    pub name: String,
    pub value: String,
    /// Only responses carry the remaining fields.
    pub path: Option<String>,
    pub domain: Option<String>,
    pub expires: Option<String>,
    pub http_only: Option<bool>,
    pub secure: Option<bool>,
    pub same_site: Option<String>,
}

/// Network timing figures, in milliseconds.
#[derive(Debug)]
pub struct Timings {
    pub blocked: u32,
    pub dns: u32,
    pub connect: u64,
    pub send: u64,
    pub wait: u32,
    pub receive: u32,
}

/// Whether the response was served from a cache.
#[derive(Debug)]
pub struct CacheDetails {
    pub from_cache: bool,
    pub from_service_worker: bool,
}

/// The parts of an HTTP request the debugger is told about.
#[derive(Debug)]
pub struct DevtoolsHttpRequest {
    pub url: String,
    pub method: String,
    /// Header names and values, in wire order.
    pub headers: Vec<(String, String)>,
    pub body: Option<Vec<u8>>,
    /// When the request started, in milliseconds since the epoch.
    pub started_ms: i64,
    pub time_stamp: i64,
    /// The request destination, as its wire keyword.
    pub destination: String,
    pub cookies: Vec<DevtoolsCookie>,
    pub is_xhr: bool,
}

/// The parts of an HTTP response the debugger is told about.
#[derive(Debug)]
pub struct DevtoolsHttpResponse {
    /// Header names and values, or `None` if none were observed.
    pub headers: Option<Vec<(String, String)>>,
    pub body: Option<Vec<u8>>,
    pub status_code: u16,
    pub status_text: String,
    pub cookies: Vec<DevtoolsCookie>,
}

/// What a TLS connection reported about itself.
#[derive(Debug)]
pub struct SecurityDetails {
    pub state: String,
    pub weakness_reasons: Vec<String>,
    pub protocol_version: Option<String>,
    pub cipher_suite: Option<String>,
    pub kea_group_name: Option<String>,
    pub signature_scheme_name: Option<String>,
    pub alpn_protocol: Option<String>,
    pub certificate_transparency: Option<String>,
    pub hsts: bool,
    pub hpkp: bool,
    pub used_ech: bool,
    pub used_delegated_credentials: bool,
    pub used_ocsp: bool,
    pub used_private_dns: bool,
}

/// The actor for one network event.
#[derive(Debug)]
pub struct NetworkEventActor {
    pub name: String,
    pub resource_id: u64,
    pub watcher_name: String,
    pub request: Option<DevtoolsHttpRequest>,
    pub response: Option<DevtoolsHttpResponse>,
    pub event_timing: Option<Timings>,
    pub cache_details: Option<CacheDetails>,
    pub security_state: String,
    pub security_info: Option<SecurityDetails>,
    /// Total connect and send time, in milliseconds.
    pub total_time_ms: u64,
}

/// The announcement of a network event to a watcher's streams.
#[derive(Debug)]
pub struct NetworkEventMsg {
    pub actor: String,
    pub resource_id: u64,
    pub url: String,
    pub method: String,
    pub started_date_time: String,
    pub time_stamp: i64,
    pub is_xhr: bool,
    pub private: bool,
    pub cause: crate::network_handler::Cause,
}


/// The summed length of all header names and values.
pub open spec fn headers_size(hs: Seq<(String, String)>) -> nat
    decreases hs.len(),
{
    if hs.len() == 0 {
        0
    } else {
        headers_size(hs.drop_last()) + hs.last().0@.len() + hs.last().1@.len()
    }
}

/// The raw text of a header block: `name:value` lines.
pub open spec fn raw_headers(hs: Seq<(String, String)>) -> Seq<char>
    decreases hs.len(),
{
    if hs.len() == 0 {
        Seq::empty()
    } else {
        raw_headers(hs.drop_last()) + hs.last().0@ + ":"@ + hs.last().1@ + "\r\n"@
    }
}

/// One header as its wire entry.
pub open spec fn header_val(name: Seq<char>, value: Seq<char>) -> JVal {
    jobj2("name"@, JVal::Str(name), "value"@, JVal::Str(value))
}

/// The reply listing a header block.
pub open spec fn headers_reply_val(from: Seq<char>, hs: Seq<(String, String)>) -> JVal {
    JVal::Obj(
        seq![
            ("from"@, JVal::Str(from)),
            (
                "headers"@,
                JVal::Arr(Seq::new(hs.len(), |i: int| header_val(hs[i].0@, hs[i].1@))),
            ),
            ("headerSize"@, JVal::Uint(headers_size(hs) as u64)),
            ("rawHeaders"@, JVal::Str(raw_headers(hs))),
        ],
    )
}

/// The header entries, total size and raw text of a header block. Fails
/// only when the sizes do not fit the machine's integers.
#[verifier::loop_isolation(false)]
pub fn parsed_headers(hs: &Vec<(String, String)>) -> (r: Result<(Vec<Json>, u64, String), ()>)
    ensures
        r matches Ok((entries, size, raw)) ==> {
            &&& jvals_of(entries@) == Seq::new(hs@.len(), |i: int| header_val(hs@[i].0@, hs@[i].1@))
            &&& size == headers_size(hs@)
            &&& raw@ == raw_headers(hs@)
        },
        r is Err ==> headers_size(hs@) > u64::MAX,
{
    let n = hs.len();
    let mut entries: Vec<Json> = Vec::new();
    let mut size: u64 = 0;
    let mut raw = String::new();
    let mut i: usize = 0;
    proof {
        assert(hs@.subrange(0, 0) =~= Seq::<(String, String)>::empty());
        assert(raw@ =~= raw_headers(hs@.subrange(0, 0)));
    }
    while i < n
        invariant
            n == hs@.len(),
            i <= n,
            entries@.len() == i,
            forall|k: int| 0 <= k < i ==> jval_of(#[trigger] entries@[k]) == header_val(
                hs@[k].0@,
                hs@[k].1@,
            ),
            size == headers_size(hs@.subrange(0, i as int)),
            raw@ == raw_headers(hs@.subrange(0, i as int)),
        decreases n - i,
    {
        let ghost pre = hs@.subrange(0, i as int);
        let pair = &hs[i];
        let name_len = pair.0.as_str().unicode_len() as u64;
        let value_len = pair.1.as_str().unicode_len() as u64;
        if size > u64::MAX - name_len || size + name_len > u64::MAX - value_len {
            proof {
                let now = hs@.subrange(0, i + 1 as int);
                assert(now.drop_last() =~= pre);
                assert(now.last() == hs@[i as int]);
                assert(headers_size(now) > u64::MAX);
                lemma_headers_size_mono(hs@, i + 1 as int);
            }
            return Err(());
        }
        size = size + name_len + value_len;
        raw.append(pair.0.as_str());
        raw.append(":");
        raw.append(pair.1.as_str());
        raw.append("\r\n");
        entries.push(
            mk_obj2("name", Json::Str(pair.0.clone()), "value", Json::Str(pair.1.clone())),
        );
        proof {
            let now = hs@.subrange(0, i + 1 as int);
            assert(now.drop_last() =~= pre);
            assert(now.last() == hs@[i as int]);
        }
        i = i + 1;
    }
    proof {
        assert(hs@.subrange(0, n as int) =~= hs@);
        lemma_jvals_of(entries@);
        assert(jvals_of(entries@) =~= Seq::new(
            hs@.len(),
            |i: int| header_val(hs@[i].0@, hs@[i].1@),
        ));
    }
    Ok((entries, size, raw))
}

/// A prefix of a header block never outweighs the whole block.
proof fn lemma_headers_size_mono(hs: Seq<(String, String)>, i: int)
    requires
        0 <= i <= hs.len(),
    ensures
        headers_size(hs.subrange(0, i)) <= headers_size(hs),
    decreases hs.len() - i,
{
    if i == hs.len() {
        assert(hs.subrange(0, i) =~= hs);
    } else {
        assert(hs.subrange(0, i + 1).drop_last() =~= hs.subrange(0, i));
        lemma_headers_size_mono(hs, i + 1);
    }
}

/// One cookie as its wire entry; absent parts are left out.
pub open spec fn cookie_val(c: DevtoolsCookie) -> JVal {
    JVal::Obj(
        seq![("name"@, JVal::Str(c.name@)), ("value"@, JVal::Str(c.value@))] + (match c.path {
            Some(p) => seq![("path"@, JVal::Str(p@))],
            None => Seq::empty(),
        }) + (match c.domain {
            Some(d) => seq![("domain"@, JVal::Str(d@))],
            None => Seq::empty(),
        }) + (match c.expires {
            Some(e) => seq![("expires"@, JVal::Str(e@))],
            None => Seq::empty(),
        }) + (match c.http_only {
            Some(h) => seq![("httpOnly"@, JVal::Bool(h))],
            None => Seq::empty(),
        }) + (match c.secure {
            Some(sv) => seq![("secure"@, JVal::Bool(sv))],
            None => Seq::empty(),
        }) + (match c.same_site {
            Some(ss) => seq![("sameSite"@, JVal::Str(ss@))],
            None => Seq::empty(),
        }),
    )
}

impl DevtoolsCookie {
    /// This cookie as its wire entry.
    #[verifier::rlimit(50)]
    pub fn to_json(&self) -> (r: Json)
        ensures
            r@ == cookie_val(*self),
    {
        let mut fields: Vec<(String, Json)> = Vec::new();
        fields.push(("name".to_owned(), Json::Str(self.name.clone())));
        fields.push(("value".to_owned(), Json::Str(self.value.clone())));
        match &self.path {
            Some(p) => fields.push(("path".to_owned(), Json::Str(p.clone()))),
            None => {},
        }
        match &self.domain {
            Some(d) => fields.push(("domain".to_owned(), Json::Str(d.clone()))),
            None => {},
        }
        match &self.expires {
            Some(e) => fields.push(("expires".to_owned(), Json::Str(e.clone()))),
            None => {},
        }
        match &self.http_only {
            Some(h) => fields.push(("httpOnly".to_owned(), Json::Bool(*h))),
            None => {},
        }
        match &self.secure {
            Some(sv) => fields.push(("secure".to_owned(), Json::Bool(*sv))),
            None => {},
        }
        match &self.same_site {
            Some(ss) => fields.push(("sameSite".to_owned(), Json::Str(ss.clone()))),
            None => {},
        }
        let r = Json::Obj(fields);
        proof {
            lemma_jflds_of(fields@);
            assert(r@->Obj_0 =~= cookie_val(*self)->Obj_0);
        }
        r
    }
}

/// The reply to a post-data request: the body bytes, or their absence.
pub open spec fn post_data_reply_val(from: Seq<char>, body: Option<Vec<u8>>) -> JVal {
    JVal::Obj(
        seq![
            ("from"@, JVal::Str(from)),
            (
                "postData"@,
                match body {
                    Some(b) => bytes_val(b@),
                    None => JVal::Null,
                },
            ),
            ("postDataDiscarded"@, JVal::Bool(body is None)),
        ],
    )
}

/// The reply listing cookies.
pub open spec fn cookies_reply_val(from: Seq<char>, cookies: Seq<DevtoolsCookie>) -> JVal {
    jobj2(
        "from"@,
        JVal::Str(from),
        "cookies"@,
        JVal::Arr(Seq::new(cookies.len(), |i: int| cookie_val(cookies[i]))),
    )
}

/// Builds the reply listing cookies.
fn cookies_reply(from: &str, cookies: &Vec<DevtoolsCookie>) -> (r: Json)
    ensures
        r@ == cookies_reply_val(from@, cookies@),
{
    let n = cookies.len();
    let mut entries: Vec<Json> = Vec::new();
    let mut i: usize = 0;
    while i < n
        invariant
            n == cookies@.len(),
            i <= n,
            entries@.len() == i,
            forall|k: int| 0 <= k < i ==> jval_of(#[trigger] entries@[k]) == cookie_val(
                cookies@[k],
            ),
        decreases n - i,
    {
        entries.push(cookies[i].to_json());
        i = i + 1;
    }
    let ghost gentries = entries@;
    let r = mk_obj2("from", Json::of_str(from), "cookies", Json::Arr(entries));
    proof {
        lemma_jvals_of(gentries);
        assert(jvals_of(gentries) =~= Seq::new(
            cookies@.len(),
            |i: int| cookie_val(cookies@[i]),
        ));
    }
    r
}

/// Whether one string occurs inside another.
pub open spec fn contains_sub(s: Seq<char>, sub: Seq<char>) -> bool {
    exists|i: int| 0 <= i <= s.len() - sub.len() && #[trigger] s.subrange(i, i + sub.len()) == sub
}

/// Whether one string occurs inside another.
#[verifier::loop_isolation(false)]
pub fn str_contains(s: &str, sub: &str) -> (r: bool)
    ensures
        r == contains_sub(s@, sub@),
{
    let n = s.unicode_len();
    let m = sub.unicode_len();
    if m > n {
        return false;
    }
    if m == 0 {
        proof {
            assert(s@.subrange(0, 0 + sub@.len() as int) =~= sub@);
        }
        return true;
    }
    let mut i: usize = 0;
    while i <= n - m
        invariant
            n == s@.len(),
            m == sub@.len(),
            m <= n,
            i <= n - m + 1,
            forall|k: int| 0 <= k < i ==> #[trigger] s@.subrange(k, k + sub@.len()) != sub@,
        decreases n - m + 1 - i,
    {
        let piece = s.substring_char(i, i + m);
        if str_eq(piece, sub) {
            proof {
                assert(s@.subrange(i as int, i + m as int) == sub@);
            }
            return true;
        }
        i = i + 1;
    }
    false
}

/// Whether a mime type names textual content the inspector shows directly.
pub open spec fn spec_is_text_mime(mime: Seq<char>) -> bool {
    let lower = ascii_lower(mime);
    ||| crate::actors::highlighter::has_prefix(lower, "text/"@)
    ||| contains_sub(lower, "json"@)
    ||| contains_sub(lower, "javascript"@)
    ||| contains_sub(lower, "xml"@)
    ||| contains_sub(lower, "csv"@)
    ||| contains_sub(lower, "html"@)
}

/// Whether a mime type names textual content.
pub fn is_text_mime(mime: &str) -> (r: bool)
    ensures
        r == spec_is_text_mime(mime@),
{
    let lower = ascii_lower_str(mime);
    let lower_str = lower.as_str();
    let prefix = if lower_str.unicode_len() >= 5 {
        let head = lower_str.substring_char(0, 5);
        str_eq(head, "text/")
    } else {
        proof {
            reveal_strlit("text/");
        }
        false
    };
    proof {
        reveal_strlit("text/");
    }
    prefix || str_contains(lower_str, "json") || str_contains(lower_str, "javascript")
        || str_contains(lower_str, "xml") || str_contains(lower_str, "csv") || str_contains(
        lower_str,
        "html",
    )
}

/// The first header with the given ASCII-case-insensitive name.
#[verifier::loop_isolation(false)]
fn find_header(hs: &Vec<(String, String)>, name: &str) -> (r: Option<String>)
    ensures
        (match r {
            Some(v) => exists|i: int|
                0 <= i < hs@.len() && ascii_lower((#[trigger] hs@[i]).0@) == ascii_lower(name@)
                    && v@ == hs@[i].1@,
            None => forall|i: int|
                0 <= i < hs@.len() ==> ascii_lower((#[trigger] hs@[i]).0@) != ascii_lower(name@),
        }),
{
    let wanted = ascii_lower_str(name);
    let n = hs.len();
    let mut i: usize = 0;
    while i < n
        invariant
            n == hs@.len(),
            i <= n,
            wanted@ == ascii_lower(name@),
            forall|k: int|
                0 <= k < i ==> ascii_lower((#[trigger] hs@[k]).0@) != ascii_lower(name@),
        decreases n - i,
    {
        let candidate = ascii_lower_str(hs[i].0.as_str());
        if candidate == wanted {
            return Some(hs[i].1.clone());
        }
        i = i + 1;
    }
    None
}

/// Relies on base64's STANDARD engine encode: four output characters for
/// every three input bytes, padded.
#[verifier::external_body]
fn base64_encode(bytes: &Vec<u8>) -> (r: String)
    requires
        bytes@.len() < 0x1000_0000_0000_0000,
    ensures
        r@ == base64_of(bytes@),
        r@.len() == 4 * ((bytes@.len() + 2) / 3),
{
    base64::Engine::encode(&base64::engine::general_purpose::STANDARD, bytes.as_slice())
}

/// What base64's STANDARD engine encodes a byte string to.
pub uninterp spec fn base64_of(bytes: Seq<u8>) -> Seq<char>;

/// A byte string as a JSON array of its byte values.
pub open spec fn bytes_val(bytes: Seq<u8>) -> JVal {
    JVal::Arr(Seq::new(bytes.len(), |i: int| JVal::Uint(bytes[i] as u64)))
}

/// Builds the JSON array of a byte string.
fn bytes_to_json(bytes: &Vec<u8>) -> (r: Json)
    ensures
        r@ == bytes_val(bytes@),
{
    let n = bytes.len();
    let mut out: Vec<Json> = Vec::new();
    let mut i: usize = 0;
    while i < n
        invariant
            n == bytes@.len(),
            i <= n,
            out@.len() == i,
            forall|k: int| 0 <= k < i ==> jval_of(#[trigger] out@[k]) == JVal::Uint(
                bytes@[k] as u64,
            ),
        decreases n - i,
    {
        out.push(Json::Uint(bytes[i] as u64));
        i = i + 1;
    }
    let ghost gout = out@;
    let r = Json::Arr(out);
    proof {
        lemma_jvals_of(gout);
        assert(jvals_of(gout) =~= Seq::new(bytes@.len(), |i: int| JVal::Uint(bytes@[i] as u64)));
    }
    r
}

/// The reply to `getEventTimings`.
pub open spec fn event_timings_reply_val(from: Seq<char>, t: Timings, total: u64) -> JVal {
    JVal::Obj(
        seq![
            ("from"@, JVal::Str(from)),
            (
                "timings"@,
                JVal::Obj(
                    seq![
                        ("blocked"@, JVal::Uint(t.blocked as u64)),
                        ("dns"@, JVal::Uint(t.dns as u64)),
                        ("connect"@, JVal::Uint(t.connect)),
                        ("send"@, JVal::Uint(t.send)),
                        ("wait"@, JVal::Uint(t.wait as u64)),
                        ("receive"@, JVal::Uint(t.receive as u64)),
                    ],
                ),
            ),
            ("totalTime"@, JVal::Uint(total)),
        ],
    )
}

impl Timings {
    /// These timings as a JSON value.
    pub fn to_json(&self) -> (r: Json)
        ensures
            r@ == event_timings_reply_val(Seq::<char>::empty(), *self, 0)->Obj_0[1].1,
    {
        let mut fields: Vec<(String, Json)> = Vec::new();
        fields.push(("blocked".to_owned(), Json::Uint(self.blocked as u64)));
        fields.push(("dns".to_owned(), Json::Uint(self.dns as u64)));
        fields.push(("connect".to_owned(), Json::Uint(self.connect)));
        fields.push(("send".to_owned(), Json::Uint(self.send)));
        fields.push(("wait".to_owned(), Json::Uint(self.wait as u64)));
        fields.push(("receive".to_owned(), Json::Uint(self.receive as u64)));
        let r = Json::Obj(fields);
        proof {
            lemma_jflds_of(fields@);
            assert(r@->Obj_0 =~= event_timings_reply_val(
                Seq::<char>::empty(),
                *self,
                0,
            )->Obj_0[1].1->Obj_0);
        }
        r
    }
}

impl NetworkEventActor {
    /// A fresh network-event actor: nothing observed yet, reported insecure
    /// until the connection says otherwise.
    pub fn new(name: String, resource_id: u64, watcher_name: String) -> (r: NetworkEventActor)
        ensures
            r.name == name,
            r.resource_id == resource_id,
            r.watcher_name == watcher_name,
            r.request is None,
            r.response is None,
            r.event_timing is None,
            r.cache_details is None,
            r.security_info is None,
            r.security_state@ == "insecure"@,
            r.total_time_ms == 0,
    {
        NetworkEventActor {
            name,
            resource_id,
            watcher_name,
            request: None,
            response: None,
            event_timing: None,
            cache_details: None,
            security_state: "insecure".to_owned(),
            security_info: None,
            total_time_ms: 0,
        }
    }

    /// Records the request of this event, with its connect and send times.
    pub fn set_request(&mut self, request: DevtoolsHttpRequest, connect_ms: u64, send_ms: u64)
        requires
            connect_ms + send_ms <= u64::MAX,
        ensures
            final(self).request == Some(request),
            final(self).total_time_ms == connect_ms + send_ms,
            final(self).event_timing matches Some(t) && t.connect == connect_ms && t.send
                == send_ms && t.blocked == 0 && t.dns == 0 && t.wait == 0 && t.receive == 0,
            final(self).response == old(self).response,
            final(self).name == old(self).name,
            final(self).resource_id == old(self).resource_id,
            final(self).watcher_name == old(self).watcher_name,
            final(self).security_state == old(self).security_state,
            final(self).security_info == old(self).security_info,
            final(self).cache_details == old(self).cache_details,
    {
        self.total_time_ms = connect_ms + send_ms;
        self.event_timing = Some(
            Timings { blocked: 0, dns: 0, connect: connect_ms, send: send_ms, wait: 0, receive: 0 },
        );
        self.request = Some(request);
    }

    /// Records the response of this event.
    pub fn set_response(&mut self, response: DevtoolsHttpResponse, from_cache: bool)
        ensures
            final(self).response == Some(response),
            final(self).cache_details matches Some(c) && c.from_cache == from_cache
                && !c.from_service_worker,
            final(self).request == old(self).request,
            final(self).name == old(self).name,
            final(self).resource_id == old(self).resource_id,
            final(self).watcher_name == old(self).watcher_name,
            final(self).security_state == old(self).security_state,
            final(self).security_info == old(self).security_info,
            final(self).event_timing == old(self).event_timing,
            final(self).total_time_ms == old(self).total_time_ms,
    {
        self.cache_details = Some(CacheDetails { from_cache, from_service_worker: false });
        self.response = Some(response);
    }

    /// Records what the connection reported about its security; without a
    /// report the event counts as insecure.
    pub fn set_security_info(&mut self, security_info: Option<SecurityDetails>)
        ensures
            final(self).security_info == security_info,
            security_info matches Some(i) ==> final(self).security_state@ == i.state@,
            security_info is None ==> final(self).security_state@ == "insecure"@,
            final(self).request == old(self).request,
            final(self).response == old(self).response,
            final(self).name == old(self).name,
            final(self).resource_id == old(self).resource_id,
            final(self).watcher_name == old(self).watcher_name,
            final(self).event_timing == old(self).event_timing,
            final(self).total_time_ms == old(self).total_time_ms,
    {
        match &security_info {
            Some(i) => {
                self.security_state = i.state.clone();
            },
            None => {
                self.security_state = "insecure".to_owned();
            },
        }
        self.security_info = security_info;
    }

    /// Handles one message addressed to the network-event actor. Questions
    /// about a part of the event that was never observed are internal
    /// faults: the client is asking about data this server has not seen.
    pub fn handle_message(
        &self,
        name: &str,
        registry: &mut ActorRegistry,
        msg_type: &str,
        stream: &mut StreamBuf,
    ) -> (r: Result<HandlerStep, ActorError>)
        requires
            old(registry).wf(),
            old(registry).counter() < u64::MAX,
        ensures
            final(registry).wf(),
            final(stream).id == old(stream).id,
            final(registry).actors() == old(registry).actors(),
            final(registry).old_actors == old(registry).old_actors,
            old(registry).new_actors@.is_prefix_of(final(registry).new_actors@),
            old(stream).out().is_prefix_of(final(stream).out()),
            r is Err ==> *final(stream) == *old(stream),
            !(r matches Ok(HandlerStep::Await(_))),
            r matches Ok(HandlerStep::Done(_)) ==> crate::actor::replied_from(
                old(stream).out(),
                final(stream).out(),
                name@,
            ),
            (msg_type@ == "getRequestCookies"@ && self.request is Some) ==> r is Ok && final(stream).out() == old(stream).out().push(
                cookies_reply_val(name@, self.request->0.cookies@),
            ),
            (msg_type@ == "getRequestHeaders"@ && self.request is Some && headers_size(
                self.request->0.headers@,
            ) <= u64::MAX) ==> r is Ok && final(stream).out() == old(stream).out().push(
                headers_reply_val(name@, self.request->0.headers@),
            ),
            (msg_type@ == "getRequestCookies"@ && self.request is None) ==> r == Result::<
                HandlerStep,
                ActorError,
            >::Err(ActorError::Internal),
            (msg_type@ == "getRequestHeaders"@ && self.request is None) ==> r == Result::<
                HandlerStep,
                ActorError,
            >::Err(ActorError::Internal),
            msg_type@ == "getRequestPostData"@ ==> {
                &&& self.request is None ==> r == Result::<HandlerStep, ActorError>::Err(
                    ActorError::Internal,
                )
                &&& self.request is Some ==> r is Ok && final(stream).out() == old(stream).out().push(post_data_reply_val(name@, self.request->0.body))
            },
            msg_type@ == "getResponseHeaders"@ ==> {
                &&& (self.response is None || (self.response is Some && self.response->0.headers
                    is None)) ==> r == Result::<HandlerStep, ActorError>::Err(ActorError::Internal)
                &&& (self.response is Some && self.response->0.headers is Some && headers_size(
                    self.response->0.headers->0@,
                ) <= u64::MAX) ==> r is Ok && final(stream).out() == old(stream).out().push(headers_reply_val(name@, self.response->0.headers->0@))
            },
            msg_type@ == "getResponseCookies"@ ==> {
                &&& self.response is None ==> r == Result::<HandlerStep, ActorError>::Err(
                    ActorError::Internal,
                )
                &&& self.response is Some ==> r is Ok && final(stream).out() == old(stream).out().push(cookies_reply_val(name@, self.response->0.cookies@))
            },
            (msg_type@ == "getResponseContent"@ && (self.response is None || (self.response
                is Some && self.response->0.headers is None))) ==> r == Result::<
                HandlerStep,
                ActorError,
            >::Err(ActorError::Internal),
            (msg_type@ == "getResponseContent"@ && r is Ok) ==> exists|c: JVal|
                #![trigger jget(c, "text"@)]
                {
                    &&& final(stream).out() == old(stream).out().push(
                        JVal::Obj(
                            seq![
                                ("from"@, JVal::Str(name@)),
                                ("content"@, c),
                                (
                                    "contentDiscarded"@,
                                    JVal::Bool(self.response->0.body is None),
                                ),
                            ],
                        ),
                    )
                    &&& (self.response->0.body is None ==> c == JVal::Null)
                },
            msg_type@ == "getSecurityInfo"@ ==> r is Ok && (exists|info: JVal|
                #![trigger jobj2("from"@, JVal::Str(name@), "securityInfo"@, info)]
                final(stream).out() == old(stream).out().push(
                    jobj2("from"@, JVal::Str(name@), "securityInfo"@, info),
                )),
            (msg_type@ == "getEventTimings"@ && self.event_timing is Some) ==> r is Ok && final(stream).out() == old(stream).out().push(
                event_timings_reply_val(name@, self.event_timing->0, self.total_time_ms),
            ),
            (msg_type@ != "getRequestHeaders"@ && msg_type@ != "getRequestCookies"@ && msg_type@
                != "getRequestPostData"@ && msg_type@ != "getResponseHeaders"@ && msg_type@
                != "getResponseCookies"@ && msg_type@ != "getResponseContent"@ && msg_type@
                != "getEventTimings"@ && msg_type@ != "getSecurityInfo"@) ==> r == Result::<
                HandlerStep,
                ActorError,
            >::Err(ActorError::UnrecognizedPacketType),
    {
        broadcast use crate::registry::group_prefix_lemmas;

        proof {
            reveal_strlit("getRequestHeaders");
            reveal_strlit("getRequestCookies");
            reveal_strlit("getRequestPostData");
            reveal_strlit("getResponseHeaders");
            reveal_strlit("getResponseCookies");
            reveal_strlit("getResponseContent");
            reveal_strlit("getEventTimings");
            reveal_strlit("getSecurityInfo");
            assert("getRequestHeaders"@[10] != "getRequestCookies"@[10]);
            assert("getRequestHeaders"@.len() != "getRequestPostData"@.len());
            assert("getRequestHeaders"@[5] != "getResponseHeaders"@[5]);
            assert("getRequestHeaders"@[5] != "getResponseCookies"@[5]);
            assert("getRequestHeaders"@[5] != "getResponseContent"@[5]);
            assert("getRequestHeaders"@.len() != "getEventTimings"@.len());
            assert("getRequestHeaders"@.len() != "getSecurityInfo"@.len());
            assert("getRequestCookies"@.len() != "getRequestPostData"@.len());
            assert("getRequestCookies"@[5] != "getResponseHeaders"@[5]);
            assert("getRequestCookies"@[5] != "getResponseCookies"@[5]);
            assert("getRequestCookies"@[5] != "getResponseContent"@[5]);
            assert("getRequestCookies"@.len() != "getEventTimings"@.len());
            assert("getRequestCookies"@.len() != "getSecurityInfo"@.len());
            assert("getRequestPostData"@[5] != "getResponseHeaders"@[5]);
            assert("getRequestPostData"@[5] != "getResponseCookies"@[5]);
            assert("getRequestPostData"@[5] != "getResponseContent"@[5]);
            assert("getRequestPostData"@.len() != "getEventTimings"@.len());
            assert("getRequestPostData"@.len() != "getSecurityInfo"@.len());
            assert("getResponseHeaders"@[11] != "getResponseCookies"@[11]);
            assert("getResponseHeaders"@[13] != "getResponseContent"@[13]);
            assert("getResponseHeaders"@.len() != "getEventTimings"@.len());
            assert("getResponseHeaders"@.len() != "getSecurityInfo"@.len());
            assert("getResponseCookies"@[13] != "getResponseContent"@[13]);
            assert("getResponseCookies"@.len() != "getEventTimings"@.len());
            assert("getResponseCookies"@.len() != "getSecurityInfo"@.len());
            assert("getResponseContent"@.len() != "getEventTimings"@.len());
            assert("getResponseContent"@.len() != "getSecurityInfo"@.len());
            assert("getEventTimings"@[3] != "getSecurityInfo"@[3]);
        }
        if str_eq(msg_type, "getRequestHeaders") {
            let req = match &self.request {
                Some(req) => req,
                None => {
                    return Err(ActorError::Internal);
                },
            };
            let (entries, size, raw) = match parsed_headers(&req.headers) {
                Ok(t) => t,
                Err(_) => {
                    return Err(ActorError::Internal);
                },
            };
            let mut fields: Vec<(String, Json)> = Vec::new();
            fields.push(("from".to_owned(), Json::of_str(name)));
            fields.push(("headers".to_owned(), Json::Arr(entries)));
            fields.push(("headerSize".to_owned(), Json::Uint(size)));
            fields.push(("rawHeaders".to_owned(), Json::Str(raw)));
            let reply = Json::Obj(fields);
            proof {
                lemma_jflds_of(fields@);
                assert(reply@->Obj_0 =~~= headers_reply_val(name@, req.headers@)->Obj_0);
            }
            stream.write_json_packet(reply);
            Ok(HandlerStep::Done(Vec::new()))
        } else if str_eq(msg_type, "getRequestCookies") {
            let req = match &self.request {
                Some(req) => req,
                None => {
                    return Err(ActorError::Internal);
                },
            };
            let reply = cookies_reply(name, &req.cookies);
            stream.write_json_packet(reply);
            Ok(HandlerStep::Done(Vec::new()))
        } else if str_eq(msg_type, "getRequestPostData") {
            let req = match &self.request {
                Some(req) => req,
                None => {
                    return Err(ActorError::Internal);
                },
            };
            let (post_data, discarded) = match &req.body {
                Some(body) => (bytes_to_json(body), false),
                None => (Json::Null, true),
            };
            let mut fields: Vec<(String, Json)> = Vec::new();
            fields.push(("from".to_owned(), Json::of_str(name)));
            fields.push(("postData".to_owned(), post_data));
            fields.push(("postDataDiscarded".to_owned(), Json::Bool(discarded)));
            let reply = Json::Obj(fields);
            proof {
                lemma_jflds_of(fields@);
                assert(reply@->Obj_0 =~~= post_data_reply_val(
                    name@,
                    self.request->0.body,
                )->Obj_0);
            }
            stream.write_json_packet(reply);
            Ok(HandlerStep::Done(Vec::new()))
        } else if str_eq(msg_type, "getResponseHeaders") {
            let res = match &self.response {
                Some(res) => res,
                None => {
                    return Err(ActorError::Internal);
                },
            };
            let hs = match &res.headers {
                Some(hs) => hs,
                None => {
                    return Err(ActorError::Internal);
                },
            };
            let (entries, size, raw) = match parsed_headers(hs) {
                Ok(t) => t,
                Err(_) => {
                    return Err(ActorError::Internal);
                },
            };
            let mut fields: Vec<(String, Json)> = Vec::new();
            fields.push(("from".to_owned(), Json::of_str(name)));
            fields.push(("headers".to_owned(), Json::Arr(entries)));
            fields.push(("headerSize".to_owned(), Json::Uint(size)));
            fields.push(("rawHeaders".to_owned(), Json::Str(raw)));
            let reply = Json::Obj(fields);
            proof {
                lemma_jflds_of(fields@);
                assert(reply@->Obj_0 =~~= headers_reply_val(
                    name@,
                    self.response->0.headers->0@,
                )->Obj_0);
            }
            stream.write_json_packet(reply);
            Ok(HandlerStep::Done(Vec::new()))
        } else if str_eq(msg_type, "getResponseCookies") {
            let res = match &self.response {
                Some(res) => res,
                None => {
                    return Err(ActorError::Internal);
                },
            };
            let reply = cookies_reply(name, &res.cookies);
            stream.write_json_packet(reply);
            Ok(HandlerStep::Done(Vec::new()))
        } else if str_eq(msg_type, "getResponseContent") {
            let res = match &self.response {
                Some(res) => res,
                None => {
                    return Err(ActorError::Internal);
                },
            };
            let hs = match &res.headers {
                Some(hs) => hs,
                None => {
                    return Err(ActorError::Internal);
                },
            };
            let (_, hsize, _) = match parsed_headers(hs) {
                Ok(t) => t,
                Err(_) => {
                    return Err(ActorError::Internal);
                },
            };
            let mime = match find_header(hs, "content-type") {
                Some(v) => v,
                None => String::new(),
            };
            let transferred: u64 = match find_header(hs, "content-length") {
                Some(v) => match parse_u64(v.as_str()) {
                    Some(u) => u,
                    None => 0,
                },
                None => 0,
            };
            let (content, discarded) = match &res.body {
                Some(body) => {
                    let body_len = body.len() as u64;
                    let text: Json;
                    let encoding: Option<Json>;
                    if is_text_mime(mime.as_str()) {
                        let full = bytes_to_string_lossy(body);
                        let long_string_name = registry.reserve_name(ActorKind::LongString);
                        let ls_actor = crate::actor::LongStringActor { full_string: full };
                        let obj = ls_actor.long_string_obj(long_string_name.clone()).to_json();
                        registry.register_deferred(
                            long_string_name,
                            ActorHandler::LongString(ls_actor),
                        );
                        text = obj;
                        encoding = None;
                    } else {
                        if body_len >= 0x1000_0000_0000_0000u64 {
                            return Err(ActorError::Internal);
                        }
                        text = Json::Str(base64_encode(body));
                        encoding = Some(Json::of_str("base64"));
                    }
                    let mut cf: Vec<(String, Json)> = Vec::new();
                    cf.push(("mimeType".to_owned(), Json::Str(mime)));
                    cf.push(("text".to_owned(), text));
                    cf.push(("bodySize".to_owned(), Json::Uint(body_len)));
                    cf.push(("decodedBodySize".to_owned(), Json::Uint(body_len)));
                    cf.push(("size".to_owned(), Json::Uint(body_len)));
                    cf.push(("headersSize".to_owned(), Json::Uint(hsize)));
                    cf.push(("transferredSize".to_owned(), Json::Uint(transferred)));
                    match encoding {
                        Some(e) => cf.push(("encoding".to_owned(), e)),
                        None => {},
                    }
                    (Json::Obj(cf), false)
                },
                None => (Json::Null, true),
            };
            let ghost gcontent = content@;
            let mut fields: Vec<(String, Json)> = Vec::new();
            fields.push(("from".to_owned(), Json::of_str(name)));
            fields.push(("content".to_owned(), content));
            fields.push(("contentDiscarded".to_owned(), Json::Bool(discarded)));
            let reply = Json::Obj(fields);
            proof {
                lemma_jflds_of(fields@);
                assert(jget(gcontent, "text"@) == jget(gcontent, "text"@));
                assert(reply@->Obj_0 =~= seq![
                    ("from"@, JVal::Str(name@)),
                    ("content"@, gcontent),
                    ("contentDiscarded"@, JVal::Bool(self.response->0.body is None)),
                ]);
            }
            stream.write_json_packet(reply);
            Ok(HandlerStep::Done(Vec::new()))
        } else if str_eq(msg_type, "getEventTimings") {
            let timings = match &self.event_timing {
                Some(t) => Timings {
                    blocked: t.blocked,
                    dns: t.dns,
                    connect: t.connect,
                    send: t.send,
                    wait: t.wait,
                    receive: t.receive,
                },
                None => Timings { blocked: 0, dns: 0, connect: 0, send: 0, wait: 0, receive: 0 },
            };
            let timings_json = timings.to_json();
            let mut fields: Vec<(String, Json)> = Vec::new();
            fields.push(("from".to_owned(), Json::of_str(name)));
            fields.push(("timings".to_owned(), timings_json));
            fields.push(("totalTime".to_owned(), Json::Uint(self.total_time_ms)));
            let reply = Json::Obj(fields);
            proof {
                lemma_jflds_of(fields@);
                if self.event_timing is Some {
                    assert(reply@->Obj_0 =~~= event_timings_reply_val(
                        name@,
                        self.event_timing->0,
                        self.total_time_ms,
                    )->Obj_0);
                }
            }
            stream.write_json_packet(reply);
            Ok(HandlerStep::Done(Vec::new()))
        } else if str_eq(msg_type, "getSecurityInfo") {
            let reply = self.security_info_reply(name);
            stream.write_json_packet(reply);
            Ok(HandlerStep::Done(Vec::new()))
        } else {
            Err(ActorError::UnrecognizedPacketType)
        }
    }

    /// The reply to `getSecurityInfo`: what the connection reported, under
    /// the recorded security state.
    fn security_info_reply(&self, name: &str) -> (r: Json)
        ensures
            exists|info: JVal|
                #![trigger jobj2("from"@, JVal::Str(name@), "securityInfo"@, info)]
                r@ == jobj2("from"@, JVal::Str(name@), "securityInfo"@, info),
    {
        let mut sf: Vec<(String, Json)> = Vec::new();
        match &self.security_info {
            Some(info) => {
                sf.push(("state".to_owned(), Json::Str(info.state.clone())));
                if info.weakness_reasons.len() > 0 {
                    let m = info.weakness_reasons.len();
                    let mut reasons: Vec<Json> = Vec::new();
                    let mut i: usize = 0;
                    while i < m
                        invariant
                            m == info.weakness_reasons@.len(),
                            i <= m,
                        decreases m - i,
                    {
                        reasons.push(Json::Str(info.weakness_reasons[i].clone()));
                        i = i + 1;
                    }
                    sf.push(("weaknessReasons".to_owned(), Json::Arr(reasons)));
                }
                match &info.protocol_version {
                    Some(v) => sf.push(("protocolVersion".to_owned(), Json::Str(v.clone()))),
                    None => {},
                }
                match &info.cipher_suite {
                    Some(v) => sf.push(("cipherSuite".to_owned(), Json::Str(v.clone()))),
                    None => {},
                }
                match &info.kea_group_name {
                    Some(v) => sf.push(("keaGroupName".to_owned(), Json::Str(v.clone()))),
                    None => {},
                }
                match &info.signature_scheme_name {
                    Some(v) => sf.push(("signatureSchemeName".to_owned(), Json::Str(v.clone()))),
                    None => {},
                }
                match &info.alpn_protocol {
                    Some(v) => sf.push(("alpnProtocol".to_owned(), Json::Str(v.clone()))),
                    None => {},
                }
                match &info.certificate_transparency {
                    Some(v) => sf.push(
                        ("certificateTransparency".to_owned(), Json::Str(v.clone())),
                    ),
                    None => sf.push(
                        ("certificateTransparency".to_owned(), Json::of_str("unknown")),
                    ),
                }
                sf.push(("hsts".to_owned(), Json::Bool(info.hsts)));
                sf.push(("hpkp".to_owned(), Json::Bool(info.hpkp)));
                sf.push(("usedEch".to_owned(), Json::Bool(info.used_ech)));
                sf.push(
                    ("usedDelegatedCredentials".to_owned(), Json::Bool(
                        info.used_delegated_credentials,
                    )),
                );
                sf.push(("usedOcsp".to_owned(), Json::Bool(info.used_ocsp)));
                sf.push(("usedPrivateDns".to_owned(), Json::Bool(info.used_private_dns)));
            },
            None => {
                sf.push(("state".to_owned(), Json::Str(self.security_state.clone())));
                sf.push(("hsts".to_owned(), Json::Bool(false)));
                sf.push(("hpkp".to_owned(), Json::Bool(false)));
                sf.push(("usedEch".to_owned(), Json::Bool(false)));
                sf.push(("usedDelegatedCredentials".to_owned(), Json::Bool(false)));
                sf.push(("usedOcsp".to_owned(), Json::Bool(false)));
                sf.push(("usedPrivateDns".to_owned(), Json::Bool(false)));
            },
        }
        sf.push(("cert".to_owned(), default_certificate()));
        let info_obj = Json::Obj(sf);
        let ghost ginfo = info_obj@;
        let r = mk_obj2("from", Json::of_str(name), "securityInfo", info_obj);
        proof {
            assert(r@ == jobj2("from"@, JVal::Str(name@), "securityInfo"@, ginfo));
        }
        r
    }
}

impl NetworkEventActor {
    /// The announcement of this event: who it is, what was requested and
    /// when. The request must have been recorded; the date string is the
    /// machine's local reading of the request's start.
    pub fn event_actor(&self) -> (r: Result<Json, ActorError>)
        ensures
            r matches Ok(v) ==> {
                &&& self.request is Some
                &&& crate::json::jget_str(v@, "actor"@) == Some(self.name@)
                &&& crate::json::jget(v@, "resourceId"@) == Some(JVal::Uint(self.resource_id))
                &&& crate::json::jget_str(v@, "url"@) == Some(self.request->0.url@)
                &&& crate::json::jget_str(v@, "method"@) == Some(self.request->0.method@)
                &&& crate::json::jget(v@, "timeStamp"@) == Some(
                    JVal::Int(self.request->0.time_stamp),
                )
                &&& crate::json::jget(v@, "isXHR"@) == Some(JVal::Bool(self.request->0.is_xhr))
            },
            r is Err ==> self.request is None && r == Result::<Json, ActorError>::Err(
                ActorError::Internal,
            ),
    {
        let req = match &self.request {
            Some(req) => req,
            None => {
                return Err(ActorError::Internal);
            },
        };
        let started_date_time = crate::clock::rfc3339_from_millis(req.started_ms);
        let mut cause: Vec<(String, Json)> = Vec::new();
        cause.push(("type".to_owned(), Json::Str(req.destination.clone())));
        cause.push(("loadingDocumentUri".to_owned(), Json::Null));
        let mut fields: Vec<(String, Json)> = Vec::new();
        fields.push(("actor".to_owned(), Json::Str(self.name.clone())));
        fields.push(("resourceId".to_owned(), Json::Uint(self.resource_id)));
        fields.push(("url".to_owned(), Json::Str(req.url.clone())));
        fields.push(("method".to_owned(), Json::Str(req.method.clone())));
        fields.push(("startedDateTime".to_owned(), Json::Str(started_date_time)));
        fields.push(("timeStamp".to_owned(), Json::Int(req.time_stamp)));
        fields.push(("isXHR".to_owned(), Json::Bool(req.is_xhr)));
        fields.push(("private".to_owned(), Json::Bool(false)));
        fields.push(("cause".to_owned(), Json::Obj(cause)));
        let ghost gfields = fields@;
        let r = Json::Obj(fields);
        proof {
            lemma_jflds_of(gfields);
            reveal_strlit("actor");
            reveal_strlit("resourceId");
            reveal_strlit("url");
            reveal_strlit("method");
            assert("actor"@.len() != "resourceId"@.len());
            assert("actor"@.len() != "method"@.len());
            assert("actor"@.len() != "url"@.len());
            assert("resourceId"@.len() != "url"@.len());
            assert("resourceId"@.len() != "method"@.len());
            assert("url"@.len() != "method"@.len());
            crate::json::lemma_jfield_at(crate::json::jflds_of(gfields), "actor"@, 0);
            crate::json::lemma_jfield_at(crate::json::jflds_of(gfields), "resourceId"@, 1);
            crate::json::lemma_jfield_at(crate::json::jflds_of(gfields), "url"@, 2);
            crate::json::lemma_jfield_at(crate::json::jflds_of(gfields), "method"@, 3);
            reveal_strlit("startedDateTime");
            reveal_strlit("timeStamp");
            reveal_strlit("isXHR");
            assert("actor"@[0] != "timeStamp"@[0]);
            assert("resourceId"@.len() != "timeStamp"@.len());
            assert("url"@.len() != "timeStamp"@.len());
            assert("method"@.len() != "timeStamp"@.len());
            assert("startedDateTime"@.len() != "timeStamp"@.len());
            crate::json::lemma_jfield_at(crate::json::jflds_of(gfields), "timeStamp"@, 5);
            assert("actor"@[0] != "isXHR"@[0]);
            assert("resourceId"@.len() != "isXHR"@.len());
            assert("url"@.len() != "isXHR"@.len());
            assert("method"@.len() != "isXHR"@.len());
            assert("startedDateTime"@.len() != "isXHR"@.len());
            assert("timeStamp"@.len() != "isXHR"@.len());
            crate::json::lemma_jfield_at(crate::json::jflds_of(gfields), "isXHR"@, 6);
        }
        Ok(r)
    }

    /// The incremental update of this event: what has been observed so far.
    pub fn resource_updates(&self) -> (r: Json)
        ensures
            r@ == resource_updates_val(*self),
            crate::json::jget(r@, "resourceId"@) == Some(JVal::Uint(self.resource_id)),
    {
        let mut updates: Vec<(String, Json)> = Vec::new();
        match &self.request {
            Some(req) => {
                updates.push(
                    ("requestHeadersAvailable".to_owned(), Json::Bool(req.headers.len() > 0)),
                );
                updates.push(
                    ("requestCookiesAvailable".to_owned(), Json::Bool(req.cookies.len() > 0)),
                );
            },
            None => {
                updates.push(("requestHeadersAvailable".to_owned(), Json::Bool(false)));
                updates.push(("requestCookiesAvailable".to_owned(), Json::Bool(false)));
            },
        }
        match &self.response {
            Some(res) => {
                updates.push(
                    ("responseHeadersAvailable".to_owned(), Json::Bool(res.headers.is_some())),
                );
                updates.push(
                    ("responseCookiesAvailable".to_owned(), Json::Bool(res.cookies.len() > 0)),
                );
                updates.push(("responseStartAvailable".to_owned(), Json::Bool(true)));
                updates.push(
                    ("responseContentAvailable".to_owned(), Json::Bool(res.body.is_some())),
                );
            },
            None => {
                updates.push(("responseHeadersAvailable".to_owned(), Json::Bool(false)));
                updates.push(("responseCookiesAvailable".to_owned(), Json::Bool(false)));
                updates.push(("responseStartAvailable".to_owned(), Json::Bool(false)));
                updates.push(("responseContentAvailable".to_owned(), Json::Bool(false)));
            },
        }
        updates.push(("totalTime".to_owned(), Json::Uint(self.total_time_ms)));
        updates.push(("securityState".to_owned(), Json::Str(self.security_state.clone())));
        updates.push(
            ("securityInfoAvailable".to_owned(), Json::Bool(self.security_info.is_some())),
        );
        updates.push(
            ("eventTimingsAvailable".to_owned(), Json::Bool(self.event_timing.is_some())),
        );
        let ghost gupd = updates@;
        let updates_obj = Json::Obj(updates);
        let mut fields: Vec<(String, Json)> = Vec::new();
        fields.push(("resourceId".to_owned(), Json::Uint(self.resource_id)));
        fields.push(("resourceUpdates".to_owned(), updates_obj));
        fields.push(("browsingContextID".to_owned(), Json::Uint(0)));
        fields.push(("innerWindowId".to_owned(), Json::Uint(0)));
        let ghost gfields = fields@;
        let r = Json::Obj(fields);
        proof {
            crate::json::lemma_jfield_first(gfields, "resourceId"@);
            lemma_jflds_of(gupd);
            lemma_jflds_of(gfields);
            assert(crate::json::jflds_of(gupd) =~= resource_updates_val(
                *self,
            )->Obj_0[1].1->Obj_0);
            assert(r@->Obj_0 =~~= resource_updates_val(*self)->Obj_0);
        }
        r
    }
}

/// The incremental update of one network event, as a function of the
/// actor's observed state: availability flags for each recorded part, the
/// total time so far, and the security standing.
pub open spec fn resource_updates_val(a: NetworkEventActor) -> JVal {
    JVal::Obj(
        seq![
            ("resourceId"@, JVal::Uint(a.resource_id)),
            (
                "resourceUpdates"@,
                JVal::Obj(
                    (match a.request {
                        Some(req) => seq![
                            ("requestHeadersAvailable"@, JVal::Bool(req.headers@.len() > 0)),
                            ("requestCookiesAvailable"@, JVal::Bool(req.cookies@.len() > 0)),
                        ],
                        None => seq![
                            ("requestHeadersAvailable"@, JVal::Bool(false)),
                            ("requestCookiesAvailable"@, JVal::Bool(false)),
                        ],
                    }) + (match a.response {
                        Some(res) => seq![
                            ("responseHeadersAvailable"@, JVal::Bool(res.headers is Some)),
                            ("responseCookiesAvailable"@, JVal::Bool(res.cookies@.len() > 0)),
                            ("responseStartAvailable"@, JVal::Bool(true)),
                            ("responseContentAvailable"@, JVal::Bool(res.body is Some)),
                        ],
                        None => seq![
                            ("responseHeadersAvailable"@, JVal::Bool(false)),
                            ("responseCookiesAvailable"@, JVal::Bool(false)),
                            ("responseStartAvailable"@, JVal::Bool(false)),
                            ("responseContentAvailable"@, JVal::Bool(false)),
                        ],
                    }) + seq![
                        ("totalTime"@, JVal::Uint(a.total_time_ms)),
                        ("securityState"@, JVal::Str(a.security_state@)),
                        ("securityInfoAvailable"@, JVal::Bool(a.security_info is Some)),
                        ("eventTimingsAvailable"@, JVal::Bool(a.event_timing is Some)),
                    ],
                ),
            ),
            ("browsingContextID"@, JVal::Uint(0)),
            ("innerWindowId"@, JVal::Uint(0)),
        ],
    )
}

/// The empty certificate description sent while none is captured.
fn default_certificate() -> Json {
    let mut cert: Vec<(String, Json)> = Vec::new();
    cert.push(("subject".to_owned(), Json::Obj(Vec::new())));
    cert.push(("issuer".to_owned(), Json::Obj(Vec::new())));
    cert.push(
        ("validity".to_owned(), crate::json::mk_obj1("expired", Json::Bool(false))),
    );
    cert.push(("fingerprint".to_owned(), Json::Obj(Vec::new())));
    Json::Obj(cert)
}

/// The number a digit string denotes.
pub open spec fn dec_value(s: Seq<char>) -> nat
    decreases s.len(),
{
    if s.len() == 0 {
        0
    } else {
        dec_value(s.drop_last()) * 10 + (if crate::name::is_digit_char(s.last()) {
            (s.last() as int - ('0' as int)) as nat
        } else {
            0nat
        })
    }
}

/// A digit string's prefix never denotes more than the whole string.
proof fn lemma_dec_value_mono(s: Seq<char>, i: int)
    requires
        0 <= i <= s.len(),
    ensures
        dec_value(s.subrange(0, i)) <= dec_value(s),
    decreases s.len() - i,
{
    if i == s.len() {
        assert(s.subrange(0, i) =~= s);
    } else {
        assert(s.subrange(0, i + 1).drop_last() =~= s.subrange(0, i));
        lemma_dec_value_mono(s, i + 1);
    }
}

/// Reads an unsigned decimal number; anything else, or a value beyond the
/// machine's integers, reads as nothing.
#[verifier::loop_isolation(false)]
fn parse_u64(s: &str) -> (r: Option<u64>)
    ensures
        (match r {
            Some(v) => s@.len() > 0 && crate::name::all_digits(s@) && v == dec_value(s@),
            None => s@.len() == 0 || !crate::name::all_digits(s@) || dec_value(s@) > u64::MAX,
        }),
{
    let n = s.unicode_len();
    if n == 0 {
        return None;
    }
    let mut v: u64 = 0;
    let mut i: usize = 0;
    proof {
        assert(s@.subrange(0, 0) =~= Seq::<char>::empty());
    }
    while i < n
        invariant
            n == s@.len(),
            i <= n,
            v == dec_value(s@.subrange(0, i as int)),
            crate::name::all_digits(s@.subrange(0, i as int)),
        decreases n - i,
    {
        let ghost pre = s@.subrange(0, i as int);
        let c = s.get_char(i);
        if c < '0' || c > '9' {
            return None;
        }
        let d = (c as u32 - '0' as u32) as u64;
        if v > u64::MAX / 10 || (v == u64::MAX / 10 && d > 5) {
            proof {
                let now = s@.subrange(0, i + 1 as int);
                assert(now.drop_last() =~= pre);
                assert(now.last() == s@[i as int]);
                assert(dec_value(now) > u64::MAX);
                lemma_dec_value_mono(s@, i + 1 as int);
            }
            return None;
        }
        proof {
            assert(v <= u64::MAX / 10);
            assert((u64::MAX / 10) * 10 + 5 == u64::MAX);
        }
        v = v * 10 + d;
        proof {
            let now = s@.subrange(0, i + 1 as int);
            assert(now.drop_last() =~= pre);
            assert(now.last() == s@[i as int]);
            assert forall|k: int| 0 <= k < now.len() implies crate::name::is_digit_char(
                #[trigger] now[k],
            ) by {
                if k < i {
                    assert(pre[k] == now[k]);
                }
            }
        }
        i = i + 1;
    }
    proof {
        assert(s@.subrange(0, n as int) =~= s@);
    }
    Some(v)
}

/// What String::from_utf8_lossy reads a byte string as: it depends on the
/// bytes alone.
pub uninterp spec fn utf8_lossy_of(bytes: Seq<u8>) -> Seq<char>;

/// Relies on String::from_utf8_lossy: the bytes read as UTF-8, with
/// replacement characters where they are not valid UTF-8; empty input stays
/// empty.
#[verifier::external_body]
fn bytes_to_string_lossy(bytes: &Vec<u8>) -> (r: String)
    ensures
        r@ == utf8_lossy_of(bytes@),
        bytes@.len() == 0 ==> r@.len() == 0,
{
    String::from_utf8_lossy(bytes.as_slice()).to_string()
}

} // verus!
