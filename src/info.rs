//! The record of one request or response, and how parameters fill it.
use vstd::prelude::*;
use vstd::string::StringSliceAdditionalSpecFns;
use vstd::utf8::{decode_utf8, encode_utf8, valid_utf8};

use crate::bytes::{bytes_eq, decimal_of, parse_decimal_u32};
use crate::config::{BlacklistMatcher, BlacklistTrie, L7LogDynamicConfig, TraceCarrier};
use crate::params::{read_param_kv_len, spec_params};
use crate::text::{lossy, lossy_string, lower_of, lowercase, utf8_str};
use crate::Error;

verus! {

/// The rank that marks a prioritized field as unset.
pub const DEFAULT_PRIO: u8 = 255;

#[derive(Clone, Copy, Debug, PartialEq, Eq, Structural)]
pub enum PacketDirection {
    ClientToServer,
    ServerToClient,
}

#[derive(Clone, Copy, Debug, PartialEq, Eq, Structural)]
pub enum LogMessageType {
    Request,
    Response,
    Other,
}

#[derive(Clone, Copy, Debug, PartialEq, Eq, Structural)]
pub enum L7ResponseStatus {
    Success,
    ClientError,
    ServerError,
}

#[derive(Clone, Copy, Debug, PartialEq, Eq, Structural)]
pub enum L7Protocol {
    FastCGI,
}

/// The protocol, the kind and the round-trip time of a record.
#[derive(Clone, Copy, Debug, PartialEq, Eq, Structural)]
pub struct AppProtoHead {
    pub proto: L7Protocol,
    pub msg_type: LogMessageType,
    pub rrt: u64,
}

/// A value with the rank of the match that gave it: a smaller rank is a
/// stronger match, and `DEFAULT_PRIO` means unset.
#[derive(Clone, Debug, PartialEq, Eq)]
pub struct PrioField {
    pub prio: u8,
    pub field: String,
}

pub struct PrioView {
    pub prio: u8,
    pub field: Seq<char>,
}

impl View for PrioField {
    type V = PrioView;

    open spec fn view(&self) -> PrioView {
        PrioView { prio: self.prio, field: self.field@ }
    }
}

pub open spec fn unset_prio() -> PrioView {
    PrioView { prio: DEFAULT_PRIO, field: Seq::empty() }
}

impl PrioField {
    pub fn new(prio: u8, field: String) -> (r: Self)
        ensures
            r@ == (PrioView { prio, field: field@ }),
    {
        PrioField { prio, field }
    }

    pub fn is_default(&self) -> (r: bool)
        ensures
            r == (self.prio == DEFAULT_PRIO),
    {
        self.prio == DEFAULT_PRIO
    }

    pub fn into_inner(self) -> (r: String)
        ensures
            r@ == self.field@,
    {
        self.field
    }
}

impl Default for PrioField {
    fn default() -> (r: Self)
        ensures
            r@ == unset_prio(),
    {
        PrioField { prio: DEFAULT_PRIO, field: String::new() }
    }
}

/// One observed request or response.
#[derive(Clone, Debug, PartialEq, Eq)]
pub struct FastCGIInfo {
    pub version: u8,
    pub request_id: u32,
    pub msg_type: LogMessageType,
    pub method: String,
    pub path: String,
    pub host: String,
    pub user_agent: Option<String>,
    pub endpoint: Option<String>,
    pub status_code: Option<i32>,
    pub status: L7ResponseStatus,
    pub req_content_length: Option<u32>,
    pub resp_content_length: Option<u32>,
    pub trace_id: PrioField,
    pub span_id: PrioField,
    pub x_request_id_0: PrioField,
    pub x_request_id_1: PrioField,
    pub captured_request_byte: u32,
    pub captured_response_byte: u32,
    pub rrt: u64,
    pub is_tls: bool,
    pub seq_off: u32,
    pub is_on_blacklist: bool,
}

/// `FastCGIInfo` with its text as sequences of characters.
pub struct InfoView {
    pub version: u8,
    pub request_id: u32,
    pub msg_type: LogMessageType,
    pub method: Seq<char>,
    pub path: Seq<char>,
    pub host: Seq<char>,
    pub user_agent: Option<Seq<char>>,
    pub endpoint: Option<Seq<char>>,
    pub status_code: Option<i32>,
    pub status: L7ResponseStatus,
    pub req_content_length: Option<u32>,
    pub resp_content_length: Option<u32>,
    pub trace_id: PrioView,
    pub span_id: PrioView,
    pub x_request_id_0: PrioView,
    pub x_request_id_1: PrioView,
    pub captured_request_byte: u32,
    pub captured_response_byte: u32,
    pub rrt: u64,
    pub is_tls: bool,
    pub seq_off: u32,
    pub is_on_blacklist: bool,
}

pub open spec fn opt_text(o: Option<String>) -> Option<Seq<char>> {
    match o {
        Some(s) => Some(s@),
        None => None,
    }
}

impl View for FastCGIInfo {
    type V = InfoView;

    open spec fn view(&self) -> InfoView {
        InfoView {
            version: self.version,
            request_id: self.request_id,
            msg_type: self.msg_type,
            method: self.method@,
            path: self.path@,
            host: self.host@,
            user_agent: opt_text(self.user_agent),
            endpoint: opt_text(self.endpoint),
            status_code: self.status_code,
            status: self.status,
            req_content_length: self.req_content_length,
            resp_content_length: self.resp_content_length,
            trace_id: self.trace_id@,
            span_id: self.span_id@,
            x_request_id_0: self.x_request_id_0@,
            x_request_id_1: self.x_request_id_1@,
            captured_request_byte: self.captured_request_byte,
            captured_response_byte: self.captured_response_byte,
            rrt: self.rrt,
            is_tls: self.is_tls,
            seq_off: self.seq_off,
            is_on_blacklist: self.is_on_blacklist,
        }
    }
}

/// The record before anything is known of it.
pub open spec fn empty_info() -> InfoView {
    InfoView {
        version: 0,
        request_id: 0,
        msg_type: LogMessageType::Other,
        method: Seq::empty(),
        path: Seq::empty(),
        host: Seq::empty(),
        user_agent: None,
        endpoint: None,
        status_code: None,
        status: L7ResponseStatus::Success,
        req_content_length: None,
        resp_content_length: None,
        trace_id: unset_prio(),
        span_id: unset_prio(),
        x_request_id_0: unset_prio(),
        x_request_id_1: unset_prio(),
        captured_request_byte: 0,
        captured_response_byte: 0,
        rrt: 0,
        is_tls: false,
        seq_off: 0,
        is_on_blacklist: false,
    }
}

impl Default for FastCGIInfo {
    fn default() -> (r: Self)
        ensures
            r@ == empty_info(),
    {
        FastCGIInfo {
            version: 0,
            request_id: 0,
            msg_type: LogMessageType::Other,
            method: String::new(),
            path: String::new(),
            host: String::new(),
            user_agent: None,
            endpoint: None,
            status_code: None,
            status: L7ResponseStatus::Success,
            req_content_length: None,
            resp_content_length: None,
            trace_id: PrioField::default(),
            span_id: PrioField::default(),
            x_request_id_0: PrioField::default(),
            x_request_id_1: PrioField::default(),
            captured_request_byte: 0,
            captured_response_byte: 0,
            rrt: 0,
            is_tls: false,
            seq_off: 0,
            is_on_blacklist: false,
        }
    }
}

/// The id that carrier `c` reads out of `val`: a span id when `span` holds,
/// else a trace id.
pub open spec fn carrier_id<C: TraceCarrier>(c: C, span: bool, val: Seq<char>) -> Option<
    Seq<char>,
> {
    if span {
        c.spec_span_id(val)
    } else {
        c.spec_trace_id(val)
    }
}

/// The first carrier, from index `i` on and ranked stronger than `limit`,
/// that claims `key` and reads an id out of `val`: its rank and the id.
pub open spec fn first_carrier_id<C: TraceCarrier>(
    cs: Seq<C>,
    span: bool,
    limit: u8,
    key: Seq<char>,
    val: Seq<char>,
    i: nat,
) -> Option<(u8, Seq<char>)>
    decreases cs.len() - i,
{
    if i >= cs.len() || limit <= i {
        None
    } else if cs[i as int].spec_check(key) && carrier_id(cs[i as int], span, val) is Some {
        Some((i as u8, carrier_id(cs[i as int], span, val)->0))
    } else {
        first_carrier_id(cs, span, limit, key, val, i + 1)
    }
}

/// The first request-id header name, from index `i` on and ranked stronger
/// than `limit`, that equals `key`: its rank.
pub open spec fn first_request_id(names: Seq<String>, limit: u8, key: Seq<char>, i: nat) -> Option<
    u8,
>
    decreases names.len() - i,
{
    if i >= names.len() || limit <= i {
        None
    } else if names[i as int]@ == key {
        Some(i as u8)
    } else {
        first_request_id(names, limit, key, i + 1)
    }
}

/// A prioritized field after a scan of carriers for one header.
pub open spec fn with_carrier_id<C: TraceCarrier>(
    cur: PrioView,
    cs: Seq<C>,
    span: bool,
    key: Seq<char>,
    val: Seq<char>,
) -> PrioView {
    match first_carrier_id(cs, span, cur.prio, key, val, 0) {
        Some((prio, id)) => PrioView { prio, field: id },
        None => cur,
    }
}

/// A prioritized request id after a scan of the request-id names for one header.
pub open spec fn with_request_id(
    cur: PrioView,
    names: Seq<String>,
    key: Seq<char>,
    val: Seq<char>,
) -> PrioView {
    match first_request_id(names, cur.prio, key, 0) {
        Some(prio) => PrioView { prio, field: val },
        None => cur,
    }
}

/// The record after a header that is none of the well-known names, its name
/// already in lower case: trace id, span id and the request id of the
/// direction are each taken from the strongest carrier that matches, unless
/// the record already holds one at least as strong.
#[verifier::opaque]
pub open spec fn spec_on_custom_param<C: TraceCarrier>(
    v: InfoView,
    key: Seq<char>,
    val: Seq<char>,
    direction: PacketDirection,
    config: L7LogDynamicConfig<C>,
) -> InfoView {
    let v1 = InfoView {
        trace_id: with_carrier_id(v.trace_id, config.trace_types@, false, key, val),
        span_id: with_carrier_id(v.span_id, config.span_types@, true, key, val),
        ..v
    };
    if direction == PacketDirection::ClientToServer {
        InfoView {
            x_request_id_0: with_request_id(v.x_request_id_0, config.x_request_id@, key, val),
            ..v1
        }
    } else {
        InfoView {
            x_request_id_1: with_request_id(v.x_request_id_1, config.x_request_id@, key, val),
            ..v1
        }
    }
}

/// The record after one parameter, or `None` where the parameter makes the
/// whole message unreadable (a `CONTENT_LENGTH` that is not a `u32`).
#[verifier::opaque]
pub open spec fn spec_on_param<C: TraceCarrier>(
    v: InfoView,
    key: Seq<u8>,
    val: Seq<u8>,
    direction: PacketDirection,
    config: Option<&L7LogDynamicConfig<C>>,
) -> Option<InfoView> {
    if key == "REQUEST_METHOD".spec_bytes() {
        Some(InfoView { method: lossy(val), ..v })
    } else if key == "CONTENT_LENGTH".spec_bytes() {
        if val.len() == 0 {
            Some(v)
        } else {
            match decimal_of(val, u32::MAX as int) {
                None => None,
                Some(n) => if direction == PacketDirection::ClientToServer {
                    Some(InfoView { req_content_length: Some(n as u32), ..v })
                } else {
                    Some(InfoView { resp_content_length: Some(n as u32), ..v })
                },
            }
        }
    } else if key == "SCRIPT_NAME".spec_bytes() {
        if v.path.len() == 0 {
            Some(InfoView { path: lossy(val), ..v })
        } else {
            Some(v)
        }
    } else if key == "REQUEST_URI".spec_bytes() {
        Some(InfoView { path: lossy(val), ..v })
    } else if key == "HTTP_HOST".spec_bytes() {
        Some(InfoView { host: lossy(val), ..v })
    } else if key == "HTTP_USER_AGENT".spec_bytes() {
        Some(InfoView { user_agent: Some(lossy(val)), ..v })
    } else if key == "DOCUMENT_URI".spec_bytes() {
        Some(InfoView { endpoint: Some(lossy(val)), ..v })
    } else {
        match config {
            Some(c) => if valid_utf8(key) && valid_utf8(val) {
                Some(
                    spec_on_custom_param(
                        v,
                        lower_of(decode_utf8(key)),
                        decode_utf8(val),
                        direction,
                        *c,
                    ),
                )
            } else {
                Some(v)
            },
            None => Some(v),
        }
    }
}

/// The record after the parameters `ps` in order, up to the first one that
/// makes the message unreadable, with whether all of them were read. What the
/// parameters before that one filled in stays.
pub open spec fn spec_fill<C: TraceCarrier>(
    v: InfoView,
    ps: Seq<(Seq<u8>, Seq<u8>)>,
    direction: PacketDirection,
    config: Option<&L7LogDynamicConfig<C>>,
) -> (InfoView, bool)
    decreases ps.len(),
{
    if ps.len() == 0 {
        (v, true)
    } else {
        match spec_on_param(v, ps[0].0, ps[0].1, direction, config) {
            None => (v, false),
            Some(v1) => spec_fill(v1, ps.drop_first(), direction, config),
        }
    }
}

fn scan_carriers<C: TraceCarrier>(
    cur_prio: u8,
    cs: &Vec<C>,
    span: bool,
    key: &str,
    val: &str,
) -> (r: Option<(u8, String)>)
    ensures
        match r {
            Some((prio, id)) => first_carrier_id(cs@, span, cur_prio, key@, val@, 0) == Some(
                (prio, id@),
            ),
            None => first_carrier_id(cs@, span, cur_prio, key@, val@, 0) is None,
        },
{
    let mut i: usize = 0;
    while i < cs.len()
        invariant
            i <= cs@.len(),
            first_carrier_id(cs@, span, cur_prio, key@, val@, 0) == first_carrier_id(
                cs@,
                span,
                cur_prio,
                key@,
                val@,
                i as nat,
            ),
        decreases cs@.len() - i,
    {
        if cur_prio as usize <= i {
            return None;
        }
        let c = &cs[i];
        if c.check(key) {
            let id = if span {
                c.decode_span_id(val)
            } else {
                c.decode_trace_id(val)
            };
            if let Some(id) = id {
                return Some((i as u8, id));
            }
        }
        i += 1;
    }
    None
}

fn scan_request_ids(cur_prio: u8, names: &Vec<String>, key: &String) -> (r: Option<u8>)
    ensures
        r == first_request_id(names@, cur_prio, key@, 0),
{
    let mut i: usize = 0;
    while i < names.len()
        invariant
            i <= names@.len(),
            first_request_id(names@, cur_prio, key@, 0) == first_request_id(
                names@,
                cur_prio,
                key@,
                i as nat,
            ),
        decreases names@.len() - i,
    {
        if cur_prio as usize <= i {
            return None;
        }
        if names[i] == *key {
            return Some(i as u8);
        }
        i += 1;
    }
    None
}

impl FastCGIInfo {
    /// Takes in one parameter of a header that is none of the well-known
    /// names, `key` being its name in lower case.
    pub fn on_custom_param<C: TraceCarrier>(
        &mut self,
        key: &String,
        val: &str,
        direction: PacketDirection,
        config: &L7LogDynamicConfig<C>,
    )
        ensures
            final(self)@ == spec_on_custom_param(old(self)@, key@, val@, direction, *config),
            final(self).rrt == old(self).rrt,
    {
        reveal(spec_on_custom_param);
        let k = key.as_str();
        if let Some((prio, id)) = scan_carriers(self.trace_id.prio, &config.trace_types, false, k, val) {
            self.trace_id = PrioField::new(prio, id);
        }
        if let Some((prio, id)) = scan_carriers(self.span_id.prio, &config.span_types, true, k, val) {
            self.span_id = PrioField::new(prio, id);
        }
        if direction == PacketDirection::ClientToServer {
            if let Some(prio) = scan_request_ids(self.x_request_id_0.prio, &config.x_request_id, key) {
                self.x_request_id_0 = PrioField::new(prio, val.to_owned());
            }
        } else {
            if let Some(prio) = scan_request_ids(self.x_request_id_1.prio, &config.x_request_id, key) {
                self.x_request_id_1 = PrioField::new(prio, val.to_owned());
            }
        }
    }

    /// Takes in one parameter: a well-known CGI name (matched exactly) fills
    /// its field; any other name, when `config` is given and both name and
    /// value are text, is looked up in lower case among the carriers of
    /// trace, span and request ids. Fails only on a `CONTENT_LENGTH` that is
    /// not a `u32`.
    pub fn on_param<C: TraceCarrier>(
        &mut self,
        key: &[u8],
        val: &[u8],
        direction: PacketDirection,
        config: Option<&L7LogDynamicConfig<C>>,
    ) -> (r: Result<(), Error>)
        ensures
            match spec_on_param(old(self)@, key@, val@, direction, config) {
                Some(v) => r is Ok && final(self)@ == v,
                None => r == Err::<(), Error>(Error::L7ProtocolUnknown) && final(self)@ == old(
                    self,
                )@,
            },
            final(self).rrt == old(self).rrt,
    {
        reveal(spec_on_param);
        if bytes_eq(key, "REQUEST_METHOD".as_bytes()) {
            self.method = lossy_string(val);
        } else if bytes_eq(key, "CONTENT_LENGTH".as_bytes()) {
            if val.len() != 0 {
                let l = match parse_decimal_u32(val) {
                    Some(l) => l,
                    None => {
                        return Err(Error::L7ProtocolUnknown);
                    },
                };
                if direction == PacketDirection::ClientToServer {
                    self.req_content_length = Some(l);
                } else {
                    self.resp_content_length = Some(l);
                }
            }
        } else if bytes_eq(key, "SCRIPT_NAME".as_bytes()) {
            if self.path.as_str().is_empty() {
                self.path = lossy_string(val);
            }
        } else if bytes_eq(key, "REQUEST_URI".as_bytes()) {
            self.path = lossy_string(val);
        } else if bytes_eq(key, "HTTP_HOST".as_bytes()) {
            self.host = lossy_string(val);
        } else if bytes_eq(key, "HTTP_USER_AGENT".as_bytes()) {
            self.user_agent = Some(lossy_string(val));
        } else if bytes_eq(key, "DOCUMENT_URI".as_bytes()) {
            self.endpoint = Some(lossy_string(val));
        } else {
            let config = match config {
                Some(c) => c,
                None => {
                    return Ok(());
                },
            };
            let (key, val) = match (utf8_str(key), utf8_str(val)) {
                (Some(k), Some(v)) => (k, v),
                _ => {
                    return Ok(());
                },
            };
            let lower_key = lowercase(key);
            self.on_custom_param(&lower_key, val, direction, config);
        }
        Ok(())
    }

    /// Takes in the parameters of a PARAMS record in order, up to the first
    /// one that is cut short or badly encoded.
    pub fn fill_from_param<C: TraceCarrier>(
        &mut self,
        param_payload: &[u8],
        direction: PacketDirection,
        config: Option<&L7LogDynamicConfig<C>>,
    ) -> (r: Result<(), Error>)
        ensures
            ({
                let (v, ok) = spec_fill(old(self)@, spec_params(param_payload@), direction, config);
                &&& final(self)@ == v
                &&& ok ==> r is Ok
                &&& !ok ==> r == Err::<(), Error>(Error::L7ProtocolUnknown)
            }),
            final(self).rrt == old(self).rrt,
    {
        let mut p = param_payload;
        while p.len() > 2
            invariant
                spec_fill(old(self)@, spec_params(param_payload@), direction, config) == spec_fill(
                    self@,
                    spec_params(p@),
                    direction,
                    config,
                ),
                self.rrt == old(self).rrt,
            ensures
                spec_params(p@).len() == 0,
            decreases p@.len(),
        {
            let (off, key_len, val_len) = match read_param_kv_len(p) {
                Ok(x) => x,
                Err(_) => {
                    break ;
                },
            };
            let q = vstd::slice::slice_subrange(p, off, p.len());
            if q.len() < key_len + val_len {
                break ;
            }
            let ghost whole = p@;
            let key = vstd::slice::slice_subrange(q, 0, key_len);
            let val = vstd::slice::slice_subrange(q, key_len, key_len + val_len);
            p = vstd::slice::slice_subrange(q, key_len + val_len, q.len());
            assert(spec_params(whole) == seq![(key@, val@)] + spec_params(p@));
            assert((seq![(key@, val@)] + spec_params(p@)).drop_first() == spec_params(p@));
            if let Err(e) = self.on_param(key, val, direction, config) {
                return Err(e);
            }
        }
        Ok(())
    }
}

/// Whether a merge takes the response's id: only where the request has none
/// and the response has one.
pub open spec fn takes_response_id(a: PrioView, b: PrioView) -> bool {
    a.prio == DEFAULT_PRIO && b.prio != DEFAULT_PRIO
}

/// The merged entry of a request (`a`) and its response (`b`): status, status
/// code and captured response bytes come from the response; trace and span id
/// stay the request's unless it has none and the response has one; a
/// blacklisted response blacklists the entry.
pub open spec fn spec_merge(a: InfoView, b: InfoView) -> InfoView {
    InfoView {
        status: b.status,
        status_code: b.status_code,
        captured_response_byte: b.captured_response_byte,
        trace_id: if takes_response_id(a.trace_id, b.trace_id) {
            b.trace_id
        } else {
            a.trace_id
        },
        span_id: if takes_response_id(a.span_id, b.span_id) {
            b.span_id
        } else {
            a.span_id
        },
        is_on_blacklist: a.is_on_blacklist || b.is_on_blacklist,
        ..a
    }
}

/// What the response keeps after a merge: the request's unset trace or span
/// id in place of one it handed over.
pub open spec fn spec_merge_rest(a: InfoView, b: InfoView) -> InfoView {
    InfoView {
        trace_id: if takes_response_id(a.trace_id, b.trace_id) {
            a.trace_id
        } else {
            b.trace_id
        },
        span_id: if takes_response_id(a.span_id, b.span_id) {
            a.span_id
        } else {
            b.span_id
        },
        ..b
    }
}

/// Whether a record is on the blacklists: by its path, method or host, or by
/// its endpoint where it has one.
pub open spec fn spec_blacklisted<M: BlacklistMatcher>(v: InfoView, t: BlacklistTrie<M>) -> bool {
    ||| t.request_resource.spec_is_on_blacklist(v.path)
    ||| t.request_type.spec_is_on_blacklist(v.method)
    ||| t.request_domain.spec_is_on_blacklist(v.host)
    ||| (v.endpoint is Some && t.endpoint.spec_is_on_blacklist(v.endpoint->0))
}

impl FastCGIInfo {
    /// The id that pairs a request with its response.
    pub fn session_id(&self) -> (r: Option<u32>)
        ensures
            r == Some(self.request_id),
    {
        Some(self.request_id)
    }

    /// Folds the response `other` into this request record.
    pub fn merge_log(&mut self, other: &mut FastCGIInfo) -> (r: Result<(), Error>)
        ensures
            r is Ok,
            final(self)@ == spec_merge(old(self)@, old(other)@),
            final(other)@ == spec_merge_rest(old(self)@, old(other)@),
    {
        self.status = other.status;
        self.status_code = other.status_code;
        self.captured_response_byte = other.captured_response_byte;
        if self.trace_id.is_default() && !other.trace_id.is_default() {
            std::mem::swap(&mut self.trace_id, &mut other.trace_id);
        }
        if self.span_id.is_default() && !other.span_id.is_default() {
            std::mem::swap(&mut self.span_id, &mut other.span_id);
        }
        if other.is_on_blacklist {
            self.is_on_blacklist = other.is_on_blacklist;
        }
        Ok(())
    }

    pub fn app_proto_head(&self) -> (r: Option<AppProtoHead>)
        ensures
            r == Some(AppProtoHead { proto: L7Protocol::FastCGI, msg_type: self.msg_type, rrt: self.rrt }),
    {
        Some(AppProtoHead { proto: L7Protocol::FastCGI, msg_type: self.msg_type, rrt: self.rrt })
    }

    pub fn is_tls(&self) -> (r: bool)
        ensures
            r == self.is_tls,
    {
        self.is_tls
    }

    /// Offset in the payload of the record that identified the message.
    pub fn tcp_seq_offset(&self) -> (r: u32)
        ensures
            r == self.seq_off,
    {
        self.seq_off
    }

    pub fn get_request_domain(&self) -> (r: String)
        ensures
            r@ == self.host@,
    {
        self.host.clone()
    }

    pub fn get_endpoint(&self) -> (r: Option<String>)
        ensures
            opt_text(r) == opt_text(self.endpoint),
    {
        match &self.endpoint {
            Some(e) => Some(e.clone()),
            None => None,
        }
    }

    /// Length of the path in bytes.
    pub fn get_request_resource_length(&self) -> (r: usize)
        ensures
            r == encode_utf8(self.path@).len() as usize,
    {
        self.path.as_str().len()
    }

    pub fn is_on_blacklist(&self) -> (r: bool)
        ensures
            r == self.is_on_blacklist,
    {
        self.is_on_blacklist
    }

    /// Marks the record as blacklisted when the blacklists hold its path,
    /// method, host or endpoint.
    pub fn set_is_on_blacklist<M: BlacklistMatcher>(&mut self, t: &BlacklistTrie<M>)
        ensures
            final(self)@ == (InfoView { is_on_blacklist: spec_blacklisted(old(self)@, *t), ..old(self)@ }),
    {
        self.is_on_blacklist = t.request_resource.is_on_blacklist(&self.path)
            || t.request_type.is_on_blacklist(&self.method)
            || t.request_domain.is_on_blacklist(&self.host)
            || match &self.endpoint {
            Some(p) => t.endpoint.is_on_blacklist(p),
            None => false,
        };
    }
}

} // verus!
