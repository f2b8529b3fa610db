//! The per-connection parser: recognizes FastCGI requests, turns one
//! direction's payload into a record, and keeps the connection's counters.
use vstd::prelude::*;
use vstd::string::StringSliceAdditionalSpecFns;

use crate::bytes::{bytes_eq, decimal_of, parse_decimal_u32};
use crate::config::{BlacklistMatcher, BlacklistTrie, L7LogDynamicConfig, TraceCarrier};
use crate::headers::{find_byte, find_byte_in, header_lines, next_header_line};
use crate::info::{
    empty_info, opt_text, spec_blacklisted, spec_fill, spec_on_param, FastCGIInfo, InfoView,
    L7Protocol, L7ResponseStatus, LogMessageType, PacketDirection,
};
use crate::params::{get_param_val, spec_param_val, spec_params};
use crate::perf::L7PerfStats;
use crate::record::{
    spec_frames, FastCGIRecord, RecordIter, FCGI_END_REQUEST, FCGI_PARAMS, FCGI_STDOUT,
};
use crate::Error;

verus! {

pub const HTTP_STATUS_CLIENT_ERROR_MIN: u16 = 400;
pub const HTTP_STATUS_CLIENT_ERROR_MAX: u16 = 499;
pub const HTTP_STATUS_SERVER_ERROR_MIN: u16 = 500;
pub const HTTP_STATUS_SERVER_ERROR_MAX: u16 = 599;

/// What the caller knows of one payload besides its bytes.
#[derive(Clone, Copy, Debug, PartialEq, Eq, Structural)]
pub struct ParseParam {
    pub direction: PacketDirection,
    pub is_tls: bool,
    /// How many bytes were captured for this message.
    pub captured_byte: u32,
}

/// How a status code is classified.
pub open spec fn status_of(code: int) -> L7ResponseStatus {
    if 400 <= code <= 499 {
        L7ResponseStatus::ClientError
    } else if 500 <= code <= 599 {
        L7ResponseStatus::ServerError
    } else {
        L7ResponseStatus::Success
    }
}

/// Whether `s` is an HTTP method token.
pub open spec fn is_http_method(s: Seq<u8>) -> bool {
    ||| s == "OPTIONS".spec_bytes()
    ||| s == "GET".spec_bytes()
    ||| s == "HEAD".spec_bytes()
    ||| s == "POST".spec_bytes()
    ||| s == "PUT".spec_bytes()
    ||| s == "DELETE".spec_bytes()
    ||| s == "TRACE".spec_bytes()
    ||| s == "CONNECT".spec_bytes()
    ||| s == "PATCH".spec_bytes()
}

/// Whether `method` is an HTTP method token.
pub fn check_http_method(method: &[u8]) -> (r: bool)
    ensures
        r == is_http_method(method@),
{
    bytes_eq(method, "OPTIONS".as_bytes()) || bytes_eq(method, "GET".as_bytes()) || bytes_eq(
        method,
        "HEAD".as_bytes(),
    ) || bytes_eq(method, "POST".as_bytes()) || bytes_eq(method, "PUT".as_bytes()) || bytes_eq(
        method,
        "DELETE".as_bytes(),
    ) || bytes_eq(method, "TRACE".as_bytes()) || bytes_eq(method, "CONNECT".as_bytes())
        || bytes_eq(method, "PATCH".as_bytes())
}

/// Whether a walk over `frames` recognizes a FastCGI request: the first
/// PARAMS record decides, by its `REQUEST_METHOD`; an END_REQUEST or STDOUT
/// record before it, or no PARAMS record at all, says no.
pub open spec fn spec_check_frames(frames: Seq<(FastCGIRecord, Seq<u8>, usize)>) -> bool
    decreases frames.len(),
{
    if frames.len() == 0 {
        false
    } else {
        let t = frames[0].0.record_type;
        if t == FCGI_END_REQUEST || t == FCGI_STDOUT {
            false
        } else if t == FCGI_PARAMS {
            match spec_param_val(frames[0].1, "REQUEST_METHOD".spec_bytes()) {
                Some(m) => is_http_method(m),
                None => false,
            }
        } else {
            spec_check_frames(frames.drop_first())
        }
    }
}

/// How the header lines of one STDOUT record end.
pub enum LineScan {
    /// A header made the message unreadable.
    Failed,
    /// The `Status` line was reached: the walk is over.
    Stop(InfoView),
    /// The lines ran out or one was not a header; the flag tells whether any
    /// header line was seen.
    Done(InfoView, bool),
}

/// The record after the value of a `Status` line: the three characters after
/// its first are the status code.
pub open spec fn with_status_value(v: InfoView, value: Seq<u8>) -> InfoView {
    if value.len() < 4 {
        v
    } else {
        match decimal_of(value.subrange(1, 4), u32::MAX as int) {
            Some(code) => InfoView {
                status_code: Some(code as i32),
                status: status_of(code),
                ..v
            },
            None => v,
        }
    }
}

/// Takes in header lines `Key: Value` in order: a line without a colon, or
/// with nothing after it, ends them; each header goes through the parameter
/// rules; the `Status` header ends the walk.
pub open spec fn spec_lines<C: TraceCarrier>(
    v: InfoView,
    lines: Seq<Seq<u8>>,
    is_hdr: bool,
    config: Option<&L7LogDynamicConfig<C>>,
) -> LineScan
    decreases lines.len(),
{
    if lines.len() == 0 {
        LineScan::Done(v, is_hdr)
    } else {
        let line = lines[0];
        match find_byte(line, 58) {
            None => LineScan::Done(v, is_hdr),
            Some(col) => if col + 1 >= line.len() {
                LineScan::Done(v, is_hdr)
            } else {
                let key = line.subrange(0, col as int);
                let value = line.subrange(col + 1 as int, line.len() as int);
                match spec_on_param(v, key, value, PacketDirection::ServerToClient, config) {
                    None => LineScan::Failed,
                    Some(v1) => if key == "Status".spec_bytes() {
                        LineScan::Stop(with_status_value(v1, value))
                    } else {
                        spec_lines(v1, lines.drop_first(), true, config)
                    },
                }
            },
        }
    }
}

/// The response side: STDOUT records are read for header lines until the
/// `Status` header, or until one that holds headers without it, which then
/// counts as status 200. `None` where a header makes the message unreadable.
pub open spec fn spec_response_walk<C: TraceCarrier>(
    v: InfoView,
    frames: Seq<(FastCGIRecord, Seq<u8>, usize)>,
    config: Option<&L7LogDynamicConfig<C>>,
) -> Option<InfoView>
    decreases frames.len(),
{
    if frames.len() == 0 {
        Some(v)
    } else {
        let (rec, content, off) = frames[0];
        let v1 = InfoView { seq_off: off as u32, ..v };
        if rec.record_type != FCGI_STDOUT {
            spec_response_walk(v1, frames.drop_first(), config)
        } else {
            let v2 = InfoView { request_id: rec.request_id as u32, version: rec.version, ..v1 };
            match spec_lines(v2, header_lines(content), false, config) {
                LineScan::Failed => None,
                LineScan::Stop(v3) => Some(v3),
                LineScan::Done(v3, is_hdr) => if !is_hdr {
                    spec_response_walk(v3, frames.drop_first(), config)
                } else if v3.status_code is None {
                    Some(
                        InfoView {
                            status_code: Some(200),
                            status: L7ResponseStatus::Success,
                            ..v3
                        },
                    )
                } else {
                    Some(v3)
                },
            }
        }
    }
}

/// The request side: the first PARAMS record with content is read for its
/// parameters. `None` where a parameter makes the message unreadable.
pub open spec fn spec_request_walk<C: TraceCarrier>(
    v: InfoView,
    frames: Seq<(FastCGIRecord, Seq<u8>, usize)>,
    config: Option<&L7LogDynamicConfig<C>>,
) -> Option<InfoView>
    decreases frames.len(),
{
    if frames.len() == 0 {
        Some(v)
    } else {
        let (rec, content, off) = frames[0];
        if rec.record_type != FCGI_PARAMS {
            spec_request_walk(v, frames.drop_first(), config)
        } else {
            let v1 = InfoView { request_id: rec.request_id as u32, version: rec.version, ..v };
            if rec.content_len > 0 {
                let (v2, ok) = spec_fill(
                    v1,
                    spec_params(content),
                    PacketDirection::ClientToServer,
                    config,
                );
                if ok {
                    Some(InfoView { seq_off: off as u32, ..v2 })
                } else {
                    None
                }
            } else {
                spec_request_walk(v1, frames.drop_first(), config)
            }
        }
    }
}

/// Where a request's walk starts.
pub open spec fn request_start() -> InfoView {
    InfoView { msg_type: LogMessageType::Request, ..empty_info() }
}

/// Where a response's walk starts.
pub open spec fn response_start() -> InfoView {
    InfoView { msg_type: LogMessageType::Response, ..empty_info() }
}

/// The record that one direction's payload decodes to, or `None` where it is
/// unreadable: a request needs a method, a response a status code.
#[verifier::opaque]
pub open spec fn spec_decode<C: TraceCarrier>(
    payload: Seq<u8>,
    direction: PacketDirection,
    config: Option<&L7LogDynamicConfig<C>>,
) -> Option<InfoView> {
    if direction == PacketDirection::ClientToServer {
        match spec_request_walk(
            request_start(),
            spec_frames(payload, 0),
            config,
        ) {
            Some(v) => if v.method.len() > 0 {
                Some(v)
            } else {
                None
            },
            None => None,
        }
    } else {
        match spec_response_walk(
            response_start(),
            spec_frames(payload, 0),
            config,
        ) {
            Some(v) => if v.status_code is Some {
                Some(v)
            } else {
                None
            },
            None => None,
        }
    }
}

/// A decoded record with what the call knows stamped on it: TLS, captured
/// bytes of its direction, and the blacklists' verdict.
pub open spec fn spec_stamp<M: BlacklistMatcher>(
    v: InfoView,
    param: ParseParam,
    blacklist: Option<&BlacklistTrie<M>>,
) -> InfoView {
    let v1 = if param.direction == PacketDirection::ClientToServer {
        InfoView { is_tls: param.is_tls, captured_request_byte: param.captured_byte, ..v }
    } else {
        InfoView { is_tls: param.is_tls, captured_response_byte: param.captured_byte, ..v }
    };
    match blacklist {
        Some(t) => InfoView { is_on_blacklist: spec_blacklisted(v1, *t), ..v1 },
        None => v1,
    }
}

/// The state of a parser.
pub struct LogView {
    pub perf_stats: Option<L7PerfStats>,
    pub last_is_on_blacklist: bool,
    /// Whether the last message was counted and waits for its round-trip time.
    pub rrt_pending: bool,
}

impl LogView {
    pub open spec fn fresh() -> LogView {
        LogView { perf_stats: None, last_is_on_blacklist: false, rrt_pending: false }
    }

    /// The state at the start of a parse: counters exist, nothing is pending.
    pub open spec fn started(self) -> LogView {
        LogView {
            perf_stats: Some(
                match self.perf_stats {
                    Some(s) => s,
                    None => L7PerfStats::empty(),
                },
            ),
            rrt_pending: false,
            ..self
        }
    }

    /// The state after the record `info` was parsed: it is counted unless it,
    /// or the message before it, is blacklisted.
    pub open spec fn after_parse(self, info: InfoView, direction: PacketDirection) -> LogView {
        let s = self.started();
        if !info.is_on_blacklist && !self.last_is_on_blacklist {
            LogView {
                perf_stats: Some(s.perf_stats->0.after_message(direction, info.status)),
                last_is_on_blacklist: info.is_on_blacklist,
                rrt_pending: true,
            }
        } else {
            LogView { last_is_on_blacklist: info.is_on_blacklist, ..s }
        }
    }

    /// The state after the round-trip time of the last message came back.
    pub open spec fn after_rrt(self, rrt: Option<u64>) -> LogView {
        match rrt {
            Some(t) => if self.rrt_pending {
                LogView {
                    perf_stats: match self.perf_stats {
                        Some(s) => Some(s.after_rrt(t)),
                        None => None,
                    },
                    rrt_pending: false,
                    ..self
                }
            } else {
                self
            },
            None => LogView { rrt_pending: false, ..self },
        }
    }
}

/// The parser of one connection.
pub struct FastCGILog {
    perf_stats: Option<L7PerfStats>,
    last_is_on_blacklist: bool,
    rrt_pending: bool,
}

impl View for FastCGILog {
    type V = LogView;

    closed spec fn view(&self) -> LogView {
        LogView {
            perf_stats: self.perf_stats,
            last_is_on_blacklist: self.last_is_on_blacklist,
            rrt_pending: self.rrt_pending,
        }
    }
}

impl Default for FastCGILog {
    fn default() -> (r: Self)
        ensures
            r@ == LogView::fresh(),
    {
        FastCGILog { perf_stats: None, last_is_on_blacklist: false, rrt_pending: false }
    }
}

pub open spec fn rrt_time(rrt: Option<(u64, Option<String>)>) -> Option<u64> {
    match rrt {
        Some((t, _)) => Some(t),
        None => None,
    }
}

impl FastCGILog {
    /// Classifies `status_code` into the record's status.
    pub fn set_status(&mut self, status_code: u16, info: &mut FastCGIInfo)
        ensures
            *final(self) == *old(self),
            final(info)@ == (InfoView { status: status_of(status_code as int), ..old(info)@ }),
    {
        if status_code >= HTTP_STATUS_CLIENT_ERROR_MIN && status_code
            <= HTTP_STATUS_CLIENT_ERROR_MAX {
            info.status = L7ResponseStatus::ClientError;
        } else if status_code >= HTTP_STATUS_SERVER_ERROR_MIN && status_code
            <= HTTP_STATUS_SERVER_ERROR_MAX {
            info.status = L7ResponseStatus::ServerError;
        } else {
            info.status = L7ResponseStatus::Success;
        }
    }

    /// Whether `payload` is recognized as a FastCGI request.
    pub fn check_payload(&mut self, payload: &[u8], _param: &ParseParam) -> (r: bool)
        ensures
            *final(self) == *old(self),
            r == spec_check_frames(spec_frames(payload@, 0)),
    {
        let mut it = RecordIter::new(payload);
        loop
            invariant
                it.wf(),
                spec_check_frames(spec_frames(payload@, 0)) == spec_check_frames(it.remaining()),
            decreases it.remaining().len(),
        {
            let (r, p) = match it.next() {
                Some((r, p, _)) => (r, p),
                None => {
                    return false;
                },
            };
            if r.record_type == FCGI_END_REQUEST || r.record_type == FCGI_STDOUT {
                return false;
            }
            if r.record_type == FCGI_PARAMS {
                if let Ok(val) = get_param_val(p, "REQUEST_METHOD") {
                    if check_http_method(val) {
                        return true;
                    }
                }
                return false;
            }
        }
    }
    #[verifier::rlimit(40)]
    fn parse_request<C: TraceCarrier>(
        payload: &[u8],
        config: Option<&L7LogDynamicConfig<C>>,
    ) -> (r: Result<FastCGIInfo, Error>)
        ensures
            match spec_decode(payload@, PacketDirection::ClientToServer, config) {
                Some(v) => r matches Ok(info) && info@ == v,
                None => r == Err::<FastCGIInfo, Error>(Error::L7ProtocolUnknown),
            },
            r matches Ok(info) ==> info.rrt == 0,
    {
        let mut info = FastCGIInfo::default();
        info.msg_type = LogMessageType::Request;
        let ghost start = info@;
        assert(start == request_start());
        let mut it = RecordIter::new(payload);
        loop
            invariant_except_break
                spec_request_walk(start, spec_frames(payload@, 0), config) == spec_request_walk(
                    info@,
                    it.remaining(),
                    config,
                ),
            invariant
                it.wf(),
                start == request_start(),
                info.rrt == 0,
            ensures
                spec_request_walk(start, spec_frames(payload@, 0), config) == Some(info@),
            decreases it.remaining().len(),
        {
            let ghost rem = it.remaining();
            let ghost before = info@;
            let (record, content, off) = match it.next() {
                Some(x) => x,
                None => {
                    break ;
                },
            };
            if record.record_type == FCGI_PARAMS {
                info.request_id = record.request_id as u32;
                info.version = record.version;
                if record.content_len > 0 {
                    if let Err(e) = info.fill_from_param(
                        content,
                        PacketDirection::ClientToServer,
                        config,
                    ) {
                        assert(spec_request_walk(before, rem, config) is None);
                        assert(spec_decode(payload@, PacketDirection::ClientToServer, config) is None) by {
                            reveal(spec_decode);
                        }
                        return Err(e);
                    }
                    info.seq_off = #[verifier::truncate] (off as u32);
                    break ;
                }
            }
        }
        if info.method.as_str().is_empty() {
            assert(spec_decode(payload@, PacketDirection::ClientToServer, config) is None) by {
                reveal(spec_decode);
            }
            return Err(Error::L7ProtocolUnknown);
        }
        assert(spec_decode(payload@, PacketDirection::ClientToServer, config) == Some(info@)) by {
            reveal(spec_decode);
        }
        Ok(info)
    }

    /// Reads the header lines of one STDOUT record into `info`: `Ok(true)`
    /// when the `Status` header ended the walk, else `Ok(false)` with
    /// `is_hdr` telling whether any header line was seen.
    #[verifier::rlimit(40)]
    fn scan_stdout<C: TraceCarrier>(
        &mut self,
        info: &mut FastCGIInfo,
        content: &[u8],
        is_hdr: &mut bool,
        config: Option<&L7LogDynamicConfig<C>>,
    ) -> (r: Result<bool, Error>)
        requires
            !*old(is_hdr),
        ensures
            *final(self) == *old(self),
            match spec_lines(old(info)@, header_lines(content@), false, config) {
                LineScan::Failed => r == Err::<bool, Error>(Error::L7ProtocolUnknown),
                LineScan::Stop(v) => r == Ok::<bool, Error>(true) && final(info)@ == v,
                LineScan::Done(v, h) => r == Ok::<bool, Error>(false) && final(info)@ == v
                    && *final(is_hdr) == h,
            },
            final(info).rrt == old(info).rrt,
    {
        let ghost start = info@;
        let mut rest = content;
        loop
            invariant
                *self == *old(self),
                start == old(info)@,
                info.rrt == old(info).rrt,
                spec_lines(start, header_lines(content@), false, config) == spec_lines(
                    info@,
                    header_lines(rest@),
                    *is_hdr,
                    config,
                ),
            ensures
                *self == *old(self),
                info.rrt == old(info).rrt,
                spec_lines(start, header_lines(content@), false, config) == LineScan::Done(
                    info@,
                    *is_hdr,
                ),
            decreases rest@.len(),
        {
            let ghost rest_before = rest@;
            let ghost info_before = info@;
            let ghost hdr_before = *is_hdr;
            let (line, next) = match next_header_line(rest) {
                Some(x) => x,
                None => {
                    break ;
                },
            };
            let col = match find_byte_in(line, 58) {
                Some(c) => c,
                None => {
                    break ;
                },
            };
            if line.len() - col <= 1 {
                break ;
            }
            *is_hdr = true;
            let key = vstd::slice::slice_subrange(line, 0, col);
            let value = vstd::slice::slice_subrange(line, col + 1, line.len());
            let ghost step = spec_on_param(
                info_before,
                key@,
                value@,
                PacketDirection::ServerToClient,
                config,
            );
            assert(spec_lines(info_before, header_lines(rest_before), hdr_before, config) == match step {
                None => LineScan::Failed,
                Some(v1) => if key@ == "Status".spec_bytes() {
                    LineScan::Stop(with_status_value(v1, value@))
                } else {
                    spec_lines(v1, header_lines(next@), true, config)
                },
            });
            if let Err(e) = info.on_param(key, value, PacketDirection::ServerToClient, config) {
                return Err(e);
            }
            if bytes_eq(key, "Status".as_bytes()) {
                if value.len() >= 4 {
                    if let Some(code) = parse_decimal_u32(vstd::slice::slice_subrange(value, 1, 4)) {
                        assert(code <= 999) by {
                            crate::bytes::lemma_three_digits(
                                value@.subrange(1, 4),
                                u32::MAX as int,
                            );
                        }
                        info.status_code = Some(code as i32);
                        self.set_status(code as u16, info);
                    }
                }
                return Ok(true);
            }
            rest = next;
        }
        Ok(false)
    }

    #[verifier::rlimit(40)]
    fn parse_response<C: TraceCarrier>(
        &mut self,
        payload: &[u8],
        config: Option<&L7LogDynamicConfig<C>>,
    ) -> (r: Result<FastCGIInfo, Error>)
        ensures
            *final(self) == *old(self),
            match spec_decode(payload@, PacketDirection::ServerToClient, config) {
                Some(v) => r matches Ok(info) && info@ == v,
                None => r == Err::<FastCGIInfo, Error>(Error::L7ProtocolUnknown),
            },
            r matches Ok(info) ==> info.rrt == 0,
    {
        let mut info = FastCGIInfo::default();
        info.msg_type = LogMessageType::Response;
        let ghost start = info@;
        assert(start == response_start());
        let mut it = RecordIter::new(payload);
        loop
            invariant_except_break
                spec_response_walk(start, spec_frames(payload@, 0), config) == spec_response_walk(
                    info@,
                    it.remaining(),
                    config,
                ),
            invariant
                it.wf(),
                *self == *old(self),
                start == response_start(),
                info.rrt == 0,
            ensures
                *self == *old(self),
                spec_response_walk(start, spec_frames(payload@, 0), config) == Some(info@),
            decreases it.remaining().len(),
        {
            let ghost rem = it.remaining();
            let ghost before = info@;
            let (record, content, off) = match it.next() {
                Some(x) => x,
                None => {
                    break ;
                },
            };
            info.seq_off = #[verifier::truncate] (off as u32);
            if record.record_type == FCGI_STDOUT {
                info.request_id = record.request_id as u32;
                info.version = record.version;
                let mut is_hdr = false;
                match self.scan_stdout(&mut info, content, &mut is_hdr, config) {
                    Err(e) => {
                        assert(spec_response_walk(before, rem, config) is None);
                        assert(spec_decode(payload@, PacketDirection::ServerToClient, config) is None) by {
                            reveal(spec_decode);
                        }
                        return Err(e);
                    },
                    Ok(true) => {
                        break ;
                    },
                    Ok(false) => {},
                }
                if is_hdr {
                    if info.status_code.is_none() {
                        info.status_code = Some(200);
                        self.set_status(200, &mut info);
                    }
                    break ;
                }
            }
        }
        if info.status_code.is_none() {
            assert(spec_decode(payload@, PacketDirection::ServerToClient, config) is None) by {
                reveal(spec_decode);
            }
            return Err(Error::L7ProtocolUnknown);
        }
        assert(spec_decode(payload@, PacketDirection::ServerToClient, config) == Some(info@)) by {
            reveal(spec_decode);
        }
        Ok(info)
    }

    /// Decodes one direction's payload into a record, stamps it with what
    /// `param` tells and with the blacklists' verdict, and counts it unless it
    /// or the message before it is blacklisted. A counted message then waits
    /// for its round-trip time (`apply_rrt`).
    pub fn parse_payload<C: TraceCarrier, M: BlacklistMatcher>(
        &mut self,
        payload: &[u8],
        param: &ParseParam,
        config: Option<&L7LogDynamicConfig<C>>,
        blacklist: Option<&BlacklistTrie<M>>,
    ) -> (r: Result<FastCGIInfo, Error>)
        ensures
            match spec_decode(payload@, param.direction, config) {
                Some(v) => r matches Ok(info) && info@ == spec_stamp(v, *param, blacklist)
                    && final(self)@ == old(self)@.after_parse(info@, param.direction),
                None => r == Err::<FastCGIInfo, Error>(Error::L7ProtocolUnknown) && final(self)@
                    == old(self)@.started(),
            },
            // the round-trip time comes later, through `apply_rrt`
            r matches Ok(info) ==> info.rrt == 0,
    {
        if self.perf_stats.is_none() {
            self.perf_stats = Some(L7PerfStats::default());
        }
        self.rrt_pending = false;
        let r = if param.direction == PacketDirection::ClientToServer {
            Self::parse_request(payload, config)
        } else {
            self.parse_response(payload, config)
        };
        let mut info = match r {
            Ok(info) => info,
            Err(e) => {
                return Err(e);
            },
        };
        info.is_tls = param.is_tls;
        if param.direction == PacketDirection::ClientToServer {
            info.captured_request_byte = param.captured_byte;
        } else {
            info.captured_response_byte = param.captured_byte;
        }
        if let Some(t) = blacklist {
            info.set_is_on_blacklist(t);
        }
        if !info.is_on_blacklist && !self.last_is_on_blacklist {
            let mut stats = match self.perf_stats {
                Some(s) => s,
                None => L7PerfStats::default(),
            };
            if param.direction == PacketDirection::ClientToServer {
                stats.inc_req();
            } else {
                stats.inc_resp(info.status);
            }
            self.perf_stats = Some(stats);
            self.rrt_pending = true;
        }
        self.last_is_on_blacklist = info.is_on_blacklist;
        Ok(info)
    }

    /// Whether the last parsed message was counted and waits for its
    /// round-trip time.
    pub fn wants_rrt(&self) -> (r: bool)
        ensures
            r == self@.rrt_pending,
    {
        self.rrt_pending
    }

    /// Takes in the round-trip time of the last parsed message, with the
    /// endpoint that came with it, where that message was counted: the record
    /// gets the time (and, for a response, the endpoint) and the counters a
    /// sample.
    pub fn apply_rrt(&mut self, info: &mut FastCGIInfo, rrt: Option<(u64, Option<String>)>)
        ensures
            final(self)@ == old(self)@.after_rrt(rrt_time(rrt)),
            final(info)@ == match rrt {
                Some((t, endpoint)) => if old(self)@.rrt_pending {
                    InfoView {
                        rrt: t,
                        endpoint: if old(info).msg_type == LogMessageType::Response {
                            opt_text(endpoint)
                        } else {
                            old(info)@.endpoint
                        },
                        ..old(info)@
                    }
                } else {
                    old(info)@
                },
                None => old(info)@,
            },
    {
        if let Some((t, endpoint)) = rrt {
            if self.rrt_pending {
                info.rrt = t;
                if info.msg_type == LogMessageType::Response {
                    info.endpoint = endpoint;
                }
                if let Some(mut s) = self.perf_stats {
                    s.update_rrt(t);
                    self.perf_stats = Some(s);
                }
                self.rrt_pending = false;
            }
        } else {
            self.rrt_pending = false;
        }
    }

    pub fn protocol(&self) -> (r: L7Protocol)
        ensures
            r == L7Protocol::FastCGI,
    {
        L7Protocol::FastCGI
    }

    /// Hands the counters over and leaves none behind.
    pub fn perf_stats(&mut self) -> (r: Option<L7PerfStats>)
        ensures
            r == old(self)@.perf_stats,
            final(self)@ == (LogView { perf_stats: None, ..old(self)@ }),
    {
        self.perf_stats.take()
    }

    pub fn parsable_on_udp(&self) -> (r: bool)
        ensures
            !r,
    {
        false
    }
}

} // verus!
