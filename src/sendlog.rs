//! The record in the shape that the telemetry pipeline sends on.
use vstd::prelude::*;
use vstd::string::StringExecFns;

use crate::info::{opt_text, FastCGIInfo, L7ResponseStatus, DEFAULT_PRIO};

verus! {

/// Flag bit of a message that was carried over TLS.
pub const EBPF_FLAG_TLS: u32 = 1;

pub const EBPF_FLAG_NONE: u32 = 0;

#[derive(Clone, Debug, Default, PartialEq, Eq)]
pub struct L7Request {
    pub req_type: String,
    pub domain: String,
    pub resource: String,
    pub endpoint: String,
}

#[derive(Clone, Debug, PartialEq, Eq)]
pub struct L7Response {
    pub status: L7ResponseStatus,
    pub code: Option<i32>,
}

#[derive(Clone, Debug, Default, PartialEq, Eq)]
pub struct TraceInfo {
    pub trace_id: Option<String>,
    pub span_id: Option<String>,
}

#[derive(Clone, Debug, Default, PartialEq, Eq)]
pub struct ExtendedInfo {
    pub x_request_id_0: Option<String>,
    pub x_request_id_1: Option<String>,
    pub request_id: Option<u32>,
}

#[derive(Clone, Debug, PartialEq, Eq)]
pub struct L7ProtocolSendLog {
    pub captured_request_byte: u32,
    pub captured_response_byte: u32,
    pub req: L7Request,
    pub resp: L7Response,
    pub version: Option<String>,
    pub trace_info: Option<TraceInfo>,
    pub ext_info: Option<ExtendedInfo>,
    pub flags: u32,
}

pub open spec fn digit_char(d: nat) -> char {
    (48 + d) as char
}

/// The decimal digits of `n`, most significant first.
pub open spec fn decimal_text(n: nat) -> Seq<char>
    decreases n,
{
    if n < 10 {
        seq![digit_char(n)]
    } else {
        decimal_text(n / 10) + seq![digit_char(n % 10)]
    }
}

fn digit_str(d: u8) -> (r: &'static str)
    requires
        d < 10,
    ensures
        r@ == seq![digit_char(d as nat)],
{
    proof {
        reveal_strlit("0");
        reveal_strlit("1");
        reveal_strlit("2");
        reveal_strlit("3");
        reveal_strlit("4");
        reveal_strlit("5");
        reveal_strlit("6");
        reveal_strlit("7");
        reveal_strlit("8");
        reveal_strlit("9");
    }
    match d {
        0 => "0",
        1 => "1",
        2 => "2",
        3 => "3",
        4 => "4",
        5 => "5",
        6 => "6",
        7 => "7",
        8 => "8",
        _ => "9",
    }
}

/// `n` written in decimal.
pub fn u8_to_decimal(n: u8) -> (r: String)
    ensures
        r@ == decimal_text(n as nat),
{
    let mut s = String::new();
    if n >= 100 {
        s.append(digit_str(n / 100));
    }
    if n >= 10 {
        s.append(digit_str(n / 10 % 10));
    }
    s.append(digit_str(n % 10));
    proof {
        let m = n as nat;
        if n >= 100 {
            assert(decimal_text(m / 100) == seq![digit_char(m / 100)]);
            assert(decimal_text(m / 10) == decimal_text(m / 10 / 10) + seq![digit_char(m / 10 % 10)]);
            assert(m / 10 / 10 == m / 100);
        } else if n >= 10 {
            assert(decimal_text(m / 10) == seq![digit_char(m / 10)]);
        }
        assert(s@ == decimal_text(m));
    }
    s
}

/// A prioritized field's value, or nothing where it is unset.
pub open spec fn prio_text(prio: u8, field: Seq<char>) -> Option<Seq<char>> {
    if prio == DEFAULT_PRIO {
        None
    } else {
        Some(field)
    }
}

impl L7ProtocolSendLog {
    /// The record in the pipeline's shape: request and response parts, the
    /// version in decimal, trace and span ids where set, request ids, and the
    /// TLS flag.
    pub fn from(f: FastCGIInfo) -> (r: Self)
        ensures
            r.captured_request_byte == f.captured_request_byte,
            r.captured_response_byte == f.captured_response_byte,
            r.req.req_type@ == f.method@,
            r.req.domain@ == f.host@,
            r.req.resource@ == f.path@,
            r.req.endpoint@ == match f.endpoint {
                Some(e) => e@,
                None => Seq::<char>::empty(),
            },
            r.resp.status == f.status,
            r.resp.code == f.status_code,
            r.version matches Some(v) && v@ == decimal_text(f.version as nat),
            r.trace_info matches Some(t) && opt_text(t.trace_id) == prio_text(
                f.trace_id.prio,
                f.trace_id.field@,
            ) && opt_text(t.span_id) == prio_text(f.span_id.prio, f.span_id.field@),
            r.ext_info matches Some(x) && opt_text(x.x_request_id_0) == Some(
                f.x_request_id_0.field@,
            ) && opt_text(x.x_request_id_1) == Some(f.x_request_id_1.field@) && x.request_id
                == Some(f.request_id),
            r.flags == if f.is_tls {
                EBPF_FLAG_TLS
            } else {
                EBPF_FLAG_NONE
            },
    {
        let flags = if f.is_tls {
            EBPF_FLAG_TLS
        } else {
            EBPF_FLAG_NONE
        };
        let endpoint = match f.endpoint {
            Some(e) => e,
            None => String::new(),
        };
        let trace_id = if f.trace_id.is_default() {
            None
        } else {
            Some(f.trace_id.into_inner())
        };
        let span_id = if f.span_id.is_default() {
            None
        } else {
            Some(f.span_id.into_inner())
        };
        Self {
            captured_request_byte: f.captured_request_byte,
            captured_response_byte: f.captured_response_byte,
            req: L7Request { req_type: f.method, domain: f.host, resource: f.path, endpoint },
            resp: L7Response { status: f.status, code: f.status_code },
            version: Some(u8_to_decimal(f.version)),
            trace_info: Some(TraceInfo { trace_id, span_id }),
            ext_info: Some(
                ExtendedInfo {
                    x_request_id_0: Some(f.x_request_id_0.into_inner()),
                    x_request_id_1: Some(f.x_request_id_1.into_inner()),
                    request_id: Some(f.request_id),
                },
            ),
            flags,
        }
    }
}

} // verus!
