//! Properties that hold across several operations of the library.
use vstd::prelude::*;

use crate::config::{BlacklistMatcher, BlacklistTrie};
use crate::info::{spec_blacklisted, spec_merge, InfoView, L7ResponseStatus, PacketDirection, DEFAULT_PRIO};
use crate::parser::{spec_stamp, LogView, ParseParam};
use crate::perf::L7PerfStats;

verus! {

/// Merging a request that has a trace id with a response that has none keeps
/// the request's trace id and takes the response's status and status code.
pub proof fn lemma_merge_keeps_request_trace(req: InfoView, resp: InfoView)
    requires
        req.trace_id.prio != DEFAULT_PRIO,
        resp.trace_id.prio == DEFAULT_PRIO,
    ensures
        spec_merge(req, resp).trace_id == req.trace_id,
        spec_merge(req, resp).status == resp.status,
        spec_merge(req, resp).status_code == resp.status_code,
{
}

/// A record whose path, method, host or endpoint is on the blacklists is
/// marked, is not counted, keeps the message after it from being counted, and
/// marks any entry it is merged with, on either side.
pub proof fn lemma_blacklist_suppresses<M: BlacklistMatcher>(
    s: LogView,
    v: InfoView,
    param: ParseParam,
    t: &BlacklistTrie<M>,
    next: InfoView,
    next_direction: PacketDirection,
    other: InfoView,
)
    requires
        spec_blacklisted(v, *t),
    ensures
        ({
            let info = spec_stamp(v, param, Some(t));
            let s1 = s.after_parse(info, param.direction);
            &&& info.is_on_blacklist
            &&& s1.perf_stats == s.started().perf_stats
            &&& !s1.rrt_pending
            &&& s1.last_is_on_blacklist
            &&& s1.after_parse(next, next_direction).perf_stats == s1.perf_stats
            &&& spec_merge(other, info).is_on_blacklist
            &&& spec_merge(info, other).is_on_blacklist
        }),
{
    let v1 = if param.direction == PacketDirection::ClientToServer {
        InfoView { is_tls: param.is_tls, captured_request_byte: param.captured_byte, ..v }
    } else {
        InfoView { is_tls: param.is_tls, captured_response_byte: param.captured_byte, ..v }
    };
    assert(spec_blacklisted(v1, *t));
}

/// On a fresh connection, a request and then its response, neither
/// blacklisted and the response a success, with the round-trip time `rrt`
/// measured on the response, leave one request, one response and one sample
/// whose sum and maximum are `rrt`, and no errors.
pub proof fn lemma_one_exchange(req: InfoView, resp: InfoView, rrt: u64)
    requires
        !req.is_on_blacklist,
        !resp.is_on_blacklist,
        resp.status == L7ResponseStatus::Success,
    ensures
        LogView::fresh().after_parse(req, PacketDirection::ClientToServer).after_rrt(
            None,
        ).after_parse(resp, PacketDirection::ServerToClient).after_rrt(Some(rrt)).perf_stats
            == Some(
            L7PerfStats {
                request_count: 1,
                response_count: 1,
                err_client_count: 0,
                err_server_count: 0,
                err_timeout: 0,
                rrt_count: 1,
                rrt_sum: rrt,
                rrt_max: rrt,
            },
        ),
{
}

} // verus!
