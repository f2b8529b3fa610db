use fastcgi::config::{BlacklistTrie, ExactMatcher, HeaderCarrier, L7LogDynamicConfig};
use fastcgi::info::{
    FastCGIInfo, L7ResponseStatus, LogMessageType, PacketDirection, PrioField,
};
use fastcgi::params::{get_param_val, read_param_kv_len};
use fastcgi::parser::{FastCGILog, ParseParam};
use fastcgi::perf::L7PerfStats;
use fastcgi::record::{FastCGIRecord, RecordIter};
use fastcgi::sendlog::{u8_to_decimal, L7ProtocolSendLog};
use fastcgi::Error;

const BEGIN_REQUEST: u8 = 1;
const END_REQUEST: u8 = 3;
const PARAMS: u8 = 4;
const STDIN: u8 = 5;
const STDOUT: u8 = 6;

fn record(kind: u8, request_id: u16, content: &[u8], padding: u8) -> Vec<u8> {
    let mut r = vec![
        1,
        kind,
        (request_id >> 8) as u8,
        request_id as u8,
        (content.len() >> 8) as u8,
        content.len() as u8,
        padding,
        0,
    ];
    r.extend_from_slice(content);
    r.extend(std::iter::repeat(0u8).take(padding as usize));
    r
}

fn push_len(out: &mut Vec<u8>, len: usize) {
    if len < 128 {
        out.push(len as u8);
    } else {
        out.push(((len >> 24) as u8) | 0x80);
        out.push((len >> 16) as u8);
        out.push((len >> 8) as u8);
        out.push(len as u8);
    }
}

fn param(out: &mut Vec<u8>, key: &str, val: &[u8]) {
    push_len(out, key.len());
    push_len(out, val.len());
    out.extend_from_slice(key.as_bytes());
    out.extend_from_slice(val);
}

fn no_config() -> Option<&'static L7LogDynamicConfig<HeaderCarrier>> {
    None
}

fn no_blacklist() -> Option<&'static BlacklistTrie<ExactMatcher>> {
    None
}

fn c2s(captured_byte: u32) -> ParseParam {
    ParseParam { direction: PacketDirection::ClientToServer, is_tls: false, captured_byte }
}

fn s2c(captured_byte: u32) -> ParseParam {
    ParseParam { direction: PacketDirection::ServerToClient, is_tls: false, captured_byte }
}

/// A request as a web server sends it: BEGIN_REQUEST, one PARAMS record with
/// content, an empty PARAMS record and an empty STDIN record; 576 bytes.
fn request_payload() -> Vec<u8> {
    let mut params = Vec::new();
    param(&mut params, "REQUEST_METHOD", b"GET");
    param(&mut params, "REQUEST_URI", b"/aaaaa");
    param(&mut params, "HTTP_HOST", b"172.17.0.3:8080");
    param(&mut params, "HTTP_USER_AGENT", b"curl/7.87.0");
    param(&mut params, "DOCUMENT_URI", b"/index.php");
    param(&mut params, "SCRIPT_NAME", b"/index.php");
    let filler = 536 - params.len() - (1 + 4 + "SCRIPT_FILENAME".len());
    param(&mut params, "SCRIPT_FILENAME", &vec![b'x'; filler]);
    assert_eq!(params.len(), 536);
    let mut p = record(BEGIN_REQUEST, 1, &[0, 1, 0, 0, 0, 0, 0, 0], 0);
    p.extend(record(PARAMS, 1, &params, 0));
    p.extend(record(PARAMS, 1, &[], 0));
    p.extend(record(STDIN, 1, &[], 0));
    assert_eq!(p.len(), 576);
    p
}

/// A response without a `Status` header: STDOUT and END_REQUEST; 88 bytes.
fn response_payload() -> Vec<u8> {
    let body = b"X-Powered-By: PHP/8.1\r\nContent-type: text/html\r\n\r\n<p>hello</p>\r\n";
    let mut p = record(STDOUT, 1, body, 0);
    p.extend(record(END_REQUEST, 1, &[0, 0, 0, 0, 0, 0, 0, 0], 0));
    assert_eq!(p.len(), 88);
    p
}

fn check_and_parse() -> (FastCGIInfo, L7PerfStats) {
    let mut parser = FastCGILog::default();
    let req_payload = request_payload();
    let req_param = c2s(req_payload.len() as u32);
    assert_eq!(parser.check_payload(&req_payload, &req_param), true);
    let mut req = parser
        .parse_payload(&req_payload, &req_param, no_config(), no_blacklist())
        .unwrap();
    // the round-trip cache has nothing to pair the request with yet
    let req_time_us: u64 = 1_000_000;
    if parser.wants_rrt() {
        parser.apply_rrt(&mut req, None);
    }

    let resp_payload = response_payload();
    let resp_param = s2c(resp_payload.len() as u32);
    assert_eq!(parser.check_payload(&resp_payload, &resp_param), false);
    let mut resp = parser
        .parse_payload(&resp_payload, &resp_param, no_config(), no_blacklist())
        .unwrap();
    let resp_time_us: u64 = 1_000_174;
    if parser.wants_rrt() {
        parser.apply_rrt(
            &mut resp,
            Some((resp_time_us - req_time_us, Some("/index.php".to_string()))),
        );
    }

    req.merge_log(&mut resp).unwrap();
    (req, parser.perf_stats().unwrap())
}

#[test]
fn test_fastcgi() {
    let (info, perf) = check_and_parse();
    assert_eq!(info.method.as_str(), "GET");

    let f = FastCGIInfo {
        version: 1,
        request_id: 1,
        msg_type: LogMessageType::Request,
        method: "GET".into(),
        path: "/aaaaa".into(),
        host: "172.17.0.3:8080".into(),
        user_agent: Some("curl/7.87.0".into()),
        endpoint: Some("/index.php".into()),
        status_code: Some(200),
        status: L7ResponseStatus::Success,
        seq_off: 16,
        captured_request_byte: 576,
        captured_response_byte: 88,
        ..Default::default()
    };

    assert_eq!(info, f);

    assert_eq!(
        perf,
        L7PerfStats {
            request_count: 1,
            response_count: 1,
            err_client_count: 0,
            err_server_count: 0,
            err_timeout: 0,
            rrt_count: 1,
            rrt_sum: 174,
            rrt_max: 174,
            ..Default::default()
        }
    );
}

#[test]
fn short_header_is_refused() {
    for n in 0..8 {
        let b = vec![1u8; n];
        assert_eq!(FastCGIRecord::parse(&b), Err(Error::L7ProtocolUnknown));
    }
    assert_eq!(FastCGIRecord::parse(&[1, 12, 0, 1, 0, 0, 0, 0]), Err(Error::L7ProtocolUnknown));
    let r = FastCGIRecord::parse(&[1, 11, 0x12, 0x34, 0x01, 0x02, 7, 0]).unwrap();
    assert_eq!(r.record_type, 11);
    assert_eq!(r.request_id, 0x1234);
    assert_eq!(r.content_len, 0x0102);
    assert_eq!(r.padding_len, 7);
}

#[test]
fn one_byte_lengths() {
    assert_eq!(read_param_kv_len(&[0x05, 0x7f]), Ok((2, 5, 127)));
    assert_eq!(read_param_kv_len(&[0x00, 0x00, 0xff]), Ok((2, 0, 0)));
}

#[test]
fn four_byte_lengths() {
    assert_eq!(read_param_kv_len(&[0x80, 0x00, 0x00, 0xC8, 0x03]), Ok((5, 200, 3)));
    assert_eq!(read_param_kv_len(&[0x02, 0xff, 0x01, 0x02, 0x03]), Ok((5, 2, 0x7f010203)));
    assert_eq!(
        read_param_kv_len(&[0x81, 0x00, 0x00, 0x00, 0x80, 0x00, 0x01, 0x00]),
        Ok((8, 0x01000000, 0x100))
    );
}

#[test]
fn truncated_lengths_are_refused() {
    assert_eq!(read_param_kv_len(&[0x05]), Err(Error::L7ProtocolUnknown));
    assert_eq!(read_param_kv_len(&[0x80, 0x00, 0x00]), Err(Error::L7ProtocolUnknown));
    assert_eq!(read_param_kv_len(&[0x80, 0x00, 0x00, 0x01]), Err(Error::L7ProtocolUnknown));
    assert_eq!(read_param_kv_len(&[0x01, 0x80, 0x00]), Err(Error::L7ProtocolUnknown));
}

#[test]
fn param_lookup() {
    let mut p = Vec::new();
    param(&mut p, "A", b"1");
    param(&mut p, "REQUEST_METHOD", b"POST");
    assert_eq!(get_param_val(&p, "REQUEST_METHOD"), Ok(&b"POST"[..]));
    assert_eq!(get_param_val(&p, "MISSING"), Err(Error::L7ProtocolUnknown));
    // a pair that claims more bytes than there are
    let cut = vec![0x01, 0x10, b'A', b'x'];
    assert_eq!(get_param_val(&cut, "A"), Err(Error::L7ProtocolUnknown));
}

fn params_frame(pairs: &[(&str, &[u8])]) -> Vec<u8> {
    let mut content = Vec::new();
    for (k, v) in pairs {
        param(&mut content, k, v);
    }
    record(PARAMS, 1, &content, 0)
}

#[test]
fn recognizes_get_request() {
    let mut parser = FastCGILog::default();
    let p = params_frame(&[("REQUEST_METHOD", b"GET")]);
    assert!(parser.check_payload(&p, &c2s(0)));

    let mut stdout_first = record(STDOUT, 1, b"X: y\r\n", 0);
    stdout_first.extend(p.clone());
    assert!(!parser.check_payload(&stdout_first, &c2s(0)));

    let mut begin_first = record(BEGIN_REQUEST, 1, &[0; 8], 0);
    begin_first.extend(p);
    assert!(parser.check_payload(&begin_first, &c2s(0)));
}

#[test]
fn first_params_record_decides() {
    let mut parser = FastCGILog::default();
    let mut p = params_frame(&[("REQUEST_METHOD", b"FETCH")]);
    p.extend(params_frame(&[("REQUEST_METHOD", b"GET")]));
    assert!(!parser.check_payload(&p, &c2s(0)));
    assert!(!parser.check_payload(&record(STDIN, 1, &[], 0), &c2s(0)));
    assert!(!parser.check_payload(&[], &c2s(0)));
}

#[test]
fn truncated_record_is_clamped() {
    let mut p = vec![1, STDOUT, 0, 1, 0, 100, 0, 0];
    p.extend_from_slice(b"abc");
    let mut it = RecordIter::new(&p);
    let (r, content, off) = it.next().unwrap();
    assert_eq!(r.content_len, 100);
    assert_eq!(content, b"abc");
    assert_eq!(off, 0);
    assert!(it.next().is_none());
    assert!(it.next().is_none());
}

#[test]
fn records_and_offsets() {
    let mut p = record(BEGIN_REQUEST, 1, &[0; 8], 0);
    p.extend(record(PARAMS, 1, b"ab", 6));
    p.extend_from_slice(&[1, 2, 3]);
    let mut it = RecordIter::new(&p);
    let (r, c, off) = it.next().unwrap();
    assert_eq!((r.record_type, c.len(), off), (BEGIN_REQUEST, 8, 0));
    let (r, c, off) = it.next().unwrap();
    assert_eq!((r.record_type, c, off), (PARAMS, &b"ab"[..], 16));
    assert!(it.next().is_none());
}

#[test]
fn request_fields() {
    let mut parser = FastCGILog::default();
    let p = params_frame(&[
        ("REQUEST_METHOD", b"GET"),
        ("REQUEST_URI", b"/aaaaa"),
        ("HTTP_HOST", b"172.17.0.3:8080"),
        ("HTTP_USER_AGENT", b"curl/7.87.0"),
        ("DOCUMENT_URI", b"/index.php"),
    ]);
    let info = parser.parse_payload(&p, &c2s(9), no_config(), no_blacklist()).unwrap();
    assert_eq!(info.method, "GET");
    assert_eq!(info.path, "/aaaaa");
    assert_eq!(info.host, "172.17.0.3:8080");
    assert_eq!(info.user_agent.as_deref(), Some("curl/7.87.0"));
    assert_eq!(info.endpoint.as_deref(), Some("/index.php"));
    assert_eq!(info.msg_type, LogMessageType::Request);
    assert_eq!(info.captured_request_byte, 9);
    assert_eq!(info.seq_off, 0);
}

#[test]
fn request_uri_beats_script_name() {
    let mut parser = FastCGILog::default();
    let p = params_frame(&[
        ("SCRIPT_NAME", b"/s.php"),
        ("REQUEST_METHOD", b"GET"),
        ("REQUEST_URI", b"/uri"),
        ("SCRIPT_NAME", b"/t.php"),
    ]);
    let info = parser.parse_payload(&p, &c2s(0), no_config(), no_blacklist()).unwrap();
    assert_eq!(info.path, "/uri");
    let p = params_frame(&[("REQUEST_METHOD", b"GET"), ("SCRIPT_NAME", b"/s.php")]);
    let info = parser.parse_payload(&p, &c2s(0), no_config(), no_blacklist()).unwrap();
    assert_eq!(info.path, "/s.php");
}

#[test]
fn request_without_method_fails() {
    let mut parser = FastCGILog::default();
    let p = params_frame(&[("REQUEST_URI", b"/x")]);
    assert_eq!(
        parser.parse_payload(&p, &c2s(0), no_config(), no_blacklist()),
        Err(Error::L7ProtocolUnknown)
    );
    assert_eq!(
        parser.parse_payload(&[1, 2, 3], &c2s(0), no_config(), no_blacklist()),
        Err(Error::L7ProtocolUnknown)
    );
}

#[test]
fn content_length() {
    let mut parser = FastCGILog::default();
    let p = params_frame(&[("REQUEST_METHOD", b"POST"), ("CONTENT_LENGTH", b"1234")]);
    let info = parser.parse_payload(&p, &c2s(0), no_config(), no_blacklist()).unwrap();
    assert_eq!(info.req_content_length, Some(1234));
    assert_eq!(info.resp_content_length, None);

    let p = params_frame(&[("REQUEST_METHOD", b"POST"), ("CONTENT_LENGTH", b"+7")]);
    let info = parser.parse_payload(&p, &c2s(0), no_config(), no_blacklist()).unwrap();
    assert_eq!(info.req_content_length, Some(7));

    let p = params_frame(&[("REQUEST_METHOD", b"POST"), ("CONTENT_LENGTH", b"")]);
    let info = parser.parse_payload(&p, &c2s(0), no_config(), no_blacklist()).unwrap();
    assert_eq!(info.req_content_length, None);
}

#[test]
fn bad_content_length_fails_the_message() {
    let mut parser = FastCGILog::default();
    for bad in [&b"12a"[..], b"-1", b"4294967296", b"+"] {
        let p = params_frame(&[("REQUEST_METHOD", b"POST"), ("CONTENT_LENGTH", bad)]);
        assert_eq!(
            parser.parse_payload(&p, &c2s(0), no_config(), no_blacklist()),
            Err(Error::L7ProtocolUnknown)
        );
    }
    let p = params_frame(&[("REQUEST_METHOD", b"POST"), ("CONTENT_LENGTH", b"4294967295")]);
    let info = parser.parse_payload(&p, &c2s(0), no_config(), no_blacklist()).unwrap();
    assert_eq!(info.req_content_length, Some(u32::MAX));
}

#[test]
fn invalid_utf8_value_is_replaced() {
    let mut parser = FastCGILog::default();
    let p = params_frame(&[("REQUEST_METHOD", b"G\xffT")]);
    let info = parser.parse_payload(&p, &c2s(0), no_config(), no_blacklist()).unwrap();
    assert_eq!(info.method, "G\u{FFFD}T");
}

fn response(body: &[u8]) -> Vec<u8> {
    record(STDOUT, 3, body, 0)
}

fn parse_response(body: &[u8]) -> Result<FastCGIInfo, Error> {
    let mut parser = FastCGILog::default();
    parser.parse_payload(&response(body), &s2c(0), no_config(), no_blacklist())
}

#[test]
fn status_lines() {
    let info = parse_response(b"Content-Type: text/html\r\nStatus: 200 OK\r\n\r\n").unwrap();
    assert_eq!((info.status_code, info.status), (Some(200), L7ResponseStatus::Success));
    assert_eq!(info.request_id, 3);
    assert_eq!(info.msg_type, LogMessageType::Response);

    let info = parse_response(b"Status: 404 Not Found\r\n\r\n").unwrap();
    assert_eq!((info.status_code, info.status), (Some(404), L7ResponseStatus::ClientError));

    let info = parse_response(b"Status: 503 Service Unavailable\r\n\r\n").unwrap();
    assert_eq!((info.status_code, info.status), (Some(503), L7ResponseStatus::ServerError));

    let info = parse_response(b"X-Powered-By: PHP\r\n\r\n").unwrap();
    assert_eq!((info.status_code, info.status), (Some(200), L7ResponseStatus::Success));
}

#[test]
fn status_edges() {
    let info = parse_response(b"Status: 399 x\r\n").unwrap();
    assert_eq!((info.status_code, info.status), (Some(399), L7ResponseStatus::Success));
    let info = parse_response(b"Status: 499 x\r\n").unwrap();
    assert_eq!(info.status, L7ResponseStatus::ClientError);
    let info = parse_response(b"Status: 599 x\r\n").unwrap();
    assert_eq!(info.status, L7ResponseStatus::ServerError);
    let info = parse_response(b"Status: 600 x\r\n").unwrap();
    assert_eq!(info.status, L7ResponseStatus::Success);
    // a status that does not read as a number, or is too short, leaves no code
    assert_eq!(parse_response(b"Status: abc\r\n"), Err(Error::L7ProtocolUnknown));
    assert_eq!(parse_response(b"Status: 20\r\n"), Err(Error::L7ProtocolUnknown));
    // no header line at all
    assert_eq!(parse_response(b"hello\r\n"), Err(Error::L7ProtocolUnknown));
    assert_eq!(parse_response(b"X:\r\n"), Err(Error::L7ProtocolUnknown));
}

#[test]
fn response_skips_records_without_headers() {
    let mut p = record(STDOUT, 1, b"no header here\r\n", 0);
    p.extend(record(STDERR_KIND, 1, b"oops", 0));
    p.extend(record(STDOUT, 2, b"Status: 502 Bad Gateway\r\n", 0));
    let mut parser = FastCGILog::default();
    let info = parser.parse_payload(&p, &s2c(0), no_config(), no_blacklist()).unwrap();
    assert_eq!(info.status_code, Some(502));
    assert_eq!(info.request_id, 2);
    assert_eq!(info.seq_off, 16 + 12 + 8);
}

const STDERR_KIND: u8 = 7;

fn trace_config() -> L7LogDynamicConfig<HeaderCarrier> {
    L7LogDynamicConfig {
        trace_types: vec![
            HeaderCarrier { name: "http_traceparent".to_string() },
            HeaderCarrier { name: "http_x_b3_traceid".to_string() },
        ],
        span_types: vec![HeaderCarrier { name: "http_x_b3_spanid".to_string() }],
        x_request_id: vec!["http_x_request_id".to_string()],
    }
}

#[test]
fn trace_ids_follow_priority() {
    let cfg = trace_config();
    let mut parser = FastCGILog::default();
    let p = params_frame(&[
        ("REQUEST_METHOD", b"GET"),
        ("HTTP_X_B3_TRACEID", b"weak"),
        ("HTTP_TRACEPARENT", b"strong"),
        ("HTTP_X_B3_TRACEID", b"weak-again"),
        ("HTTP_X_B3_SPANID", b"span"),
        ("HTTP_X_REQUEST_ID", b"req-1"),
    ]);
    let info = parser.parse_payload(&p, &c2s(0), Some(&cfg), no_blacklist()).unwrap();
    assert_eq!(info.trace_id, PrioField::new(0, "strong".to_string()));
    assert_eq!(info.span_id, PrioField::new(0, "span".to_string()));
    assert_eq!(info.x_request_id_0, PrioField::new(0, "req-1".to_string()));
    assert!(info.x_request_id_1.is_default());
}

#[test]
fn trace_id_in_response_header() {
    let cfg = trace_config();
    let mut parser = FastCGILog::default();
    let p = response(b"X-Request-Id: r9\r\nhttp_x_b3_traceid: t1\r\nStatus: 200 OK\r\n");
    let info = parser.parse_payload(&p, &s2c(0), Some(&cfg), no_blacklist()).unwrap();
    // the value keeps the space after the colon
    assert_eq!(info.trace_id, PrioField::new(1, " t1".to_string()));
    assert!(info.x_request_id_1.is_default());
    let p = response(b"HTTP_X_REQUEST_ID: r9\r\nStatus: 200 OK\r\n");
    let info = parser.parse_payload(&p, &s2c(0), Some(&cfg), no_blacklist()).unwrap();
    assert_eq!(info.x_request_id_1, PrioField::new(0, " r9".to_string()));
}

#[test]
fn non_text_header_is_ignored() {
    let cfg = trace_config();
    let mut parser = FastCGILog::default();
    let p = params_frame(&[("REQUEST_METHOD", b"GET"), ("HTTP_TRACEPARENT", b"\xff\xfe")]);
    let info = parser.parse_payload(&p, &c2s(0), Some(&cfg), no_blacklist()).unwrap();
    assert!(info.trace_id.is_default());
}

fn stamped(trace: Option<&str>, status: L7ResponseStatus, code: Option<i32>) -> FastCGIInfo {
    let mut i = FastCGIInfo::default();
    if let Some(t) = trace {
        i.trace_id = PrioField::new(0, t.to_string());
    }
    i.status = status;
    i.status_code = code;
    i
}

#[test]
fn merge_keeps_request_trace() {
    let mut req = stamped(Some("abc"), L7ResponseStatus::Success, None);
    req.span_id = PrioField::new(2, "s".to_string());
    let mut resp = stamped(None, L7ResponseStatus::ServerError, Some(500));
    resp.captured_response_byte = 42;
    req.merge_log(&mut resp).unwrap();
    assert_eq!(req.trace_id, PrioField::new(0, "abc".to_string()));
    assert_eq!(req.span_id, PrioField::new(2, "s".to_string()));
    assert_eq!(req.status, L7ResponseStatus::ServerError);
    assert_eq!(req.status_code, Some(500));
    assert_eq!(req.captured_response_byte, 42);
}

#[test]
fn merge_takes_response_trace_when_request_has_none() {
    let mut req = stamped(None, L7ResponseStatus::Success, None);
    let mut resp = stamped(Some("from-resp"), L7ResponseStatus::Success, Some(200));
    resp.is_on_blacklist = true;
    req.merge_log(&mut resp).unwrap();
    assert_eq!(req.trace_id, PrioField::new(0, "from-resp".to_string()));
    assert!(req.is_on_blacklist);
    // a merge never clears the flag
    let mut clean = stamped(None, L7ResponseStatus::Success, Some(200));
    req.merge_log(&mut clean).unwrap();
    assert!(req.is_on_blacklist);
}

fn blacklist(paths: &[&str]) -> BlacklistTrie<ExactMatcher> {
    let none = || ExactMatcher { values: vec![] };
    BlacklistTrie {
        request_resource: ExactMatcher { values: paths.iter().map(|p| p.to_string()).collect() },
        request_type: none(),
        request_domain: none(),
        endpoint: none(),
    }
}

#[test]
fn blacklist_suppresses_counting() {
    let bl = blacklist(&["/health"]);
    let mut parser = FastCGILog::default();
    let p = params_frame(&[("REQUEST_METHOD", b"GET"), ("REQUEST_URI", b"/health")]);
    let mut req = parser.parse_payload(&p, &c2s(0), no_config(), Some(&bl)).unwrap();
    assert!(req.is_on_blacklist);
    assert!(!parser.wants_rrt());
    // the response of a blacklisted request is not counted either
    let mut resp = parser
        .parse_payload(&response(b"Status: 500 x\r\n"), &s2c(0), no_config(), Some(&bl))
        .unwrap();
    assert!(!resp.is_on_blacklist);
    req.merge_log(&mut resp).unwrap();
    assert!(req.is_on_blacklist);
    assert_eq!(parser.perf_stats(), Some(L7PerfStats::default()));
    assert_eq!(parser.perf_stats(), None);

    let endpoint_bl = BlacklistTrie {
        request_resource: ExactMatcher { values: vec![] },
        request_type: ExactMatcher { values: vec![] },
        request_domain: ExactMatcher { values: vec![] },
        endpoint: ExactMatcher { values: vec!["/index.php".to_string()] },
    };
    let p = params_frame(&[("REQUEST_METHOD", b"GET"), ("DOCUMENT_URI", b"/index.php")]);
    let info = parser.parse_payload(&p, &c2s(0), no_config(), Some(&endpoint_bl)).unwrap();
    assert!(info.is_on_blacklist);
    let p = params_frame(&[("REQUEST_METHOD", b"GET")]);
    let info = parser.parse_payload(&p, &c2s(0), no_config(), Some(&endpoint_bl)).unwrap();
    assert!(!info.is_on_blacklist);
}

#[test]
fn error_counts() {
    let mut parser = FastCGILog::default();
    for body in [&b"Status: 404 x\r\n"[..], b"Status: 502 x\r\n", b"Status: 200 x\r\n"] {
        parser.parse_payload(&response(body), &s2c(0), no_config(), no_blacklist()).unwrap();
    }
    let s = parser.perf_stats().unwrap();
    assert_eq!((s.response_count, s.err_client_count, s.err_server_count), (3, 1, 1));
    assert_eq!(s.request_count, 0);
}

#[test]
fn rrt_samples() {
    let mut parser = FastCGILog::default();
    let mut info = parse_ok(&mut parser);
    parser.apply_rrt(&mut info, Some((30, Some("/ep".to_string()))));
    assert_eq!(info.rrt, 30);
    // a request keeps its own endpoint
    assert_eq!(info.endpoint, None);
    // only one sample per message
    parser.apply_rrt(&mut info, Some((99, None)));
    assert_eq!(info.rrt, 30);
    let mut resp = parser
        .parse_payload(&response(b"Status: 200 x\r\n"), &s2c(0), no_config(), no_blacklist())
        .unwrap();
    parser.apply_rrt(&mut resp, Some((10, Some("/ep".to_string()))));
    assert_eq!(resp.endpoint.as_deref(), Some("/ep"));
    let s = parser.perf_stats().unwrap();
    assert_eq!((s.rrt_count, s.rrt_sum, s.rrt_max), (2, 40, 30));
}

fn parse_ok(parser: &mut FastCGILog) -> FastCGIInfo {
    let p = params_frame(&[("REQUEST_METHOD", b"GET")]);
    parser.parse_payload(&p, &c2s(0), no_config(), no_blacklist()).unwrap()
}

#[test]
fn accessors() {
    let mut parser = FastCGILog::default();
    let p = params_frame(&[
        ("REQUEST_METHOD", b"GET"),
        ("REQUEST_URI", b"/p\xc3\xa9"),
        ("HTTP_HOST", b"h"),
    ]);
    let info = parser.parse_payload(&p, &c2s(0), no_config(), no_blacklist()).unwrap();
    assert_eq!(info.session_id(), Some(1));
    assert_eq!(info.get_request_resource_length(), 4);
    assert_eq!(info.get_request_domain(), "h");
    assert_eq!(info.get_endpoint(), None);
    assert!(!info.is_tls());
    assert_eq!(info.tcp_seq_offset(), 0);
    assert!(!parser.parsable_on_udp());
    let head = info.app_proto_head().unwrap();
    assert_eq!(head.msg_type, LogMessageType::Request);
}

#[test]
fn send_log_shape() {
    let (info, _) = check_and_parse();
    let log = L7ProtocolSendLog::from(info);
    assert_eq!(log.req.req_type, "GET");
    assert_eq!(log.req.resource, "/aaaaa");
    assert_eq!(log.req.domain, "172.17.0.3:8080");
    assert_eq!(log.req.endpoint, "/index.php");
    assert_eq!(log.resp.code, Some(200));
    assert_eq!(log.version.as_deref(), Some("1"));
    assert_eq!(log.flags, 0);
    assert_eq!(log.captured_request_byte, 576);
    let t = log.trace_info.unwrap();
    assert_eq!((t.trace_id, t.span_id), (None, None));
    assert_eq!(log.ext_info.unwrap().request_id, Some(1));

    let mut f = FastCGIInfo::default();
    f.version = 255;
    f.is_tls = true;
    f.trace_id = PrioField::new(3, "t".to_string());
    let log = L7ProtocolSendLog::from(f);
    assert_eq!(log.version.as_deref(), Some("255"));
    assert_eq!(log.flags, 1);
    assert_eq!(log.trace_info.unwrap().trace_id.as_deref(), Some("t"));
    assert_eq!(u8_to_decimal(0), "0");
    assert_eq!(u8_to_decimal(47), "47");
    assert_eq!(u8_to_decimal(100), "100");
}

#[test]
fn merge_keeps_request_id_when_neither_is_set() {
    let mut req = FastCGIInfo::default();
    req.trace_id = PrioField::new(255, "req-text".to_string());
    let mut resp = FastCGIInfo::default();
    resp.trace_id = PrioField::new(255, "resp-text".to_string());
    resp.span_id = PrioField::new(1, "span".to_string());
    req.merge_log(&mut resp).unwrap();
    assert_eq!(req.trace_id, PrioField::new(255, "req-text".to_string()));
    assert_eq!(resp.trace_id, PrioField::new(255, "resp-text".to_string()));
    assert_eq!(req.span_id, PrioField::new(1, "span".to_string()));
    assert!(resp.span_id.is_default());
}

#[test]
fn earlier_pairs_stay_after_a_failing_pair() {
    let mut content = Vec::new();
    param(&mut content, "REQUEST_METHOD", b"GET");
    param(&mut content, "CONTENT_LENGTH", b"abc");
    param(&mut content, "HTTP_HOST", b"h");
    let mut info = FastCGIInfo::default();
    let r = info.fill_from_param(&content, PacketDirection::ClientToServer, no_config());
    assert_eq!(r, Err(Error::L7ProtocolUnknown));
    assert_eq!(info.method, "GET");
    assert_eq!(info.host, "");
    assert_eq!(info.req_content_length, None);
}
