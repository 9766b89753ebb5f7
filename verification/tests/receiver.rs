use opentelemetry_proto::tonic::collector::logs::v1::ExportLogsServiceRequest;
use opentelemetry_proto::tonic::collector::metrics::v1::ExportMetricsServiceRequest;
use opentelemetry_proto::tonic::collector::trace::v1::ExportTraceServiceRequest;
use opentelemetry_proto::tonic::logs::v1::{LogRecord, ResourceLogs, ScopeLogs};
use opentelemetry_proto::tonic::metrics::v1::{Metric, ResourceMetrics, ScopeMetrics};
use opentelemetry_proto::tonic::trace::v1::{ResourceSpans, ScopeSpans, Span};
use oteltap::channel::Channel;
use oteltap::item::{flatten, Item};
use oteltap::otel_receiver::{route, Conditions, Handled, OtelReceiver, SignalPath};
use oteltap::otel_reemitter::{OtelReemitter, StartError};
use oteltap::otlp::Signal;
use prost::Message;

fn ready() -> Conditions {
    Conditions {
        traces_client: true,
        logs_client: true,
        metrics_client: true,
        in_async_context: false,
    }
}

fn receiver(traces_to: Option<&str>, logs_to: Option<&str>, metrics_to: Option<&str>) -> OtelReceiver {
    OtelReceiver::start(
        4318,
        vec![Channel::new(), Channel::new()],
        vec![Channel::new()],
        vec![Channel::new()],
        traces_to,
        logs_to,
        metrics_to,
        ready(),
    )
    .unwrap()
}

fn span(name: &str) -> Span {
    Span { name: name.to_string(), trace_id: vec![7; 16], ..Default::default() }
}

fn traces(groups: Vec<Vec<Vec<Span>>>) -> Vec<u8> {
    let resource_spans = groups
        .into_iter()
        .map(|scopes| ResourceSpans {
            scope_spans: scopes
                .into_iter()
                .map(|spans| ScopeSpans { spans, ..Default::default() })
                .collect(),
            ..Default::default()
        })
        .collect();
    ExportTraceServiceRequest { resource_spans }.encode_to_vec()
}

fn assert_refused(handled: &Handled, status: u16, text: &str) {
    assert_eq!(handled.response.status, status);
    assert_eq!(handled.response.content_type, None);
    assert_eq!(handled.response.body, text.as_bytes());
    assert!(handled.reemission.is_none());
}

fn assert_accepted(handled: &Handled) {
    assert_eq!(handled.response.status, 200);
    assert_eq!(handled.response.content_type.as_deref(), Some("application/x-protobuf"));
    assert!(handled.response.body.is_empty());
}

fn take_all(receiver: &mut OtelReceiver, signal: Signal, index: usize) -> Vec<Vec<u8>> {
    let mut messages = Vec::new();
    while let Some(item) = receiver.receive(signal, index) {
        messages.push(item.message);
    }
    messages
}

#[test]
fn only_posts_to_the_three_paths_are_routed() {
    assert_eq!(route("POST", "/v1/traces"), Some(Signal::Traces));
    assert_eq!(route("POST", "/v1/logs"), Some(Signal::Logs));
    assert_eq!(route("POST", "/v1/metrics"), Some(Signal::Metrics));
    assert_eq!(route("GET", "/v1/traces"), None);
    assert_eq!(route("post", "/v1/traces"), None);
    assert_eq!(route("POST", "/v1/traces/"), None);
    assert_eq!(route("POST", "/"), None);
    assert_eq!(route("POST", ""), None);
}

#[test]
fn other_requests_are_not_found() {
    let mut r = receiver(None, None, None);
    let body = traces(vec![vec![vec![span("a")]]]);
    assert_refused(&r.handle("GET", "/v1/traces", Some(body.clone())), 404, "Not Found");
    assert_refused(&r.handle("POST", "/v1/spans", Some(body)), 404, "Not Found");
    assert_refused(&r.handle("PUT", "/", None), 404, "Not Found");
    assert!(take_all(&mut r, Signal::Traces, 0).is_empty());
}

#[test]
fn unreadable_bodies_are_refused() {
    let mut r = receiver(Some("http://localhost/t"), None, None);
    for path in ["/v1/traces", "/v1/logs", "/v1/metrics"] {
        assert_refused(&r.handle("POST", path, None), 400, "Failed to read request body");
    }
}

#[test]
fn undecodable_bodies_are_refused() {
    let mut r = receiver(Some("http://localhost/t"), None, None);
    for path in ["/v1/traces", "/v1/logs", "/v1/metrics"] {
        let handled = r.handle("POST", path, Some(vec![0xff, 0xff, 0xff]));
        assert_refused(&handled, 400, "Failed to decode request body");
    }
    for signal in [Signal::Traces, Signal::Logs, Signal::Metrics] {
        assert!(take_all(&mut r, signal, 0).is_empty());
    }
}

#[test]
fn spans_reach_every_sender_in_order() {
    let mut r = receiver(None, None, None);
    let names = ["a", "b", "c", "d", "e"];
    let s: Vec<Span> = names.iter().map(|n| span(n)).collect();
    let body = traces(vec![
        vec![vec![s[0].clone(), s[1].clone()], vec![], vec![s[2].clone()]],
        vec![],
        vec![vec![s[3].clone(), s[4].clone()]],
    ]);
    assert_accepted(&r.handle("POST", "/v1/traces", Some(body)));
    let expected: Vec<Vec<u8>> = s.iter().map(|x| x.encode_to_vec()).collect();
    assert_eq!(take_all(&mut r, Signal::Traces, 0), expected);
    assert_eq!(take_all(&mut r, Signal::Traces, 1), expected);
    assert!(r.receive(Signal::Traces, 2).is_none());
    assert!(r.receive(Signal::Logs, 0).is_none());
    assert!(r.receive(Signal::Metrics, 0).is_none());
}

#[test]
fn polled_spans_decode_to_what_was_sent() {
    let mut r = receiver(None, None, None);
    r.handle_traces(Some(traces(vec![vec![vec![span("checkout")]]])));
    let item = r.receive(Signal::Traces, 0).unwrap();
    assert_eq!(Span::decode(item.message.as_slice()).unwrap(), span("checkout"));
    assert_eq!(item.json, Ok(serde_json::to_string(&span("checkout")).unwrap()));
}

#[test]
fn log_records_reach_the_logs_channel() {
    let mut r = receiver(None, None, None);
    let record = LogRecord { severity_text: "WARN".to_string(), ..Default::default() };
    let body = ExportLogsServiceRequest {
        resource_logs: vec![ResourceLogs {
            scope_logs: vec![ScopeLogs {
                log_records: vec![record.clone(), LogRecord::default()],
                ..Default::default()
            }],
            ..Default::default()
        }],
    }
    .encode_to_vec();
    assert_accepted(&r.handle("POST", "/v1/logs", Some(body)));
    assert_eq!(take_all(&mut r, Signal::Logs, 0), vec![record.encode_to_vec(), vec![]]);
    assert!(r.receive(Signal::Traces, 0).is_none());
}

#[test]
fn metrics_reach_the_metrics_channel() {
    let mut r = receiver(None, None, None);
    let metric = Metric { name: "requests".to_string(), unit: "1".to_string(), ..Default::default() };
    let body = ExportMetricsServiceRequest {
        resource_metrics: vec![ResourceMetrics {
            scope_metrics: vec![ScopeMetrics { metrics: vec![metric.clone()], ..Default::default() }],
            ..Default::default()
        }],
    }
    .encode_to_vec();
    assert_accepted(&r.handle("POST", "/v1/metrics", Some(body)));
    let item = r.receive(Signal::Metrics, 0).unwrap();
    assert_eq!(item.message, metric.encode_to_vec());
    assert_eq!(item.json, Ok(serde_json::to_string(&metric).unwrap()));
    assert!(r.receive(Signal::Metrics, 0).is_none());
}

#[test]
fn a_request_without_items_is_accepted() {
    let mut r = receiver(None, None, None);
    assert_accepted(&r.handle("POST", "/v1/traces", Some(vec![])));
    assert_accepted(&r.handle("POST", "/v1/logs", Some(vec![])));
    assert_accepted(&r.handle("POST", "/v1/metrics", Some(vec![])));
    assert!(r.receive(Signal::Traces, 0).is_none());
}

#[test]
fn items_behind_waiting_ones() {
    let mut r = receiver(None, None, None);
    r.handle_traces(Some(traces(vec![vec![vec![span("first")]]])));
    r.handle_traces(Some(traces(vec![vec![vec![span("second")]]])));
    assert_eq!(
        take_all(&mut r, Signal::Traces, 0),
        vec![span("first").encode_to_vec(), span("second").encode_to_vec()]
    );
}

#[test]
fn accepted_requests_are_reemitted_byte_for_byte() {
    let mut r = receiver(Some("http://Collector.example:4318/v1/traces"), None, Some("https://m.example"));
    // An unknown field is not kept in the items, but it is passed on.
    let mut body = traces(vec![vec![vec![span("a")]]]);
    body.extend_from_slice(&[0xf8, 0x07, 0x01]);
    let handled = r.handle("POST", "/v1/traces", Some(body.clone()));
    assert_accepted(&handled);
    let out = handled.reemission.unwrap();
    assert_eq!(out.endpoint, "http://collector.example:4318/v1/traces");
    assert_eq!(out.content_type, "application/x-protobuf");
    assert_eq!(out.body, body);
    assert!(r.handle("POST", "/v1/logs", Some(vec![])).reemission.is_none());
    let metrics = r.handle("POST", "/v1/metrics", Some(vec![])).reemission.unwrap();
    assert_eq!(metrics.endpoint, "https://m.example/");
    assert!(metrics.body.is_empty());
}

#[test]
fn the_answer_does_not_depend_on_reemission() {
    let mut with = receiver(Some("http://localhost"), None, None);
    let mut without = receiver(None, None, None);
    for body in [None, Some(vec![]), Some(vec![0xff]), Some(traces(vec![vec![vec![span("x")]]]))] {
        let left = with.handle("POST", "/v1/traces", body.clone()).response;
        let right = without.handle("POST", "/v1/traces", body).response;
        assert_eq!(left.status, right.status);
        assert_eq!(left.content_type, right.content_type);
        assert_eq!(left.body, right.body);
    }
}

#[test]
fn the_first_failure_keeps_a_receiver_from_starting() {
    let start = |t: Option<&str>, l: Option<&str>, m: Option<&str>, c: Conditions| {
        OtelReceiver::start_on([0, 0, 0, 0], 1, vec![], vec![], vec![], t, l, m, c)
    };
    let no_logs_client = Conditions { logs_client: false, ..ready() };
    let in_async = Conditions { in_async_context: true, ..ready() };
    match start(Some("no url"), Some("http://x"), None, no_logs_client) {
        Err(StartError::InvalidEndpoint(text)) => assert_eq!(text, "relative URL without a base"),
        other => panic!("{:?}", other.is_ok()),
    }
    assert!(matches!(
        start(Some("http://x"), Some("http://x"), Some(""), no_logs_client),
        Err(StartError::ClientUnavailable)
    ));
    assert!(matches!(
        start(None, None, Some("http://"), ready()),
        Err(StartError::InvalidEndpoint(_))
    ));
    // A client that is not needed may be missing.
    assert!(start(None, None, None, no_logs_client).is_ok());
    assert!(matches!(start(None, None, None, in_async), Err(StartError::AsyncContext)));
    assert!(matches!(
        start(Some("::"), None, None, in_async),
        Err(StartError::InvalidEndpoint(_))
    ));
    let r = start(None, None, None, ready()).unwrap();
    assert_eq!((r.host, r.port), ([0, 0, 0, 0], 1));
    let r = receiver(None, None, None);
    assert_eq!((r.host, r.port), ([127, 0, 0, 1], 4318));
}

#[test]
fn reemitters_hold_a_normalized_url() {
    let r = OtelReemitter::new("HTTP://LocalHost:80/a/../b", true).unwrap();
    assert_eq!(r.reemit(vec![1, 2]).endpoint, "http://localhost/b");
    let made = OtelReemitter::with_url(Ok("http://c/".to_string()), true).unwrap();
    assert_eq!(made.reemit(vec![1, 2]).body, vec![1, 2]);
    assert!(OtelReemitter::with_url(Err("bad".to_string()), true).is_err());
    assert!(OtelReemitter::with_url(Ok("http://c/".to_string()), false).is_err());
}

fn item(byte: u8) -> Item {
    Item { message: vec![byte], json: Ok(format!("{{\"n\":{byte}}}")) }
}

#[test]
fn export_sends_the_given_items() {
    let mut path = SignalPath { senders: vec![Channel::new(), Channel::new()], reemitter: None };
    let handled = path.export(vec![9], Some(vec![vec![vec![item(1)], vec![item(2)]]]), vec![5]);
    assert_eq!(handled.response.status, 200);
    assert_eq!(handled.response.body, vec![5]);
    assert!(handled.reemission.is_none());
    for index in 0..2 {
        assert_eq!(path.receive(index).unwrap().message, vec![1]);
        assert_eq!(path.receive(index).unwrap().message, vec![2]);
        assert!(path.receive(index).is_none());
    }
    let refused = path.export(vec![9], None, vec![5]);
    assert_refused(&refused, 400, "Failed to decode request body");
}

#[test]
fn flattening_keeps_the_order() {
    let request = vec![vec![], vec![vec![item(3)], vec![], vec![item(1), item(2)]], vec![vec![item(4)]]];
    let flat: Vec<u8> = flatten(&request).iter().map(|i| i.message[0]).collect();
    assert_eq!(flat, vec![3, 1, 2, 4]);
    assert!(flatten(&vec![]).is_empty());
}

#[test]
fn responses() {
    let text = OtelReceiver::string_response(404, "n\u{e9}");
    assert_eq!((text.status, text.content_type), (404, None));
    assert_eq!(text.body, vec![b'n', 0xc3, 0xa9]);
    let message = OtelReceiver::message_response(vec![8, 1]);
    assert_eq!(message.status, 200);
    assert_eq!(message.content_type.as_deref(), Some("application/x-protobuf"));
    assert_eq!(message.body, vec![8, 1]);
}
