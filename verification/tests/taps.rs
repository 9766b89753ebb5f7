use opentelemetry_proto::tonic::collector::metrics::v1::ExportMetricsServiceRequest;
use opentelemetry_proto::tonic::collector::trace::v1::ExportTraceServiceRequest;
use opentelemetry_proto::tonic::metrics::v1::metric::Data;
use opentelemetry_proto::tonic::metrics::v1::{
    Metric, ResourceMetrics, ScopeMetrics, Summary, SummaryDataPoint,
};
use opentelemetry_proto::tonic::trace::v1::{ResourceSpans, ScopeSpans, Span};
use oteltap::channel::{fan_out, Channel};
use oteltap::ffi_functions::{
    c_style_string_to_rust_string, finish_start, oteltap_poll_log, oteltap_poll_metric,
    oteltap_poll_trace, oteltap_start_receiving_http_protobuf, oteltap_stop_receiving, Launch,
    PollStep, Registry, StartStep, StopReply, StopStep,
};
use oteltap::ffi_functions_flags::{
    has_flag, listen_host, OTELTAP_LISTEN_ON_ALL_INTERFACES, OTELTAP_PRINT_LOGS_AS_NDJSON,
    OTELTAP_PRINT_METRICS_AS_NDJSON, OTELTAP_PRINT_TRACES_AS_NDJSON,
};
use oteltap::item::Item;
use oteltap::otel_receiver::Conditions;
use oteltap::otlp::Signal;
use oteltap::printer::{print_line, print_receiver, OutputLine};
use prost::Message;

fn ready() -> Conditions {
    Conditions {
        traces_client: true,
        logs_client: true,
        metrics_client: true,
        in_async_context: false,
    }
}

fn launch(registry: &mut Registry, flags: u32, traces_to: Option<&[u8]>) -> Launch {
    match oteltap_start_receiving_http_protobuf(
        registry, 4318, flags, traces_to, None, None, true, ready(),
    ) {
        StartStep::Proceed(launch) => launch,
        StartStep::Refused { code } => panic!("refused: {code}"),
    }
}

fn running(registry: &mut Registry, flags: u32) -> u64 {
    let launch = launch(registry, flags, None);
    let reply = finish_start(registry, launch, true);
    assert_eq!(reply.code, 0);
    reply.handle.unwrap()
}

fn refusal(step: StartStep) -> i32 {
    match step {
        StartStep::Refused { code } => code,
        StartStep::Proceed(_) => panic!("not refused"),
    }
}

fn done(step: PollStep) -> (i32, Option<usize>) {
    match step {
        PollStep::Done { code, len } => (code, len),
        PollStep::Wait { remaining_ms } => panic!("waits for {remaining_ms}"),
        PollStep::Queue { remaining_ms } => panic!("queues up for {remaining_ms}"),
    }
}

fn stopped(step: StopStep) -> StopReply {
    match step {
        StopStep::Done(reply) => reply,
        StopStep::Wait => panic!("waits"),
    }
}

fn stop(registry: &mut Registry, handle: u64) -> StopReply {
    stopped(oteltap_stop_receiving(registry, handle, false))
}

fn span(name: &str) -> Span {
    Span { name: name.to_string(), ..Default::default() }
}

fn traces(spans: Vec<Span>) -> Vec<u8> {
    ExportTraceServiceRequest {
        resource_spans: vec![ResourceSpans {
            scope_spans: vec![ScopeSpans { spans, ..Default::default() }],
            ..Default::default()
        }],
    }
    .encode_to_vec()
}

fn post(registry: &mut Registry, handle: u64, spans: Vec<Span>) {
    let handled = registry.handle(handle, "POST", "/v1/traces", Some(traces(spans))).unwrap();
    assert_eq!(handled.response.status, 200);
}

#[test]
fn flags_are_bits_of_their_own() {
    assert_eq!(OTELTAP_PRINT_TRACES_AS_NDJSON, 1);
    assert_eq!(OTELTAP_PRINT_LOGS_AS_NDJSON, 2);
    assert_eq!(OTELTAP_PRINT_METRICS_AS_NDJSON, 4);
    assert_eq!(OTELTAP_LISTEN_ON_ALL_INTERFACES, 256);
    let both = OTELTAP_PRINT_TRACES_AS_NDJSON | OTELTAP_PRINT_METRICS_AS_NDJSON;
    assert!(has_flag(both, OTELTAP_PRINT_TRACES_AS_NDJSON));
    assert!(!has_flag(both, OTELTAP_PRINT_LOGS_AS_NDJSON));
    assert!(has_flag(both, OTELTAP_PRINT_METRICS_AS_NDJSON));
}

#[test]
fn the_address_depends_on_one_flag() {
    assert_eq!(listen_host(0), [127, 0, 0, 1]);
    assert_eq!(listen_host(7), [127, 0, 0, 1]);
    assert_eq!(listen_host(OTELTAP_LISTEN_ON_ALL_INTERFACES), [0, 0, 0, 0]);
    assert_eq!(listen_host(u32::MAX), [0, 0, 0, 0]);
    assert_eq!(listen_host(!OTELTAP_LISTEN_ON_ALL_INTERFACES), [127, 0, 0, 1]);
    let mut registry = Registry::new();
    let local = launch(&mut registry, 0, None);
    assert_eq!((local.receiver().host, local.receiver().port), ([127, 0, 0, 1], 4318));
    let all = launch(&mut registry, 256 | 1, None);
    assert_eq!(all.receiver().host, [0, 0, 0, 0]);
}

#[test]
fn flags_choose_what_is_printed() {
    let mut registry = Registry::new();
    let l = launch(&mut registry, OTELTAP_PRINT_LOGS_AS_NDJSON, None);
    assert_eq!(l.receiver().traces.senders.len(), 1);
    assert_eq!(l.receiver().logs.senders.len(), 2);
    assert_eq!(l.receiver().metrics.senders.len(), 1);
    let l = launch(&mut registry, 5 | 1 << 20, None);
    assert_eq!(l.receiver().traces.senders.len(), 2);
    assert_eq!(l.receiver().logs.senders.len(), 1);
    assert_eq!(l.receiver().metrics.senders.len(), 2);
}

#[test]
fn c_strings() {
    assert_eq!(c_style_string_to_rust_string(None), Ok(None));
    assert_eq!(c_style_string_to_rust_string(Some(b"")), Ok(Some(String::new())));
    assert_eq!(c_style_string_to_rust_string(Some("h\u{e9}".as_bytes())), Ok(Some("h\u{e9}".to_string())));
    assert_eq!(c_style_string_to_rust_string(Some(&[0xff])), Err(-3));
    assert_eq!(c_style_string_to_rust_string(Some(&[b'a', 0xc3])), Err(-3));
}

#[test]
fn invalid_arguments_set_no_handle_aside() {
    let mut registry = Registry::new();
    let bad: &[u8] = &[0x80];
    let good: &[u8] = b"http://localhost/";
    for (t, l, m, out) in [
        (None, None, None, false),
        (Some(bad), None, None, true),
        (None, Some(bad), None, true),
        (Some(good), None, Some(bad), true),
    ] {
        let step =
            oteltap_start_receiving_http_protobuf(&mut registry, 1, 0, t, l, m, out, ready());
        assert_eq!(refusal(step), -3);
    }
    assert_eq!(launch(&mut registry, 0, None).handle(), 1);
}

#[test]
fn failed_starts_leave_no_tap() {
    let mut registry = Registry::new();
    let bad: Option<&[u8]> = Some(b"not a url");
    let step = oteltap_start_receiving_http_protobuf(
        &mut registry, 1, 0, None, bad, None, true, ready(),
    );
    assert_eq!(refusal(step), -1);
    let in_async = Conditions { in_async_context: true, ..ready() };
    let step = oteltap_start_receiving_http_protobuf(
        &mut registry, 1, 0, None, None, None, true, in_async,
    );
    assert_eq!(refusal(step), -1);
    let no_client = Conditions { traces_client: false, ..ready() };
    let step = oteltap_start_receiving_http_protobuf(
        &mut registry, 1, 0, Some(b"http://x"), None, None, true, no_client,
    );
    assert_eq!(refusal(step), -1);
    let unlucky = launch(&mut registry, 0, None);
    assert_eq!(unlucky.handle(), 4);
    let reply = finish_start(&mut registry, unlucky, false);
    assert_eq!((reply.code, reply.handle), (-1, None));
    for handle in 0..6 {
        assert_eq!(stop(&mut registry, handle).code, -2);
    }
    assert_eq!(running(&mut registry, 0), 5);
}

#[test]
fn handles_are_not_reused() {
    let mut registry = Registry::new();
    let first = running(&mut registry, 0);
    assert_eq!(first, 1);
    assert_eq!(stop(&mut registry, first).code, 0);
    let second = running(&mut registry, 0);
    let third = running(&mut registry, 0);
    assert_eq!((second, third), (2, 3));
}

#[test]
fn polls_return_what_was_posted() {
    let mut registry = Registry::new();
    let h = running(&mut registry, 0);
    let spans = vec![span("a"), span("bb"), span("ccc")];
    post(&mut registry, h, spans.clone());
    post(&mut registry, h, vec![span("d")]);
    for expected in spans.iter().chain([&span("d")]) {
        let message = expected.encode_to_vec();
        let step = oteltap_poll_trace(&mut registry, h, 0, 0, false, true);
        assert_eq!(done(step), (0, Some(message.len())));
        assert_eq!(registry.buffer(Signal::Traces, h), Some(&message));
    }
    assert_eq!(done(oteltap_poll_trace(&mut registry, h, 0, 0, false, true)), (0, None));
    assert_eq!(done(oteltap_poll_log(&mut registry, h, 0, 0, false, true)), (0, None));
    assert_eq!(done(oteltap_poll_metric(&mut registry, h, 0, 0, false, true)), (0, None));
}

#[test]
fn polls_wait_for_their_time() {
    let mut registry = Registry::new();
    let h = running(&mut registry, 0);
    let step = oteltap_poll_trace(&mut registry, h, 100, 0, false, true);
    assert!(matches!(step, PollStep::Wait { remaining_ms: 100 }));
    let step = oteltap_poll_trace(&mut registry, h, 100, 99, true, true);
    assert!(matches!(step, PollStep::Wait { remaining_ms: 1 }));
    assert_eq!(done(oteltap_poll_trace(&mut registry, h, 100, 100, true, true)), (0, None));
    assert_eq!(done(oteltap_poll_trace(&mut registry, h, 100, u64::MAX, true, true)), (0, None));
    let step = oteltap_poll_log(&mut registry, h, u64::MAX, 0, false, true);
    assert!(matches!(step, PollStep::Wait { remaining_ms: u64::MAX }));
    // An item that comes while a poll waits ends it, even after its time.
    post(&mut registry, h, vec![span("late")]);
    let len = span("late").encode_to_vec().len();
    assert_eq!(done(oteltap_poll_trace(&mut registry, h, 100, 200, true, true)), (0, Some(len)));
}

#[test]
fn polls_without_outputs_take_nothing() {
    let mut registry = Registry::new();
    let h = running(&mut registry, 0);
    post(&mut registry, h, vec![span("a")]);
    assert_eq!(done(oteltap_poll_trace(&mut registry, h, 5, 0, false, false)), (-3, None));
    assert_eq!(done(oteltap_poll_trace(&mut registry, 77, 5, 0, false, false)), (-3, None));
    assert_eq!(done(oteltap_poll_trace(&mut registry, 77, 5, 0, false, true)), (-2, None));
    assert_eq!(done(oteltap_poll_trace(&mut registry, h, 5, 0, false, true)).1, Some(3));
}

#[test]
fn lent_messages_stay_until_the_next_item() {
    let mut registry = Registry::new();
    let h = running(&mut registry, 0);
    assert_eq!(registry.buffer(Signal::Traces, h), None);
    post(&mut registry, h, vec![span("first")]);
    oteltap_poll_trace(&mut registry, h, 0, 0, false, true);
    let first = span("first").encode_to_vec();
    let address = registry.buffer(Signal::Traces, h).unwrap().as_ptr();
    oteltap_poll_trace(&mut registry, h, 0, 0, false, true);
    oteltap_poll_log(&mut registry, h, 0, 0, false, true);
    post(&mut registry, h, vec![span("second")]);
    let other = running(&mut registry, 0);
    stop(&mut registry, other);
    assert_eq!(registry.buffer(Signal::Traces, h), Some(&first));
    assert_eq!(registry.buffer(Signal::Traces, h).unwrap().as_ptr(), address);
    assert_eq!(registry.buffer(Signal::Logs, h), None);
    oteltap_poll_trace(&mut registry, h, 0, 0, false, true);
    assert_eq!(registry.buffer(Signal::Traces, h), Some(&span("second").encode_to_vec()));
    stop(&mut registry, h);
    assert_eq!(registry.buffer(Signal::Traces, h), None);
}

#[test]
fn taps_are_independent() {
    let mut registry = Registry::new();
    let a = running(&mut registry, 0);
    let b = running(&mut registry, 0);
    post(&mut registry, a, vec![span("for a")]);
    assert_eq!(done(oteltap_poll_trace(&mut registry, b, 0, 0, false, true)), (0, None));
    assert_eq!(stop(&mut registry, b).code, 0);
    assert!(done(oteltap_poll_trace(&mut registry, a, 0, 0, false, true)).1.is_some());
    assert!(registry.handle(b, "POST", "/v1/traces", Some(vec![])).is_none());
    assert!(registry.print(Signal::Traces, b).is_none());
}

#[test]
fn stopping_is_final() {
    let mut registry = Registry::new();
    let h = running(&mut registry, 0);
    post(&mut registry, h, vec![span("a")]);
    let reply = stop(&mut registry, h);
    assert_eq!(reply.code, 0);
    assert!(reply.traces.is_empty() && reply.logs.is_empty() && reply.metrics.is_empty());
    assert_eq!(stop(&mut registry, h).code, -2);
    assert_eq!(done(oteltap_poll_trace(&mut registry, h, 9, 0, false, true)), (-2, None));
    assert_eq!(stopped(oteltap_stop_receiving(&mut registry, h, true)).code, -2);
}

#[test]
fn a_waiting_poll_gets_the_item_that_came_before_a_stop() {
    let mut registry = Registry::new();
    let h = running(&mut registry, OTELTAP_PRINT_TRACES_AS_NDJSON);
    let step = oteltap_poll_trace(&mut registry, h, 100, 0, false, true);
    assert!(matches!(step, PollStep::Wait { remaining_ms: 100 }));
    post(&mut registry, h, vec![span("first"), span("second")]);
    assert!(matches!(oteltap_stop_receiving(&mut registry, h, false), StopStep::Wait));
    // From now on the tap takes no requests, and another stop finds nothing.
    assert!(registry.handle(h, "POST", "/v1/traces", Some(traces(vec![span("late")]))).is_none());
    assert_eq!(stop(&mut registry, h).code, -2);
    assert!(matches!(oteltap_stop_receiving(&mut registry, h, true), StopStep::Wait));
    let message = span("first").encode_to_vec();
    let step = oteltap_poll_trace(&mut registry, h, 100, 1, true, true);
    assert_eq!(done(step), (0, Some(message.len())));
    assert_eq!(registry.buffer(Signal::Traces, h), Some(&message));
    let reply = stopped(oteltap_stop_receiving(&mut registry, h, true));
    assert_eq!(reply.code, 0);
    let lines: Vec<&str> = reply.traces.iter().map(stdout).collect();
    assert_eq!(
        lines,
        vec![
            serde_json::to_string(&span("first")).unwrap(),
            serde_json::to_string(&span("second")).unwrap()
        ]
    );
    assert_eq!(registry.buffer(Signal::Traces, h), None);
    assert_eq!(done(oteltap_poll_trace(&mut registry, h, 0, 0, false, true)), (-2, None));
}

#[test]
fn a_stop_ends_polls_that_wait_for_nothing() {
    let mut registry = Registry::new();
    let h = running(&mut registry, 0);
    let other = running(&mut registry, 0);
    oteltap_poll_trace(&mut registry, h, 100, 0, false, true);
    oteltap_poll_metric(&mut registry, h, u64::MAX, 0, false, true);
    oteltap_poll_log(&mut registry, other, 100, 0, false, true);
    assert!(matches!(oteltap_stop_receiving(&mut registry, h, false), StopStep::Wait));
    assert_eq!(done(oteltap_poll_metric(&mut registry, h, u64::MAX, 1, true, true)), (0, None));
    assert!(matches!(oteltap_stop_receiving(&mut registry, h, true), StopStep::Wait));
    assert_eq!(done(oteltap_poll_trace(&mut registry, h, 100, 1, true, true)), (0, None));
    // A poll that comes while the tap is being stopped does not wait.
    assert_eq!(done(oteltap_poll_log(&mut registry, h, 100, 0, false, true)), (0, None));
    assert_eq!(stopped(oteltap_stop_receiving(&mut registry, h, true)).code, 0);
    let step = oteltap_poll_log(&mut registry, other, 100, 40, true, true);
    assert!(matches!(step, PollStep::Wait { remaining_ms: 60 }));
}

#[test]
fn polls_of_a_signal_take_turns() {
    let mut registry = Registry::new();
    let h = running(&mut registry, 0);
    oteltap_poll_trace(&mut registry, h, 100, 0, false, true);
    let step = oteltap_poll_trace(&mut registry, h, 50, 20, false, true);
    assert!(matches!(step, PollStep::Queue { remaining_ms: 30 }));
    post(&mut registry, h, vec![span("for the first"), span("for another")]);
    // The item is for the poll that waits, and other signals are not held up.
    let step = oteltap_poll_trace(&mut registry, h, 50, 49, false, true);
    assert!(matches!(step, PollStep::Queue { remaining_ms: 1 }));
    // A poll blocks no longer than its time, though it never got its turn.
    assert_eq!(done(oteltap_poll_trace(&mut registry, h, 50, 50, false, true)), (0, None));
    assert_eq!(done(oteltap_poll_trace(&mut registry, h, 0, 0, false, true)), (0, None));
    assert_eq!(done(oteltap_poll_log(&mut registry, h, 0, 0, false, true)), (0, None));
    for name in ["for the first", "for another"] {
        let message = span(name).encode_to_vec();
        let resumed = name == "for the first";
        let step = oteltap_poll_trace(&mut registry, h, 100, 0, resumed, true);
        assert_eq!(done(step), (0, Some(message.len())));
        assert_eq!(registry.buffer(Signal::Traces, h), Some(&message));
    }
    assert_eq!(stop(&mut registry, h).code, 0);
}

fn stdout(line: &OutputLine) -> &str {
    match line {
        OutputLine::Stdout(text) => text,
        OutputLine::Stderr(text) => panic!("{text}"),
    }
}

#[test]
fn what_is_printed_is_what_is_polled() {
    let mut registry = Registry::new();
    let h = running(&mut registry, OTELTAP_PRINT_TRACES_AS_NDJSON);
    let spans = vec![span("one\ntwo \"quoted\""), span("three")];
    post(&mut registry, h, spans.clone());
    let lines = registry.print(Signal::Traces, h).unwrap();
    assert_eq!(lines.len(), 2);
    for (line, span) in lines.iter().zip(&spans) {
        assert_eq!(stdout(line), serde_json::to_string(span).unwrap());
        assert!(!stdout(line).contains('\n'));
        assert!(stdout(line).starts_with('{'));
    }
    assert!(registry.print(Signal::Traces, h).unwrap().is_empty());
    assert!(registry.print(Signal::Logs, h).unwrap().is_empty());
    for span in &spans {
        oteltap_poll_trace(&mut registry, h, 0, 0, false, true);
        assert_eq!(registry.buffer(Signal::Traces, h), Some(&span.encode_to_vec()));
    }
}

#[test]
fn stopping_hands_out_the_lines_that_are_left() {
    let mut registry = Registry::new();
    let h = running(&mut registry, OTELTAP_PRINT_TRACES_AS_NDJSON);
    post(&mut registry, h, vec![span("a")]);
    registry.print(Signal::Traces, h);
    post(&mut registry, h, vec![span("b"), span("c")]);
    let reply = stop(&mut registry, h);
    let lines: Vec<&str> = reply.traces.iter().map(stdout).collect();
    assert_eq!(
        lines,
        vec![
            serde_json::to_string(&span("b")).unwrap(),
            serde_json::to_string(&span("c")).unwrap()
        ]
    );
    assert!(reply.logs.is_empty() && reply.metrics.is_empty());
}

#[test]
fn metrics_print_as_they_were_received() {
    let metric = Metric {
        name: "latency".to_string(),
        data: Some(Data::Summary(Summary {
            data_points: vec![SummaryDataPoint { count: 1, sum: -0.0, ..Default::default() }],
        })),
        ..Default::default()
    };
    // The encoding leaves a sum of minus zero out, so the request is written by hand.
    let point: Vec<u8> = {
        let mut bytes = metric_point_without_sum();
        bytes.push(0x29);
        bytes.extend_from_slice(&(-0.0f64).to_le_bytes());
        bytes
    };
    let summary = field(1, &point);
    let mut message = field(1, b"latency");
    message.extend_from_slice(&field(11, &summary));
    let body = field(1, &field(2, &field(2, &message)));
    let decoded = ExportMetricsServiceRequest::decode(body.as_slice()).unwrap();
    let expected = ExportMetricsServiceRequest {
        resource_metrics: vec![ResourceMetrics {
            scope_metrics: vec![ScopeMetrics {
                metrics: vec![metric.clone()],
                ..Default::default()
            }],
            ..Default::default()
        }],
    };
    assert_eq!(decoded, expected);
    let mut registry = Registry::new();
    let h = running(&mut registry, OTELTAP_PRINT_METRICS_AS_NDJSON);
    registry.handle(h, "POST", "/v1/metrics", Some(body)).unwrap();
    let lines = registry.print(Signal::Metrics, h).unwrap();
    assert_eq!(lines.len(), 1);
    assert_eq!(stdout(&lines[0]), serde_json::to_string(&metric).unwrap());
    assert!(stdout(&lines[0]).contains("-0.0"));
    oteltap_poll_metric(&mut registry, h, 0, 0, false, true);
    assert_eq!(registry.buffer(Signal::Metrics, h), Some(&metric.encode_to_vec()));
}

fn field(tag: u8, bytes: &[u8]) -> Vec<u8> {
    let mut out = vec![tag << 3 | 2, bytes.len() as u8];
    out.extend_from_slice(bytes);
    out
}

fn metric_point_without_sum() -> Vec<u8> {
    SummaryDataPoint { count: 1, ..Default::default() }.encode_to_vec()
}

#[test]
fn items_without_json_are_reported() {
    let item = Item { message: vec![1], json: Err("key must be a string".to_string()) };
    match print_line(item) {
        OutputLine::Stderr(text) => {
            assert_eq!(text, "Failed to serialize span to JSON: key must be a string")
        }
        OutputLine::Stdout(text) => panic!("{text}"),
    }
}

#[test]
fn channels_are_queues() {
    let item = |n: u8| Item { message: vec![n], json: Ok(n.to_string()) };
    let mut channel = Channel::new();
    assert!(channel.recv().is_none());
    channel.send(item(1));
    channel.send(item(2));
    assert_eq!(channel.recv().unwrap().message, vec![1]);
    channel.send(item(3));
    assert_eq!(channel.recv().unwrap().message, vec![2]);
    let lines = print_receiver(&mut channel);
    assert_eq!(lines.len(), 1);
    assert_eq!(stdout(&lines[0]), "3");
    assert!(channel.recv().is_none());
    let (a, b) = (item(8), item(9));
    let mut senders = vec![Channel::new(), channel];
    fan_out(&vec![&a, &b], &mut senders);
    for sender in &mut senders {
        assert_eq!(sender.recv().unwrap().message, vec![8]);
        assert_eq!(sender.recv().unwrap().json, Ok("9".to_string()));
        assert!(sender.recv().is_none());
    }
    fan_out(&vec![&a], &mut vec![]);
}

#[test]
fn reemission_goes_to_the_endpoint_of_the_tap() {
    let mut registry = Registry::new();
    let l = launch(&mut registry, 0, Some(b"http://localhost:9/v1/traces"));
    let h = finish_start(&mut registry, l, true).handle.unwrap();
    let body = traces(vec![span("a")]);
    let handled = registry.handle(h, "POST", "/v1/traces", Some(body.clone())).unwrap();
    let out = handled.reemission.unwrap();
    assert_eq!((out.endpoint.as_str(), out.body), ("http://localhost:9/v1/traces", body));
}

#[test]
fn a_launch_knows_what_it_prints() {
    let mut registry = Registry::new();
    let l = launch(&mut registry, OTELTAP_PRINT_TRACES_AS_NDJSON | OTELTAP_PRINT_LOGS_AS_NDJSON, None);
    assert!(l.prints(Signal::Traces));
    assert!(l.prints(Signal::Logs));
    assert!(!l.prints(Signal::Metrics));
}

#[test]
fn nothing_is_lost_between_polls_and_posts() {
    let mut registry = Registry::new();
    let h = running(&mut registry, OTELTAP_PRINT_TRACES_AS_NDJSON);
    let mut polled = Vec::new();
    let mut printed = Vec::new();
    for round in 0..5usize {
        post(&mut registry, h, (0..round).map(|i| span(&format!("{round}/{i}"))).collect());
        if done(oteltap_poll_trace(&mut registry, h, 0, 0, false, true)).1.is_some() {
            polled.push(registry.buffer(Signal::Traces, h).unwrap().clone());
        }
        if round % 2 == 0 {
            printed.extend(registry.print(Signal::Traces, h).unwrap());
        }
    }
    while done(oteltap_poll_trace(&mut registry, h, 0, 0, false, true)).1.is_some() {
        polled.push(registry.buffer(Signal::Traces, h).unwrap().clone());
    }
    printed.extend(stop(&mut registry, h).traces);
    let sent: Vec<Span> =
        (0..5usize).flat_map(|r| (0..r).map(move |i| span(&format!("{r}/{i}")))).collect();
    assert_eq!(polled, sent.iter().map(|s| s.encode_to_vec()).collect::<Vec<_>>());
    let lines: Vec<&str> = printed.iter().map(stdout).collect();
    let expected: Vec<String> = sent.iter().map(|s| serde_json::to_string(s).unwrap()).collect();
    assert_eq!(lines, expected);
}
