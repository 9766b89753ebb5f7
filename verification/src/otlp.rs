//! OTLP over HTTP with protobuf bodies: the three signals, and the messages that carry them.
use opentelemetry_proto::tonic::collector::logs::v1::{
    ExportLogsServiceRequest, ExportLogsServiceResponse,
};
use opentelemetry_proto::tonic::collector::metrics::v1::{
    ExportMetricsServiceRequest, ExportMetricsServiceResponse,
};
use opentelemetry_proto::tonic::collector::trace::v1::{
    ExportTraceServiceRequest, ExportTraceServiceResponse,
};
use prost::Message;
use vstd::prelude::*;

use crate::item::{
    flat, law_items_are_listed_in_order, ExportRequest, ExportRequestView, Item, ItemView,
};

verus! {

/// The media type of a protobuf body.
pub const PROTOBUF: &'static str = "application/x-protobuf";

/// A kind of telemetry.
#[derive(Clone, Copy, Debug, PartialEq, Eq, Structural)]
pub enum Signal {
    Traces,
    Logs,
    Metrics,
}

/// The items of the `ExportTraceServiceRequest` that the bytes encode, or `None` where the bytes
/// encode no such request.
pub uninterp spec fn decoded_traces(body: Seq<u8>) -> Option<ExportRequestView>;

/// The items of the `ExportLogsServiceRequest` that the bytes encode, or `None` where the bytes
/// encode no such request.
pub uninterp spec fn decoded_logs(body: Seq<u8>) -> Option<ExportRequestView>;

/// The items of the `ExportMetricsServiceRequest` that the bytes encode, or `None` where the bytes
/// encode no such request.
pub uninterp spec fn decoded_metrics(body: Seq<u8>) -> Option<ExportRequestView>;

/// The items of the export request for a signal that the bytes encode, if they encode one.
pub open spec fn decoded(signal: Signal, body: Seq<u8>) -> Option<ExportRequestView> {
    match signal {
        Signal::Traces => decoded_traces(body),
        Signal::Logs => decoded_logs(body),
        Signal::Metrics => decoded_metrics(body),
    }
}

/// The JSON form of an item, where it has one, takes a single line.
pub open spec fn one_line(item: ItemView) -> bool {
    item.json matches Ok(text) ==> !text.contains('\n')
}

/// The JSON form of each item of a request takes a single line.
pub open spec fn one_line_each(request: ExportRequestView) -> bool {
    forall|i: int| 0 <= i < flat(request).len() ==> one_line(#[trigger] flat(request)[i])
}

/// Calls `prost::Message::decode` for `opentelemetry_proto`'s `ExportTraceServiceRequest`, and
/// hands each `Span` of the request out in plain form: its own encoding, as
/// `prost::Message::encode_to_vec` gives it, and its JSON text, as `serde_json::to_string` gives
/// it. Trusted: all of that depends on the bytes alone, and the compact JSON of `serde_json`
/// holds no line feed, since it writes no space between tokens and escapes control characters.
#[verifier::external_body]
pub(crate) fn decode_traces(body: &[u8]) -> (request: Option<ExportRequest>)
    ensures
        request.deep_view() == decoded_traces(body@),
        request matches Some(r) ==> one_line_each(r.deep_view()),
{
    let request = ExportTraceServiceRequest::decode(body).ok()?;
    let item = |span: &opentelemetry_proto::tonic::trace::v1::Span| Item {
        message: span.encode_to_vec(),
        json: serde_json::to_string(span).map_err(|e| e.to_string()),
    };
    let groups = request.resource_spans.iter().map(|resource| {
        resource.scope_spans.iter().map(|scope| scope.spans.iter().map(item).collect()).collect()
    });
    Some(groups.collect())
}

/// Calls `prost::Message::decode` for `opentelemetry_proto`'s `ExportLogsServiceRequest`, and
/// hands each `LogRecord` of the request out in plain form, as [`decode_traces`] does each span.
#[verifier::external_body]
pub(crate) fn decode_logs(body: &[u8]) -> (request: Option<ExportRequest>)
    ensures
        request.deep_view() == decoded_logs(body@),
        request matches Some(r) ==> one_line_each(r.deep_view()),
{
    let request = ExportLogsServiceRequest::decode(body).ok()?;
    let item = |record: &opentelemetry_proto::tonic::logs::v1::LogRecord| Item {
        message: record.encode_to_vec(),
        json: serde_json::to_string(record).map_err(|e| e.to_string()),
    };
    let groups = request.resource_logs.iter().map(|resource| {
        resource.scope_logs.iter().map(|s| s.log_records.iter().map(item).collect()).collect()
    });
    Some(groups.collect())
}

/// Calls `prost::Message::decode` for `opentelemetry_proto`'s `ExportMetricsServiceRequest`, and
/// hands each `Metric` of the request out in plain form, as [`decode_traces`] does each span.
#[verifier::external_body]
pub(crate) fn decode_metrics(body: &[u8]) -> (request: Option<ExportRequest>)
    ensures
        request.deep_view() == decoded_metrics(body@),
        request matches Some(r) ==> one_line_each(r.deep_view()),
{
    let request = ExportMetricsServiceRequest::decode(body).ok()?;
    let item = |metric: &opentelemetry_proto::tonic::metrics::v1::Metric| Item {
        message: metric.encode_to_vec(),
        json: serde_json::to_string(metric).map_err(|e| e.to_string()),
    };
    let groups = request.resource_metrics.iter().map(|resource| {
        resource.scope_metrics.iter().map(|s| s.metrics.iter().map(item).collect()).collect()
    });
    Some(groups.collect())
}

/// Calls `prost::Message::encode_to_vec` on the default `ExportTraceServiceResponse` of
/// `opentelemetry_proto`. Trusted: its one field is unset, so nothing is written.
#[verifier::external_body]
pub(crate) fn encode_traces_response() -> (body: Vec<u8>)
    ensures
        body@ == Seq::<u8>::empty(),
{
    ExportTraceServiceResponse::default().encode_to_vec()
}

/// Calls `prost::Message::encode_to_vec` on the default `ExportLogsServiceResponse` of
/// `opentelemetry_proto`. Trusted: its one field is unset, so nothing is written.
#[verifier::external_body]
pub(crate) fn encode_logs_response() -> (body: Vec<u8>)
    ensures
        body@ == Seq::<u8>::empty(),
{
    ExportLogsServiceResponse::default().encode_to_vec()
}

/// Calls `prost::Message::encode_to_vec` on the default `ExportMetricsServiceResponse` of
/// `opentelemetry_proto`. Trusted: its one field is unset, so nothing is written.
#[verifier::external_body]
pub(crate) fn encode_metrics_response() -> (body: Vec<u8>)
    ensures
        body@ == Seq::<u8>::empty(),
{
    ExportMetricsServiceResponse::default().encode_to_vec()
}

/// Each signal has its own kind of request, and the bytes alone say what one holds: whatever bytes
/// encode a request of that kind are taken for it, and no others.
pub proof fn law_each_signal_has_its_requests(body: Seq<u8>)
    ensures
        decoded(Signal::Traces, body) == decoded_traces(body),
        decoded(Signal::Logs, body) == decoded_logs(body),
        decoded(Signal::Metrics, body) == decoded_metrics(body),
{
}

/// An item that takes a single line has no line feed anywhere in its JSON form.
pub proof fn law_single_lines_have_no_line_feed(item: ItemView, text: Seq<char>, i: int)
    requires
        one_line(item),
        item.json == Ok::<Seq<char>, Seq<char>>(text),
        0 <= i < text.len(),
    ensures
        text[i] != '\n',
{
    assert(text[i] == '\n' ==> text.contains('\n'));
}

/// Where the items of a request take single lines, each of them does, wherever it stands.
pub proof fn law_every_item_of_a_request_takes_one_line(
    request: ExportRequestView,
    r: int,
    s: int,
    i: int,
)
    requires
        one_line_each(request),
        0 <= r < request.len(),
        0 <= s < request[r].len(),
        0 <= i < request[r][s].len(),
    ensures
        request[r][s][i].json matches Ok(text) ==> !text.contains('\n'),
{
    law_items_are_listed_in_order(request, r, s, i);
    assert(one_line(request[r][s][i]));
}

} // verus!
