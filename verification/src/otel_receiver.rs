//! The OTLP receiver: which requests it takes, what becomes of their items, and what it answers.
use vstd::prelude::*;
use vstd::utf8::encode_utf8;

use crate::channel::{all_sent, fan_out, Channel};
use crate::item::{flat, flatten, ExportRequest, ExportRequestView, Item, ItemView};
use crate::otel_reemitter::{
    optional_reemitter_for, reemitter_outcome, OtelReemitter, Reemission, ReemissionView, StartError,
    StartErrorView,
};
use crate::otlp::{
    decode_logs, decode_metrics, decode_traces, decoded, decoded_logs, decoded_metrics,
    decoded_traces, encode_logs_response, encode_metrics_response, encode_traces_response, one_line,
    one_line_each, Signal, PROTOBUF,
};
use crate::printer::{all_printed, print_receiver, OutputLine, OutputLineView};

verus! {

/// The status of the answer to a request that was accepted.
pub const OK: u16 = 200;

/// The status of the answer to a request whose body is of no use.
pub const BAD_REQUEST: u16 = 400;

/// The status of the answer to a request that is about no signal.
pub const NOT_FOUND: u16 = 404;

/// Where traces are posted to.
pub const TRACES_PATH: &'static str = "/v1/traces";

/// Where logs are posted to.
pub const LOGS_PATH: &'static str = "/v1/logs";

/// Where metrics are posted to.
pub const METRICS_PATH: &'static str = "/v1/metrics";

/// The text of the answer to a request that is about no signal.
pub const NOT_FOUND_TEXT: &'static str = "Not Found";

/// The text of the answer to a request whose body could not be read.
pub const UNREADABLE_TEXT: &'static str = "Failed to read request body";

/// The text of the answer to a request whose body is no export request.
pub const UNDECODABLE_TEXT: &'static str = "Failed to decode request body";

/// An answer to an HTTP request.
#[derive(Debug)]
pub struct Response {
    pub status: u16,
    pub content_type: Option<String>,
    pub body: Vec<u8>,
}

/// The value of a [`Response`].
#[verifier::ext_equal]
pub struct ResponseView {
    pub status: u16,
    pub content_type: Option<Seq<char>>,
    pub body: Seq<u8>,
}

impl View for Response {
    type V = ResponseView;

    open spec fn view(&self) -> ResponseView {
        ResponseView {
            status: self.status,
            content_type: match self.content_type {
                Some(text) => Some(text@),
                None => None,
            },
            body: self.body@,
        }
    }
}

/// What a request leads to: the answer, and the request to post elsewhere, if any.
#[derive(Debug)]
pub struct Handled {
    pub response: Response,
    pub reemission: Option<Reemission>,
}

/// The value of a [`Handled`].
#[verifier::ext_equal]
pub struct HandledView {
    pub response: ResponseView,
    pub reemission: Option<ReemissionView>,
}

impl View for Handled {
    type V = HandledView;

    open spec fn view(&self) -> HandledView {
        HandledView {
            response: self.response@,
            reemission: match self.reemission {
                Some(reemission) => Some(reemission@),
                None => None,
            },
        }
    }
}

/// Where the items of one signal go: to every sender and, unchanged, to the re-emitter.
#[derive(Debug)]
pub struct SignalPath {
    pub senders: Vec<Channel>,
    pub reemitter: Option<OtelReemitter>,
}

/// The value of a [`SignalPath`]: what waits in each channel, and the URL to re-emit to.
#[verifier::ext_equal]
pub struct PathView {
    pub senders: Seq<Seq<ItemView>>,
    pub reemit_to: Option<Seq<char>>,
}

impl View for SignalPath {
    type V = PathView;

    open spec fn view(&self) -> PathView {
        PathView {
            senders: self.senders.deep_view(),
            reemit_to: match self.reemitter {
                Some(reemitter) => Some(reemitter@),
                None => None,
            },
        }
    }
}

impl PathView {
    /// The oldest item that waits in a channel.
    pub open spec fn front(self, index: int) -> Option<ItemView> {
        if 0 <= index < self.senders.len() && self.senders[index].len() > 0 {
            Some(self.senders[index][0])
        } else {
            None
        }
    }

    /// The path without the oldest item of a channel.
    pub open spec fn advanced(self, index: int) -> PathView {
        PathView {
            senders: self.senders.update(index, self.senders[index].drop_first()),
            ..self
        }
    }

    /// The path with a channel emptied.
    pub open spec fn drained(self, index: int) -> PathView {
        if 0 <= index < self.senders.len() {
            PathView { senders: self.senders.update(index, Seq::empty()), ..self }
        } else {
            self
        }
    }

    /// The lines to print for what waits in a channel; none where there is no such channel.
    pub open spec fn pending(self, index: int) -> Seq<OutputLineView> {
        if 0 <= index < self.senders.len() {
            all_printed(self.senders[index])
        } else {
            Seq::empty()
        }
    }

    /// What waits in the channels prints as single lines.
    pub open spec fn single_lines(self) -> bool {
        forall|c: int, i: int|
            0 <= c < self.senders.len() && 0 <= i < self.senders[c].len() ==> one_line(
                #[trigger] self.senders[c][i],
            )
    }

    /// The path after an export request: the items of one that was decoded wait in every channel,
    /// behind those that waited there before.
    pub open spec fn exported(self, request: Option<ExportRequestView>) -> PathView {
        match request {
            None => self,
            Some(r) => PathView { senders: all_sent(self.senders, flat(r)), ..self },
        }
    }

    /// What an export request with the given body leads to: one that was decoded is accepted with
    /// the given answer and passed on byte for byte where re-emission is asked for; any other is
    /// refused.
    pub open spec fn export_outcome(
        self,
        body: Seq<u8>,
        request: Option<ExportRequestView>,
        answer: Seq<u8>,
    ) -> HandledView {
        match request {
            None => refused(BAD_REQUEST, UNDECODABLE_TEXT@),
            Some(_) => HandledView {
                response: ResponseView { status: OK, content_type: Some(PROTOBUF@), body: answer },
                reemission: match self.reemit_to {
                    None => None,
                    Some(endpoint) => Some(
                        ReemissionView { endpoint, content_type: PROTOBUF@, body },
                    ),
                },
            },
        }
    }
}

/// Items that print as single lines, sent to channels whose items do, leave them so.
proof fn lemma_export_keeps_single_lines(path: PathView, request: Option<ExportRequestView>)
    requires
        path.single_lines(),
        request matches Some(r) ==> one_line_each(r),
    ensures
        path.exported(request).single_lines(),
{
    if let Some(r) = request {
        let after = path.exported(request);
        assert forall|c: int, i: int|
            0 <= c < after.senders.len() && 0 <= i < after.senders[c].len() implies one_line(
            #[trigger] after.senders[c][i],
        ) by {
            let queue = path.senders[c];
            assert(after.senders[c] == queue + flat(r));
            if i < queue.len() {
                assert(one_line(path.senders[c][i]));
            } else {
                assert(one_line(flat(r)[i - queue.len()]));
            }
        }
    }
}

/// A refusal: an answer in plain text, and nothing else.
pub open spec fn refused(status: u16, text: Seq<char>) -> HandledView {
    HandledView {
        response: ResponseView { status, content_type: None, body: encode_utf8(text) },
        reemission: None,
    }
}

impl SignalPath {
    /// Takes the oldest item out of a channel.
    pub fn receive(&mut self, index: usize) -> (item: Option<Item>)
        ensures
            match item {
                Some(taken) => old(self)@.front(index as int) == Some(taken@) && final(self)@
                    == old(self)@.advanced(index as int),
                None => old(self)@.front(index as int) is None && final(self)@ == old(self)@,
            },
    {
        if index < self.senders.len() {
            let item = self.senders[index].recv();
            proof {
                if item is Some {
                    assert(self@.senders =~= old(self)@.advanced(index as int).senders);
                } else {
                    assert(self@.senders =~= old(self)@.senders);
                }
            }
            item
        } else {
            None
        }
    }

    /// Empties a channel, and makes the lines to print for what waited in it.
    pub fn print(&mut self, index: usize) -> (lines: Vec<OutputLine>)
        ensures
            final(self)@ == old(self)@.drained(index as int),
            lines.deep_view() == old(self)@.pending(index as int),
    {
        if index < self.senders.len() {
            let lines = print_receiver(&mut self.senders[index]);
            assert(self@.senders =~= old(self)@.drained(index as int).senders);
            lines
        } else {
            let lines = Vec::new();
            assert(lines.deep_view() =~= old(self)@.pending(index as int));
            lines
        }
    }

    /// Acts on an export request, given its body and the outcome of decoding it: sends each of its
    /// items to every channel, asks for its re-emission, and accepts it with the given answer.
    pub fn export(
        &mut self,
        body: Vec<u8>,
        request: Option<ExportRequest>,
        answer: Vec<u8>,
    ) -> (handled: Handled)
        ensures
            final(self)@ == old(self)@.exported(request.deep_view()),
            handled@ == old(self)@.export_outcome(body@, request.deep_view(), answer@),
    {
        let request = match request {
            Some(request) => request,
            None => {
                return Handled {
                    response: OtelReceiver::string_response(BAD_REQUEST, UNDECODABLE_TEXT),
                    reemission: None,
                };
            },
        };
        let items = flatten(&request);
        fan_out(&items, &mut self.senders);
        let reemission = match &self.reemitter {
            Some(reemitter) => Some(reemitter.reemit(body)),
            None => None,
        };
        Handled { response: OtelReceiver::message_response(answer), reemission }
    }
}

/// An embedded OTLP receiver: the address that it listens on, and where it sends what it receives.
#[derive(Debug)]
pub struct OtelReceiver {
    pub host: [u8; 4],
    pub port: u16,
    pub traces: SignalPath,
    pub logs: SignalPath,
    pub metrics: SignalPath,
}

/// The value of an [`OtelReceiver`].
#[verifier::ext_equal]
pub struct ReceiverView {
    pub host: Seq<u8>,
    pub port: u16,
    pub traces: PathView,
    pub logs: PathView,
    pub metrics: PathView,
}

impl View for OtelReceiver {
    type V = ReceiverView;

    open spec fn view(&self) -> ReceiverView {
        ReceiverView {
            host: self.host@,
            port: self.port,
            traces: self.traces@,
            logs: self.logs@,
            metrics: self.metrics@,
        }
    }
}

impl ReceiverView {
    /// Where the items of a signal go.
    pub open spec fn path(self, signal: Signal) -> PathView {
        match signal {
            Signal::Traces => self.traces,
            Signal::Logs => self.logs,
            Signal::Metrics => self.metrics,
        }
    }

    /// The receiver with another path for a signal.
    pub open spec fn with_path(self, signal: Signal, path: PathView) -> ReceiverView {
        match signal {
            Signal::Traces => ReceiverView { traces: path, ..self },
            Signal::Logs => ReceiverView { logs: path, ..self },
            Signal::Metrics => ReceiverView { metrics: path, ..self },
        }
    }

    /// All that waits in the channels prints as single lines.
    pub open spec fn single_lines(self) -> bool {
        self.traces.single_lines() && self.logs.single_lines() && self.metrics.single_lines()
    }

    /// The receiver after a request for a signal; the body is `None` where it could not be read.
    pub open spec fn after_export(self, signal: Signal, body: Option<Seq<u8>>) -> ReceiverView {
        match body {
            None => self,
            Some(bytes) => self.with_path(
                signal,
                self.path(signal).exported(decoded(signal, bytes)),
            ),
        }
    }

    /// What a request for a signal leads to.
    pub open spec fn export_outcome(self, signal: Signal, body: Option<Seq<u8>>) -> HandledView {
        match body {
            None => refused(BAD_REQUEST, UNREADABLE_TEXT@),
            Some(bytes) => self.path(signal).export_outcome(
                bytes,
                decoded(signal, bytes),
                Seq::empty(),
            ),
        }
    }

    /// The receiver after a request.
    pub open spec fn after_request(
        self,
        method: Seq<char>,
        path: Seq<char>,
        body: Option<Seq<u8>>,
    ) -> ReceiverView {
        match routed(method, path) {
            None => self,
            Some(signal) => self.after_export(signal, body),
        }
    }

    /// What a request leads to.
    pub open spec fn request_outcome(
        self,
        method: Seq<char>,
        path: Seq<char>,
        body: Option<Seq<u8>>,
    ) -> HandledView {
        match routed(method, path) {
            None => refused(NOT_FOUND, NOT_FOUND_TEXT@),
            Some(signal) => self.export_outcome(signal, body),
        }
    }
}

/// The signal that a request is about: only a `POST` to the path of a signal is about one.
pub open spec fn routed(method: Seq<char>, path: Seq<char>) -> Option<Signal> {
    if method != "POST"@ {
        None
    } else if path == TRACES_PATH@ {
        Some(Signal::Traces)
    } else if path == LOGS_PATH@ {
        Some(Signal::Logs)
    } else if path == METRICS_PATH@ {
        Some(Signal::Metrics)
    } else {
        None
    }
}

/// The value of an optional body.
pub open spec fn body_value(body: Option<Vec<u8>>) -> Option<Seq<u8>> {
    match body {
        Some(bytes) => Some(bytes@),
        None => None,
    }
}

/// Whether two texts are the same.
fn same_text(left: &str, right: &str) -> (same: bool)
    ensures
        same == (left@ == right@),
{
    left.to_owned() == right.to_owned()
}

/// Finds the signal that a request is about. The body of a request that is about none need not be
/// read.
pub fn route(method: &str, path: &str) -> (signal: Option<Signal>)
    ensures
        signal == routed(method@, path@),
{
    if !same_text(method, "POST") {
        None
    } else if same_text(path, TRACES_PATH) {
        Some(Signal::Traces)
    } else if same_text(path, LOGS_PATH) {
        Some(Signal::Logs)
    } else if same_text(path, METRICS_PATH) {
        Some(Signal::Metrics)
    } else {
        None
    }
}

/// The receiver that results from a host, a port, the senders of each signal and the outcomes of
/// building the re-emitters, or why there is none: the first failure counts, in the order traces,
/// logs, metrics, async context.
pub open spec fn assembled(
    host: Seq<u8>,
    port: u16,
    traces_senders: Seq<Seq<ItemView>>,
    logs_senders: Seq<Seq<ItemView>>,
    metrics_senders: Seq<Seq<ItemView>>,
    traces_to: Result<Option<Seq<char>>, StartErrorView>,
    logs_to: Result<Option<Seq<char>>, StartErrorView>,
    metrics_to: Result<Option<Seq<char>>, StartErrorView>,
    in_async_context: bool,
) -> Result<ReceiverView, StartErrorView> {
    match (traces_to, logs_to, metrics_to) {
        (Err(error), _, _) => Err(error),
        (_, Err(error), _) => Err(error),
        (_, _, Err(error)) => Err(error),
        (Ok(t), Ok(l), Ok(m)) => if in_async_context {
            Err(StartErrorView::AsyncContext)
        } else {
            Ok(
                ReceiverView {
                    host,
                    port,
                    traces: PathView { senders: traces_senders, reemit_to: t },
                    logs: PathView { senders: logs_senders, reemit_to: l },
                    metrics: PathView { senders: metrics_senders, reemit_to: m },
                },
            )
        },
    }
}

/// The value of an outcome of starting a receiver.
pub open spec fn receiver_outcome(outcome: Result<OtelReceiver, StartError>) -> Result<
    ReceiverView,
    StartErrorView,
> {
    match outcome {
        Ok(receiver) => Ok(receiver@),
        Err(error) => Err(error@),
    }
}

/// What the process offers when a receiver is started.
#[derive(Clone, Copy, Debug)]
pub struct Conditions {
    /// An HTTP client could be built for re-emitting traces.
    pub traces_client: bool,
    /// An HTTP client could be built for re-emitting logs.
    pub logs_client: bool,
    /// An HTTP client could be built for re-emitting metrics.
    pub metrics_client: bool,
    /// The call comes from within an async context.
    pub in_async_context: bool,
}

/// The value of an optional text.
pub open spec fn text_value(text: Option<&str>) -> Option<Seq<char>> {
    match text {
        Some(t) => Some(t@),
        None => None,
    }
}

/// The address that a receiver listens on unless another is asked for.
pub open spec fn loopback() -> Seq<u8> {
    seq![127u8, 0, 0, 1]
}

impl OtelReceiver {
    /// Settles what a receiver on the loopback interface listens on and sends to, before its socket
    /// is opened.
    pub fn start(
        port: u16,
        traces_senders: Vec<Channel>,
        logs_senders: Vec<Channel>,
        metrics_senders: Vec<Channel>,
        reemit_traces_to: Option<&str>,
        reemit_logs_to: Option<&str>,
        reemit_metrics_to: Option<&str>,
        conditions: Conditions,
    ) -> (receiver: Result<OtelReceiver, StartError>)
        ensures
            receiver_outcome(receiver) == assembled(
                loopback(),
                port,
                traces_senders.deep_view(),
                logs_senders.deep_view(),
                metrics_senders.deep_view(),
                optional_reemitter_for(text_value(reemit_traces_to), conditions.traces_client),
                optional_reemitter_for(text_value(reemit_logs_to), conditions.logs_client),
                optional_reemitter_for(text_value(reemit_metrics_to), conditions.metrics_client),
                conditions.in_async_context,
            ),
    {
        let host: [u8; 4] = [127, 0, 0, 1];
        assert(host@ =~= loopback());
        Self::start_on(
            host,
            port,
            traces_senders,
            logs_senders,
            metrics_senders,
            reemit_traces_to,
            reemit_logs_to,
            reemit_metrics_to,
            conditions,
        )
    }

    /// Settles what a receiver on a given host listens on and sends to, before its socket is opened.
    pub fn start_on(
        host: [u8; 4],
        port: u16,
        traces_senders: Vec<Channel>,
        logs_senders: Vec<Channel>,
        metrics_senders: Vec<Channel>,
        reemit_traces_to: Option<&str>,
        reemit_logs_to: Option<&str>,
        reemit_metrics_to: Option<&str>,
        conditions: Conditions,
    ) -> (receiver: Result<OtelReceiver, StartError>)
        ensures
            receiver_outcome(receiver) == assembled(
                host@,
                port,
                traces_senders.deep_view(),
                logs_senders.deep_view(),
                metrics_senders.deep_view(),
                optional_reemitter_for(text_value(reemit_traces_to), conditions.traces_client),
                optional_reemitter_for(text_value(reemit_logs_to), conditions.logs_client),
                optional_reemitter_for(text_value(reemit_metrics_to), conditions.metrics_client),
                conditions.in_async_context,
            ),
    {
        Self::assemble(
            host,
            port,
            traces_senders,
            logs_senders,
            metrics_senders,
            OtelReemitter::optional(reemit_traces_to, conditions.traces_client),
            OtelReemitter::optional(reemit_logs_to, conditions.logs_client),
            OtelReemitter::optional(reemit_metrics_to, conditions.metrics_client),
            conditions.in_async_context,
        )
    }

    /// Puts a receiver together, given the outcomes of building its re-emitters.
    pub fn assemble(
        host: [u8; 4],
        port: u16,
        traces_senders: Vec<Channel>,
        logs_senders: Vec<Channel>,
        metrics_senders: Vec<Channel>,
        trace_reemitter: Result<Option<OtelReemitter>, StartError>,
        logs_reemitter: Result<Option<OtelReemitter>, StartError>,
        metrics_reemitter: Result<Option<OtelReemitter>, StartError>,
        in_async_context: bool,
    ) -> (receiver: Result<OtelReceiver, StartError>)
        ensures
            receiver_outcome(receiver) == assembled(
                host@,
                port,
                traces_senders.deep_view(),
                logs_senders.deep_view(),
                metrics_senders.deep_view(),
                reemitter_outcome(trace_reemitter),
                reemitter_outcome(logs_reemitter),
                reemitter_outcome(metrics_reemitter),
                in_async_context,
            ),
    {
        let trace_reemitter = match trace_reemitter {
            Ok(reemitter) => reemitter,
            Err(error) => return Err(error),
        };
        let logs_reemitter = match logs_reemitter {
            Ok(reemitter) => reemitter,
            Err(error) => return Err(error),
        };
        let metrics_reemitter = match metrics_reemitter {
            Ok(reemitter) => reemitter,
            Err(error) => return Err(error),
        };
        if in_async_context {
            return Err(StartError::AsyncContext);
        }
        Ok(
            OtelReceiver {
                host,
                port,
                traces: SignalPath { senders: traces_senders, reemitter: trace_reemitter },
                logs: SignalPath { senders: logs_senders, reemitter: logs_reemitter },
                metrics: SignalPath { senders: metrics_senders, reemitter: metrics_reemitter },
            },
        )
    }

    /// Takes the oldest item out of a channel of a signal.
    pub fn receive(&mut self, signal: Signal, index: usize) -> (item: Option<Item>)
        ensures
            match item {
                Some(taken) => old(self)@.path(signal).front(index as int) == Some(taken@)
                    && final(self)@ == old(self)@.with_path(
                    signal,
                    old(self)@.path(signal).advanced(index as int),
                ),
                None => old(self)@.path(signal).front(index as int) is None && final(self)@ == old(
                    self,
                )@,
            },
    {
        match signal {
            Signal::Traces => self.traces.receive(index),
            Signal::Logs => self.logs.receive(index),
            Signal::Metrics => self.metrics.receive(index),
        }
    }

    /// Empties a channel of a signal, and makes the lines to print for what waited in it.
    pub fn print(&mut self, signal: Signal, index: usize) -> (lines: Vec<OutputLine>)
        ensures
            final(self)@ == old(self)@.with_path(
                signal,
                old(self)@.path(signal).drained(index as int),
            ),
            lines.deep_view() == old(self)@.path(signal).pending(index as int),
    {
        match signal {
            Signal::Traces => self.traces.print(index),
            Signal::Logs => self.logs.print(index),
            Signal::Metrics => self.metrics.print(index),
        }
    }

    /// Handles a request; the body is `None` where it could not be read.
    pub fn handle(&mut self, method: &str, path: &str, body: Option<Vec<u8>>) -> (handled: Handled)
        ensures
            final(self)@ == old(self)@.after_request(method@, path@, body_value(body)),
            handled@ == old(self)@.request_outcome(method@, path@, body_value(body)),
            old(self)@.single_lines() ==> final(self)@.single_lines(),
    {
        match route(method, path) {
            Some(Signal::Traces) => self.handle_traces(body),
            Some(Signal::Logs) => self.handle_logs(body),
            Some(Signal::Metrics) => self.handle_metrics(body),
            None => Handled {
                response: Self::string_response(NOT_FOUND, NOT_FOUND_TEXT),
                reemission: None,
            },
        }
    }

    /// Handles a request with traces.
    pub fn handle_traces(&mut self, body: Option<Vec<u8>>) -> (handled: Handled)
        ensures
            final(self)@ == old(self)@.after_export(Signal::Traces, body_value(body)),
            handled@ == old(self)@.export_outcome(Signal::Traces, body_value(body)),
            old(self)@.single_lines() ==> final(self)@.single_lines(),
    {
        let body = match body {
            Some(body) => body,
            None => {
                return Self::unreadable();
            },
        };
        let request = decode_traces(&body);
        proof {
            if self@.single_lines() {
                lemma_export_keeps_single_lines(self@.traces, request.deep_view());
            }
        }
        self.traces.export(body, request, encode_traces_response())
    }

    /// Handles a request with logs.
    pub fn handle_logs(&mut self, body: Option<Vec<u8>>) -> (handled: Handled)
        ensures
            final(self)@ == old(self)@.after_export(Signal::Logs, body_value(body)),
            handled@ == old(self)@.export_outcome(Signal::Logs, body_value(body)),
            old(self)@.single_lines() ==> final(self)@.single_lines(),
    {
        let body = match body {
            Some(body) => body,
            None => {
                return Self::unreadable();
            },
        };
        let request = decode_logs(&body);
        proof {
            if self@.single_lines() {
                lemma_export_keeps_single_lines(self@.logs, request.deep_view());
            }
        }
        self.logs.export(body, request, encode_logs_response())
    }

    /// Handles a request with metrics.
    pub fn handle_metrics(&mut self, body: Option<Vec<u8>>) -> (handled: Handled)
        ensures
            final(self)@ == old(self)@.after_export(Signal::Metrics, body_value(body)),
            handled@ == old(self)@.export_outcome(Signal::Metrics, body_value(body)),
            old(self)@.single_lines() ==> final(self)@.single_lines(),
    {
        let body = match body {
            Some(body) => body,
            None => {
                return Self::unreadable();
            },
        };
        let request = decode_metrics(&body);
        proof {
            if self@.single_lines() {
                lemma_export_keeps_single_lines(self@.metrics, request.deep_view());
            }
        }
        self.metrics.export(body, request, encode_metrics_response())
    }

    /// The refusal of a request whose body could not be read.
    fn unreadable() -> (handled: Handled)
        ensures
            handled@ == refused(BAD_REQUEST, UNREADABLE_TEXT@),
    {
        Handled {
            response: Self::string_response(BAD_REQUEST, UNREADABLE_TEXT),
            reemission: None,
        }
    }

    /// An answer with a protobuf message as its body.
    pub fn message_response(body: Vec<u8>) -> (response: Response)
        ensures
            response@ == (ResponseView {
                status: OK,
                content_type: Some(PROTOBUF@),
                body: body@,
            }),
    {
        Response { status: OK, content_type: Some(PROTOBUF.to_owned()), body }
    }

    /// An answer with a text as its body.
    pub fn string_response(status: u16, body: &str) -> (response: Response)
        ensures
            response@ == (ResponseView { status, content_type: None, body: encode_utf8(body@) }),
    {
        Response { status, content_type: None, body: vstd::slice::slice_to_vec(body.as_bytes()) }
    }
}

/// The values of answers, paths and receivers show their fields as they are.
pub proof fn law_receiver_values_are_complete(
    response: Response,
    handled: Handled,
    path: SignalPath,
    receiver: OtelReceiver,
)
    ensures
        response@.status == response.status,
        response.content_type matches Some(text) ==> response@.content_type == Some(text@),
        response.content_type is None ==> response@.content_type is None,
        response@.body == response.body@,
        handled@.response == handled.response@,
        handled.reemission matches Some(out) ==> handled@.reemission == Some(out@),
        handled.reemission is None ==> handled@.reemission is None,
        path@.senders.len() == path.senders.len(),
        forall|k: int|
            0 <= k < path.senders.len() ==> #[trigger] path@.senders[k] == path.senders[k]@,
        path.reemitter matches Some(reemitter) ==> path@.reemit_to == Some(reemitter@),
        path.reemitter is None ==> path@.reemit_to is None,
        receiver@.host == receiver.host@,
        receiver@.port == receiver.port,
        receiver@.traces == receiver.traces@,
        receiver@.logs == receiver.logs@,
        receiver@.metrics == receiver.metrics@,
{
}

/// Optional bodies and texts stand for what they hold, and an outcome for the receiver or the error
/// that it holds.
pub proof fn law_optional_values_are_complete(
    body: Vec<u8>,
    text: &str,
    outcome: Result<OtelReceiver, StartError>,
)
    ensures
        body_value(Some(body)) == Some(body@),
        body_value(None) is None,
        text_value(Some(text)) == Some(text@),
        text_value(None) is None,
        outcome matches Ok(receiver) ==> receiver_outcome(outcome) == Ok::<
            ReceiverView,
            StartErrorView,
        >(receiver@),
        outcome matches Err(error) ==> receiver_outcome(outcome) == Err::<
            ReceiverView,
            StartErrorView,
        >(error@),
{
}

/// Each signal has a path of its own, and replacing it leaves the rest of a receiver as it is.
pub proof fn law_each_signal_has_its_path(r: ReceiverView, path: PathView)
    ensures
        r.path(Signal::Traces) == r.traces,
        r.path(Signal::Logs) == r.logs,
        r.path(Signal::Metrics) == r.metrics,
        r.with_path(Signal::Traces, path) == (ReceiverView { traces: path, ..r }),
        r.with_path(Signal::Logs, path) == (ReceiverView { logs: path, ..r }),
        r.with_path(Signal::Metrics, path) == (ReceiverView { metrics: path, ..r }),
{
}

/// Channels are first in, first out. The item that is taken is the oldest, and there is one if and
/// only if the channel exists and is not empty. Taking it moves all others up by one. Other channels,
/// and the endpoint, stay as they are.
pub proof fn law_items_are_taken_from_the_front(path: PathView, index: int, k: int, i: int)
    ensures
        path.front(index) is Some <==> 0 <= index < path.senders.len()
            && path.senders[index].len() > 0,
        path.front(index) matches Some(item) ==> {
            let after = path.advanced(index);
            &&& item == path.senders[index][0]
            &&& after.reemit_to == path.reemit_to
            &&& after.senders.len() == path.senders.len()
            &&& after.senders[index].len() + 1 == path.senders[index].len()
            &&& 0 <= i < after.senders[index].len() ==> after.senders[index][i]
                == path.senders[index][i + 1]
            &&& 0 <= k < path.senders.len() && k != index ==> after.senders[k] == path.senders[k]
        },
{
}

/// Printing a channel empties it, and makes a line for each of its items, in order: the JSON form of
/// an item that has one, on the standard output, and the reason why another has none, on the standard
/// error. Other channels, and the endpoint, stay as they are. Where there is no such channel, there
/// is nothing to print and nothing changes.
pub proof fn law_printing_takes_everything(path: PathView, index: int, k: int, i: int)
    ensures
        path.drained(index).reemit_to == path.reemit_to,
        path.drained(index).senders.len() == path.senders.len(),
        0 <= k < path.senders.len() && k != index ==> path.drained(index).senders[k]
            == path.senders[k],
        0 <= index < path.senders.len() ==> {
            let items = path.senders[index];
            let lines = path.pending(index);
            &&& path.drained(index).senders[index].len() == 0
            &&& lines.len() == items.len()
            &&& 0 <= i < items.len() ==> {
                &&& items[i].json matches Ok(text) ==> lines[i] == OutputLineView::Stdout(text)
                &&& items[i].json matches Err(reason) ==> lines[i] == OutputLineView::Stderr(
                    "Failed to serialize span to JSON: "@ + reason,
                )
            }
        },
        !(0 <= index < path.senders.len()) ==> path.drained(index) == path && path.pending(
            index,
        ).len() == 0,
{
}

/// A request is for a signal if and only if it is a `POST` to exactly that signal's path.
pub proof fn law_requests_are_told_apart(method: Seq<char>, path: Seq<char>)
    ensures
        routed(method, path) == Some(Signal::Traces) <==> method == "POST"@ && path
            == "/v1/traces"@,
        routed(method, path) == Some(Signal::Logs) <==> method == "POST"@ && path == "/v1/logs"@,
        routed(method, path) == Some(Signal::Metrics) <==> method == "POST"@ && path
            == "/v1/metrics"@,
{
    reveal_strlit("/v1/traces");
    reveal_strlit("/v1/logs");
    reveal_strlit("/v1/metrics");
    assert("/v1/traces"@.len() == 10 && "/v1/logs"@.len() == 8 && "/v1/metrics"@.len() == 11);
}

/// Acting on a request depends on the outcome of decoding it alone. One that was decoded is accepted
/// with the given answer, all its items are sent to every channel, behind what waits there, and its
/// body is passed on as it is where there is an endpoint. One that was not is refused, and changes
/// nothing.
pub proof fn law_exports(
    path: PathView,
    body: Seq<u8>,
    request: Option<ExportRequestView>,
    answer: Seq<u8>,
)
    ensures
        ({
            let handled = path.export_outcome(body, request, answer);
            let after = path.exported(request);
            &&& request is None ==> {
                &&& after == path
                &&& handled.response.status == 400
                &&& handled.response.content_type is None
                &&& handled.response.body == encode_utf8("Failed to decode request body"@)
                &&& handled.reemission is None
            }
            &&& request matches Some(r) ==> {
                &&& handled.response.status == 200
                &&& handled.response.content_type == Some("application/x-protobuf"@)
                &&& handled.response.body == answer
                &&& handled.reemission is Some <==> path.reemit_to is Some
                &&& handled.reemission matches Some(out) ==> {
                    &&& path.reemit_to == Some(out.endpoint)
                    &&& out.content_type == "application/x-protobuf"@
                    &&& out.body == body
                }
                &&& after.reemit_to == path.reemit_to
                &&& after.senders.len() == path.senders.len()
                &&& forall|k: int|
                    0 <= k < path.senders.len() ==> #[trigger] after.senders[k] == path.senders[k]
                        + flat(r)
            }
        }),
{
}

/// A `POST` to `/v1/traces` is accepted if and only if its body could be read and encodes an
/// `ExportTraceServiceRequest`. Then every trace channel holds what it held before and all items of
/// the request behind that, the answer is an empty protobuf message, and the body goes to the endpoint
/// for traces as it is, if there is one. Otherwise nothing changes, nothing is passed on, and the
/// answer says in plain text what is wrong. The other signals are not touched.
pub proof fn law_trace_requests(r: ReceiverView, body: Option<Seq<u8>>)
    ensures
        ({
            let handled = r.request_outcome("POST"@, "/v1/traces"@, body);
            let after = r.after_request("POST"@, "/v1/traces"@, body);
            &&& r.export_outcome(Signal::Traces, body) == handled
            &&& r.after_export(Signal::Traces, body) == after
            &&& body is None ==> {
                &&& after == r
                &&& handled.response.status == 400
                &&& handled.response.content_type is None
                &&& handled.response.body == encode_utf8("Failed to read request body"@)
                &&& handled.reemission is None
            }
            &&& body matches Some(bytes) ==> (decoded_traces(bytes) is None ==> {
                &&& after == r
                &&& handled.response.status == 400
                &&& handled.response.content_type is None
                &&& handled.response.body == encode_utf8("Failed to decode request body"@)
                &&& handled.reemission is None
            })
            &&& body matches Some(bytes) ==> (decoded_traces(bytes) matches Some(request) ==> {
                &&& handled.response.status == 200
                &&& handled.response.content_type == Some("application/x-protobuf"@)
                &&& handled.response.body.len() == 0
                &&& handled.reemission is Some <==> r.traces.reemit_to is Some
                &&& handled.reemission matches Some(out) ==> {
                    &&& r.traces.reemit_to == Some(out.endpoint)
                    &&& out.content_type == "application/x-protobuf"@
                    &&& out.body == bytes
                }
                &&& after.traces.reemit_to == r.traces.reemit_to
                &&& after.traces.senders.len() == r.traces.senders.len()
                &&& forall|k: int|
                    0 <= k < r.traces.senders.len() ==> #[trigger] after.traces.senders[k]
                        == r.traces.senders[k] + flat(request)
                &&& after.logs == r.logs
                &&& after.metrics == r.metrics
                &&& after.host == r.host
                &&& after.port == r.port
            })
        }),
{
    law_requests_are_told_apart("POST"@, "/v1/traces"@);
}

/// A `POST` to `/v1/logs` is accepted if and only if its body could be read and encodes an
/// `ExportLogsServiceRequest`. Then every log channel holds what it held before and all items of
/// the request behind that, the answer is an empty protobuf message, and the body goes to the endpoint
/// for logs as it is, if there is one. Otherwise nothing changes, nothing is passed on, and the
/// answer says in plain text what is wrong. The other signals are not touched.
pub proof fn law_log_requests(r: ReceiverView, body: Option<Seq<u8>>)
    ensures
        ({
            let handled = r.request_outcome("POST"@, "/v1/logs"@, body);
            let after = r.after_request("POST"@, "/v1/logs"@, body);
            &&& r.export_outcome(Signal::Logs, body) == handled
            &&& r.after_export(Signal::Logs, body) == after
            &&& body is None ==> {
                &&& after == r
                &&& handled.response.status == 400
                &&& handled.response.content_type is None
                &&& handled.response.body == encode_utf8("Failed to read request body"@)
                &&& handled.reemission is None
            }
            &&& body matches Some(bytes) ==> (decoded_logs(bytes) is None ==> {
                &&& after == r
                &&& handled.response.status == 400
                &&& handled.response.content_type is None
                &&& handled.response.body == encode_utf8("Failed to decode request body"@)
                &&& handled.reemission is None
            })
            &&& body matches Some(bytes) ==> (decoded_logs(bytes) matches Some(request) ==> {
                &&& handled.response.status == 200
                &&& handled.response.content_type == Some("application/x-protobuf"@)
                &&& handled.response.body.len() == 0
                &&& handled.reemission is Some <==> r.logs.reemit_to is Some
                &&& handled.reemission matches Some(out) ==> {
                    &&& r.logs.reemit_to == Some(out.endpoint)
                    &&& out.content_type == "application/x-protobuf"@
                    &&& out.body == bytes
                }
                &&& after.logs.reemit_to == r.logs.reemit_to
                &&& after.logs.senders.len() == r.logs.senders.len()
                &&& forall|k: int|
                    0 <= k < r.logs.senders.len() ==> #[trigger] after.logs.senders[k]
                        == r.logs.senders[k] + flat(request)
                &&& after.traces == r.traces
                &&& after.metrics == r.metrics
                &&& after.host == r.host
                &&& after.port == r.port
            })
        }),
{
    law_requests_are_told_apart("POST"@, "/v1/logs"@);
}

/// A `POST` to `/v1/metrics` is accepted if and only if its body could be read and encodes an
/// `ExportMetricsServiceRequest`. Then every metric channel holds what it held before and all items of
/// the request behind that, the answer is an empty protobuf message, and the body goes to the endpoint
/// for metrics as it is, if there is one. Otherwise nothing changes, nothing is passed on, and the
/// answer says in plain text what is wrong. The other signals are not touched.
pub proof fn law_metric_requests(r: ReceiverView, body: Option<Seq<u8>>)
    ensures
        ({
            let handled = r.request_outcome("POST"@, "/v1/metrics"@, body);
            let after = r.after_request("POST"@, "/v1/metrics"@, body);
            &&& r.export_outcome(Signal::Metrics, body) == handled
            &&& r.after_export(Signal::Metrics, body) == after
            &&& body is None ==> {
                &&& after == r
                &&& handled.response.status == 400
                &&& handled.response.content_type is None
                &&& handled.response.body == encode_utf8("Failed to read request body"@)
                &&& handled.reemission is None
            }
            &&& body matches Some(bytes) ==> (decoded_metrics(bytes) is None ==> {
                &&& after == r
                &&& handled.response.status == 400
                &&& handled.response.content_type is None
                &&& handled.response.body == encode_utf8("Failed to decode request body"@)
                &&& handled.reemission is None
            })
            &&& body matches Some(bytes) ==> (decoded_metrics(bytes) matches Some(request) ==> {
                &&& handled.response.status == 200
                &&& handled.response.content_type == Some("application/x-protobuf"@)
                &&& handled.response.body.len() == 0
                &&& handled.reemission is Some <==> r.metrics.reemit_to is Some
                &&& handled.reemission matches Some(out) ==> {
                    &&& r.metrics.reemit_to == Some(out.endpoint)
                    &&& out.content_type == "application/x-protobuf"@
                    &&& out.body == bytes
                }
                &&& after.metrics.reemit_to == r.metrics.reemit_to
                &&& after.metrics.senders.len() == r.metrics.senders.len()
                &&& forall|k: int|
                    0 <= k < r.metrics.senders.len() ==> #[trigger] after.metrics.senders[k]
                        == r.metrics.senders[k] + flat(request)
                &&& after.traces == r.traces
                &&& after.logs == r.logs
                &&& after.host == r.host
                &&& after.port == r.port
            })
        }),
{
    law_requests_are_told_apart("POST"@, "/v1/metrics"@);
}

/// Any request but a `POST` to one of the three paths is answered with status 404 and the text `Not
/// Found`, whatever its body is. It changes nothing, and nothing is passed on.
pub proof fn law_other_requests(
    r: ReceiverView,
    method: Seq<char>,
    path: Seq<char>,
    body: Option<Seq<u8>>,
)
    requires
        method != "POST"@ || path != "/v1/traces"@ && path != "/v1/logs"@ && path
            != "/v1/metrics"@,
    ensures
        ({
            let handled = r.request_outcome(method, path, body);
            &&& r.after_request(method, path, body) == r
            &&& handled.response.status == 404
            &&& handled.response.content_type is None
            &&& handled.response.body == encode_utf8("Not Found"@)
            &&& handled.reemission is None
        }),
{
    law_requests_are_told_apart(method, path);
}

/// Putting a receiver together fails with the first failure among the re-emitters for traces, logs
/// and metrics, and then with that of an async context; otherwise it succeeds. What it is made of
/// then stands where it belongs: the host and the port, and for each signal its own senders, with
/// what waits in them, and its own endpoint.
pub proof fn law_receivers_are_made_of_their_parts(
    host: Seq<u8>,
    port: u16,
    traces_senders: Seq<Seq<ItemView>>,
    logs_senders: Seq<Seq<ItemView>>,
    metrics_senders: Seq<Seq<ItemView>>,
    traces_to: Result<Option<Seq<char>>, StartErrorView>,
    logs_to: Result<Option<Seq<char>>, StartErrorView>,
    metrics_to: Result<Option<Seq<char>>, StartErrorView>,
    in_async_context: bool,
)
    ensures
        ({
            let outcome = assembled(
                host,
                port,
                traces_senders,
                logs_senders,
                metrics_senders,
                traces_to,
                logs_to,
                metrics_to,
                in_async_context,
            );
            &&& outcome is Ok <==> traces_to is Ok && logs_to is Ok && metrics_to is Ok
                && !in_async_context
            &&& outcome matches Ok(r) ==> {
                &&& r.host == host
                &&& r.port == port
                &&& r.traces.senders == traces_senders
                &&& r.logs.senders == logs_senders
                &&& r.metrics.senders == metrics_senders
                &&& traces_to == Ok::<Option<Seq<char>>, StartErrorView>(r.traces.reemit_to)
                &&& logs_to == Ok::<Option<Seq<char>>, StartErrorView>(r.logs.reemit_to)
                &&& metrics_to == Ok::<Option<Seq<char>>, StartErrorView>(r.metrics.reemit_to)
            }
            &&& outcome matches Err(error) ==> {
                &&& traces_to matches Err(first) ==> error == first
                &&& traces_to is Ok ==> (logs_to matches Err(second) ==> error == second)
                &&& traces_to is Ok && logs_to is Ok ==> (metrics_to matches Err(third) ==> error
                    == third)
                &&& traces_to is Ok && logs_to is Ok && metrics_to is Ok ==> error is AsyncContext
            }
        }),
{
}

/// A receiver listens on the loopback interface unless it is asked to do otherwise.
pub proof fn law_receivers_are_local_by_default()
    ensures
        loopback() == seq![127u8, 0, 0, 1],
{
}

} // verus!
