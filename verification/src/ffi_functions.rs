//! The taps of a process, and the functions on them: start, stop, and poll by handle.
use std::collections::BTreeMap;
use vstd::prelude::*;
use vstd::std_specs::btree::group_btree_axioms;
use vstd::utf8::{
    decode_utf8, encode_utf8, encode_utf8_decode_utf8, encode_utf8_valid_utf8, valid_utf8,
};

use crate::channel::Channel;
use crate::ffi_functions_flags::{
    flag_set, has_flag, listen_address, listen_host, OTELTAP_PRINT_LOGS_AS_NDJSON,
    OTELTAP_PRINT_METRICS_AS_NDJSON, OTELTAP_PRINT_TRACES_AS_NDJSON,
};
use crate::item::ItemView;
use crate::otel_receiver::{
    assembled, body_value, receiver_outcome, Conditions, Handled, OtelReceiver, PathView,
    text_value, ReceiverView,
};
use crate::otel_reemitter::{optional_reemitter_for, StartError, StartErrorView};
use crate::otlp::{one_line, Signal};
use crate::printer::{OutputLine, OutputLineView};

verus! {

broadcast use group_btree_axioms;

/// The call did what it was asked to do.
pub const SUCCESS: i32 = 0;

/// The receiver did not start.
pub const START_FAILED: i32 = -1;

/// There is no receiver with the given handle.
pub const UNKNOWN_HANDLE: i32 = -2;

/// An argument is invalid: an output pointer that is null, or a text that is not UTF-8.
pub const INVALID_ARGUMENT: i32 = -3;

/// The channel that polls take items from.
pub const POLLED: usize = 0;

/// The channel that items are printed from, where they are printed.
pub const PRINTED: usize = 1;

/// A receiver, and for each signal the message that was polled last. That message is lent to the
/// caller, and stays where it is until another one of the same signal is polled.
///
/// The items of a signal that come while a poll waits for them are for that poll: other polls of the
/// signal queue up behind it. A tap is closed while it is being stopped: it takes no more requests,
/// but the polls that wait for its items are still served.
#[derive(Debug)]
pub struct Tap {
    receiver: OtelReceiver,
    closed: bool,
    trace_awaited: bool,
    log_awaited: bool,
    metric_awaited: bool,
    trace_buf: Option<Vec<u8>>,
    log_buf: Option<Vec<u8>>,
    metric_buf: Option<Vec<u8>>,
}

/// The value of a [`Tap`].
#[verifier::ext_equal]
pub struct TapView {
    pub receiver: ReceiverView,
    pub closed: bool,
    pub trace_awaited: bool,
    pub log_awaited: bool,
    pub metric_awaited: bool,
    pub trace_buf: Option<Seq<u8>>,
    pub log_buf: Option<Seq<u8>>,
    pub metric_buf: Option<Seq<u8>>,
}

impl View for Tap {
    type V = TapView;

    closed spec fn view(&self) -> TapView {
        TapView {
            receiver: self.receiver@,
            closed: self.closed,
            trace_awaited: self.trace_awaited,
            log_awaited: self.log_awaited,
            metric_awaited: self.metric_awaited,
            trace_buf: body_value(self.trace_buf),
            log_buf: body_value(self.log_buf),
            metric_buf: body_value(self.metric_buf),
        }
    }
}

impl TapView {
    /// The message of a signal that was polled last.
    pub open spec fn buf(self, signal: Signal) -> Option<Seq<u8>> {
        match signal {
            Signal::Traces => self.trace_buf,
            Signal::Logs => self.log_buf,
            Signal::Metrics => self.metric_buf,
        }
    }

    /// The tap with another message of a signal as the one that was polled last.
    pub open spec fn with_buf(self, signal: Signal, message: Seq<u8>) -> TapView {
        match signal {
            Signal::Traces => TapView { trace_buf: Some(message), ..self },
            Signal::Logs => TapView { log_buf: Some(message), ..self },
            Signal::Metrics => TapView { metric_buf: Some(message), ..self },
        }
    }

    /// Whether a poll waits for items of a signal.
    pub open spec fn awaited(self, signal: Signal) -> bool {
        match signal {
            Signal::Traces => self.trace_awaited,
            Signal::Logs => self.log_awaited,
            Signal::Metrics => self.metric_awaited,
        }
    }

    /// Whether a poll waits for items of any signal.
    pub open spec fn in_use(self) -> bool {
        self.trace_awaited || self.log_awaited || self.metric_awaited
    }

    /// The tap with, or without, a poll that waits for items of a signal.
    pub open spec fn with_awaited(self, signal: Signal, awaited: bool) -> TapView {
        match signal {
            Signal::Traces => TapView { trace_awaited: awaited, ..self },
            Signal::Logs => TapView { log_awaited: awaited, ..self },
            Signal::Metrics => TapView { metric_awaited: awaited, ..self },
        }
    }

    /// Whether a poll of a signal has to queue up behind another, as a first call does while another
    /// poll waits.
    pub open spec fn queued(self, signal: Signal, resumed: bool) -> bool {
        !resumed && self.awaited(signal)
    }

    /// The items of a signal that wait to be polled, or printed, oldest first.
    pub open spec fn path(self, signal: Signal) -> PathView {
        self.receiver.path(signal)
    }

    /// A tap that has just been started.
    pub open spec fn fresh(receiver: ReceiverView) -> TapView {
        TapView {
            receiver,
            closed: false,
            trace_awaited: false,
            log_awaited: false,
            metric_awaited: false,
            trace_buf: None,
            log_buf: None,
            metric_buf: None,
        }
    }

    /// The tap after an item was looked for: the oldest one that waits, if there is one, is taken,
    /// and its message replaces the one that was polled before.
    pub open spec fn polled(self, signal: Signal) -> TapView {
        match self.path(signal).front(POLLED as int) {
            None => self,
            Some(item) => TapView {
                receiver: self.receiver.with_path(
                    signal,
                    self.path(signal).advanced(POLLED as int),
                ),
                ..self
            }.with_buf(signal, item.message),
        }
    }

    /// What a poll is to do. Behind a poll that waits, it queues up until its time is up. Otherwise it
    /// hands out the oldest item; without one, it ends at once if the tap is closed or the time is up,
    /// and waits if not.
    pub open spec fn poll_step(
        self,
        signal: Signal,
        timeout_ms: u64,
        elapsed_ms: u64,
        resumed: bool,
    ) -> PollStep {
        if self.queued(signal, resumed) {
            if elapsed_ms >= timeout_ms {
                PollStep::Done { code: SUCCESS, len: None }
            } else {
                PollStep::Queue { remaining_ms: (timeout_ms - elapsed_ms) as u64 }
            }
        } else {
            match self.path(signal).front(POLLED as int) {
                Some(item) => PollStep::Done {
                    code: SUCCESS,
                    len: Some(item.message.len() as usize),
                },
                None => if self.closed || elapsed_ms >= timeout_ms {
                    PollStep::Done { code: SUCCESS, len: None }
                } else {
                    PollStep::Wait { remaining_ms: (timeout_ms - elapsed_ms) as u64 }
                },
            }
        }
    }

    /// The tap after a call of a poll.
    pub open spec fn after_poll(
        self,
        signal: Signal,
        timeout_ms: u64,
        elapsed_ms: u64,
        resumed: bool,
    ) -> TapView {
        if self.queued(signal, resumed) {
            self
        } else {
            self.polled(signal).with_awaited(
                signal,
                self.poll_step(signal, timeout_ms, elapsed_ms, resumed) is Wait,
            )
        }
    }
}

impl Tap {
    /// A tap for a receiver that has just been started.
    fn new(receiver: OtelReceiver) -> (tap: Tap)
        ensures
            tap@ == TapView::fresh(receiver@),
    {
        Tap {
            receiver,
            closed: false,
            trace_awaited: false,
            log_awaited: false,
            metric_awaited: false,
            trace_buf: None,
            log_buf: None,
            metric_buf: None,
        }
    }

    /// Takes the oldest waiting item of a signal, and keeps its message.
    fn take(&mut self, signal: Signal) -> (len: Option<usize>)
        ensures
            final(self)@ == old(self)@.polled(signal),
            len == match old(self)@.path(signal).front(POLLED as int) {
                Some(item) => Some(item.message.len() as usize),
                None => None,
            },
            len matches Some(n) ==> (final(self)@.buf(signal) matches Some(message) && n
                == message.len()),
    {
        match self.receiver.receive(signal, POLLED) {
            None => None,
            Some(item) => {
                let len = item.message.len();
                match signal {
                    Signal::Traces => self.trace_buf = Some(item.message),
                    Signal::Logs => self.log_buf = Some(item.message),
                    Signal::Metrics => self.metric_buf = Some(item.message),
                }
                Some(len)
            },
        }
    }

    /// Whether a poll waits for items of a signal.
    fn is_awaited(&self, signal: Signal) -> (awaited: bool)
        ensures
            awaited == self@.awaited(signal),
    {
        match signal {
            Signal::Traces => self.trace_awaited,
            Signal::Logs => self.log_awaited,
            Signal::Metrics => self.metric_awaited,
        }
    }

    /// Notes whether a poll waits for items of a signal.
    fn set_awaited(&mut self, signal: Signal, awaited: bool)
        ensures
            final(self)@ == old(self)@.with_awaited(signal, awaited),
    {
        match signal {
            Signal::Traces => self.trace_awaited = awaited,
            Signal::Logs => self.log_awaited = awaited,
            Signal::Metrics => self.metric_awaited = awaited,
        }
    }

    /// Polls for an item of a signal.
    fn poll(&mut self, signal: Signal, timeout_ms: u64, elapsed_ms: u64, resumed: bool) -> (step:
        PollStep)
        ensures
            step == old(self)@.poll_step(signal, timeout_ms, elapsed_ms, resumed),
            final(self)@ == old(self)@.after_poll(signal, timeout_ms, elapsed_ms, resumed),
            step matches PollStep::Done { code, len: Some(n) } ==> (final(self)@.buf(
                signal,
            ) matches Some(message) && n == message.len()),
    {
        if !resumed && self.is_awaited(signal) {
            return if elapsed_ms >= timeout_ms {
                PollStep::Done { code: SUCCESS, len: None }
            } else {
                PollStep::Queue { remaining_ms: timeout_ms - elapsed_ms }
            };
        }
        let len = self.take(signal);
        if len.is_none() && !self.closed && elapsed_ms < timeout_ms {
            self.set_awaited(signal, true);
            PollStep::Wait { remaining_ms: timeout_ms - elapsed_ms }
        } else {
            self.set_awaited(signal, false);
            PollStep::Done { code: SUCCESS, len }
        }
    }
}

/// The taps of a process, by handle, and the handle that the next one gets.
#[derive(Debug)]
pub struct Registry {
    next_handle: u64,
    taps: BTreeMap<u64, Tap>,
}

/// The value of a [`Registry`].
#[verifier::ext_equal]
pub struct RegistryView {
    pub next_handle: u64,
    pub taps: Map<u64, TapView>,
}

impl View for Registry {
    type V = RegistryView;

    closed spec fn view(&self) -> RegistryView {
        RegistryView {
            next_handle: self.next_handle,
            taps: self.taps@.map_values(|tap: Tap| tap@),
        }
    }
}

impl RegistryView {
    /// A registry in which nothing has happened yet.
    pub open spec fn initial() -> RegistryView {
        RegistryView { next_handle: 1, taps: Map::empty() }
    }

    /// Whether a handle stands for a receiver that runs, or is being stopped.
    pub open spec fn known(self, handle: u64) -> bool {
        self.taps.contains_key(handle)
    }

    /// Whether a handle stands for a receiver that takes requests.
    pub open spec fn serving(self, handle: u64) -> bool {
        self.known(handle) && !self.taps[handle].closed
    }

    /// All that waits in the channels of all receivers prints as single lines.
    pub open spec fn single_lines(self) -> bool {
        forall|handle: u64| #[trigger]
            self.known(handle) ==> self.taps[handle].receiver.single_lines()
    }

    /// The registry with another value for a tap.
    pub open spec fn with_tap(self, handle: u64, tap: TapView) -> RegistryView {
        RegistryView { taps: self.taps.insert(handle, tap), ..self }
    }

    /// The registry after a request to the receiver with the given handle.
    pub open spec fn after_request(
        self,
        handle: u64,
        method: Seq<char>,
        path: Seq<char>,
        body: Option<Seq<u8>>,
    ) -> RegistryView {
        if self.serving(handle) {
            let tap = self.taps[handle];
            self.with_tap(
                handle,
                TapView { receiver: tap.receiver.after_request(method, path, body), ..tap },
            )
        } else {
            self
        }
    }

    /// The registry after the lines of a signal were taken to be printed.
    pub open spec fn after_print(self, signal: Signal, handle: u64) -> RegistryView {
        if self.known(handle) {
            let tap = self.taps[handle];
            self.with_tap(
                handle,
                TapView {
                    receiver: tap.receiver.with_path(
                        signal,
                        tap.path(signal).drained(PRINTED as int),
                    ),
                    ..tap
                },
            )
        } else {
            self
        }
    }

    /// The oldest item of a signal that waits to be polled.
    pub open spec fn next_item(self, signal: Signal, handle: u64) -> Option<ItemView> {
        if self.known(handle) {
            self.taps[handle].path(signal).front(POLLED as int)
        } else {
            None
        }
    }

    /// Whether a message of the given length is the one of a signal that was polled last.
    pub open spec fn lends(self, signal: Signal, handle: u64, len: nat) -> bool {
        self.known(handle) && (self.taps[handle].buf(signal) matches Some(message)
            && message.len() == len)
    }

    /// What a poll is to do.
    pub open spec fn poll_step(
        self,
        signal: Signal,
        handle: u64,
        timeout_ms: u64,
        elapsed_ms: u64,
        resumed: bool,
        has_outputs: bool,
    ) -> PollStep {
        if !has_outputs {
            PollStep::Done { code: INVALID_ARGUMENT, len: None }
        } else if !self.known(handle) {
            PollStep::Done { code: UNKNOWN_HANDLE, len: None }
        } else {
            self.taps[handle].poll_step(signal, timeout_ms, elapsed_ms, resumed)
        }
    }

    /// The registry after a call of a poll with valid output pointers.
    pub open spec fn after_poll(
        self,
        signal: Signal,
        handle: u64,
        timeout_ms: u64,
        elapsed_ms: u64,
        resumed: bool,
    ) -> RegistryView {
        if self.known(handle) {
            self.with_tap(
                handle,
                self.taps[handle].after_poll(signal, timeout_ms, elapsed_ms, resumed),
            )
        } else {
            self
        }
    }
}

/// What a poll is to do next.
#[derive(Debug)]
pub enum PollStep {
    /// Return the code. With `SUCCESS`, the output is the message that was polled last, which has
    /// the given length, or nothing.
    Done { code: i32, len: Option<usize> },
    /// Wait for at most this long until something changes, and poll on.
    Wait { remaining_ms: u64 },
    /// Wait for at most this long until something changes, and ask for the turn again: another poll
    /// of the signal is waiting.
    Queue { remaining_ms: u64 },
}

/// Taking the oldest item out of a channel, or all of them, leaves only single lines where there
/// were only single lines.
proof fn lemma_taking_keeps_single_lines(path: PathView, index: int)
    requires
        path.single_lines(),
    ensures
        path.front(index) is Some ==> path.advanced(index).single_lines(),
        path.drained(index).single_lines(),
{
    if path.front(index) is Some {
        let after = path.advanced(index);
        assert forall|c: int, i: int|
            0 <= c < after.senders.len() && 0 <= i < after.senders[c].len() implies one_line(
            #[trigger] after.senders[c][i],
        ) by {
            assert(one_line(path.senders[c][if c == index { i + 1 } else { i }]));
        }
    }
    let after = path.drained(index);
    assert forall|c: int, i: int|
        0 <= c < after.senders.len() && 0 <= i < after.senders[c].len() implies one_line(
        #[trigger] after.senders[c][i],
    ) by {
        assert(one_line(path.senders[c][i]));
    }
}

/// A tap that holds only single lines can take the place of another.
proof fn lemma_tap_keeps_single_lines(v: RegistryView, handle: u64, tap: TapView)
    requires
        v.single_lines(),
        tap.receiver.single_lines(),
    ensures
        v.with_tap(handle, tap).single_lines(),
{
    let after = v.with_tap(handle, tap);
    assert forall|h: u64| #[trigger] after.known(h) implies after.taps[h].receiver.single_lines() by {
        if h != handle {
            assert(v.known(h));
        }
    }
}

/// Polling leaves only single lines where there were only single lines.
pub proof fn law_polls_keep_single_lines(
    v: RegistryView,
    signal: Signal,
    handle: u64,
    timeout_ms: u64,
    elapsed_ms: u64,
    resumed: bool,
)
    requires
        v.single_lines(),
    ensures
        v.after_poll(signal, handle, timeout_ms, elapsed_ms, resumed).single_lines(),
{
    if v.known(handle) {
        let after = v.after_poll(signal, handle, timeout_ms, elapsed_ms, resumed);
        assert(v.taps[handle].receiver.single_lines());
        lemma_taking_keeps_single_lines(v.taps[handle].path(signal), POLLED as int);
        lemma_tap_keeps_single_lines(v, handle, after.taps[handle]);
    }
}

/// Printing leaves only single lines where there were only single lines.
pub proof fn law_printing_keeps_single_lines(v: RegistryView, signal: Signal, handle: u64)
    requires
        v.single_lines(),
    ensures
        v.after_print(signal, handle).single_lines(),
{
    if v.known(handle) {
        assert(v.taps[handle].receiver.single_lines());
        lemma_taking_keeps_single_lines(v.taps[handle].path(signal), PRINTED as int);
        lemma_tap_keeps_single_lines(v, handle, v.after_print(signal, handle).taps[handle]);
    }
}

/// Stopping leaves only single lines where there were only single lines.
pub proof fn law_stopping_keeps_single_lines(v: RegistryView, handle: u64, resumed: bool)
    requires
        v.single_lines(),
    ensures
        v.after_stop(handle, resumed).single_lines(),
{
    let after = v.after_stop(handle, resumed);
    assert forall|h: u64| #[trigger] after.known(h) implies after.taps[h].receiver.single_lines() by {
        assert(v.known(h));
    }
}

/// Setting a handle aside leaves only single lines where there were only single lines.
pub proof fn law_reservations_keep_single_lines(v: RegistryView)
    requires
        v.single_lines(),
    ensures
        v.after_reservation().single_lines(),
{
    assert forall|h: u64| #[trigger]
        v.after_reservation().known(h) implies v.taps[h].receiver.single_lines() by {
        assert(v.known(h));
    }
}

/// Launching a receiver that holds only single lines leaves only single lines where there were
/// only single lines.
pub proof fn law_launches_keep_single_lines(v: RegistryView, launch: LaunchView, listening: bool)
    requires
        v.single_lines(),
        launch.receiver.single_lines(),
    ensures
        v.after_launch(launch, listening).single_lines(),
{
    lemma_tap_keeps_single_lines(v, launch.handle, TapView::fresh(launch.receiver));
}

/// Polls for an item of a signal: one that asks for its turn, or one that was told to wait for an
/// item and goes on, as `resumed` says. `elapsed_ms` is the time since the first call, whether the
/// poll has waited for its turn or for an item. A poll that is told to wait goes on until it is done.
pub fn internal_poll(
    registry: &mut Registry,
    signal: Signal,
    handle: u64,
    timeout_ms: u64,
    elapsed_ms: u64,
    resumed: bool,
    has_outputs: bool,
) -> (step: PollStep)
    ensures
        step == old(registry)@.poll_step(
            signal,
            handle,
            timeout_ms,
            elapsed_ms,
            resumed,
            has_outputs,
        ),
        final(registry)@ == if has_outputs {
            old(registry)@.after_poll(signal, handle, timeout_ms, elapsed_ms, resumed)
        } else {
            old(registry)@
        },
        step matches PollStep::Done { code, len: Some(n) } ==> final(registry)@.lends(
            signal,
            handle,
            n as nat,
        ),
        old(registry)@.single_lines() ==> final(registry)@.single_lines(),
{
    if !has_outputs {
        return PollStep::Done { code: INVALID_ARGUMENT, len: None };
    }
    proof {
        if registry@.single_lines() {
            law_polls_keep_single_lines(
                registry@,
                signal,
                handle,
                timeout_ms,
                elapsed_ms,
                resumed,
            );
        }
    }
    match registry.taps.remove(&handle) {
        None => {
            assert(registry@ =~= old(registry)@);
            PollStep::Done { code: UNKNOWN_HANDLE, len: None }
        },
        Some(mut tap) => {
            let step = tap.poll(signal, timeout_ms, elapsed_ms, resumed);
            registry.taps.insert(handle, tap);
            assert(registry@ =~= old(registry)@.after_poll(
                signal,
                handle,
                timeout_ms,
                elapsed_ms,
                resumed,
            ));
            step
        },
    }
}

/// Polls for a span, as [`internal_poll`] does for an item.
pub fn oteltap_poll_trace(
    registry: &mut Registry,
    handle: u64,
    timeout_ms: u64,
    elapsed_ms: u64,
    resumed: bool,
    has_outputs: bool,
) -> (step: PollStep)
    ensures
        step == old(registry)@.poll_step(
            Signal::Traces,
            handle,
            timeout_ms,
            elapsed_ms,
            resumed,
            has_outputs,
        ),
        final(registry)@ == if has_outputs {
            old(registry)@.after_poll(Signal::Traces, handle, timeout_ms, elapsed_ms, resumed)
        } else {
            old(registry)@
        },
        step matches PollStep::Done { code, len: Some(n) } ==> final(registry)@.lends(
            Signal::Traces,
            handle,
            n as nat,
        ),
        old(registry)@.single_lines() ==> final(registry)@.single_lines(),
{
    internal_poll(registry, Signal::Traces, handle, timeout_ms, elapsed_ms, resumed, has_outputs)
}

/// Polls for a log record, as [`internal_poll`] does for an item.
pub fn oteltap_poll_log(
    registry: &mut Registry,
    handle: u64,
    timeout_ms: u64,
    elapsed_ms: u64,
    resumed: bool,
    has_outputs: bool,
) -> (step: PollStep)
    ensures
        step == old(registry)@.poll_step(
            Signal::Logs,
            handle,
            timeout_ms,
            elapsed_ms,
            resumed,
            has_outputs,
        ),
        final(registry)@ == if has_outputs {
            old(registry)@.after_poll(Signal::Logs, handle, timeout_ms, elapsed_ms, resumed)
        } else {
            old(registry)@
        },
        step matches PollStep::Done { code, len: Some(n) } ==> final(registry)@.lends(
            Signal::Logs,
            handle,
            n as nat,
        ),
        old(registry)@.single_lines() ==> final(registry)@.single_lines(),
{
    internal_poll(registry, Signal::Logs, handle, timeout_ms, elapsed_ms, resumed, has_outputs)
}

/// Polls for a metric, as [`internal_poll`] does for an item.
pub fn oteltap_poll_metric(
    registry: &mut Registry,
    handle: u64,
    timeout_ms: u64,
    elapsed_ms: u64,
    resumed: bool,
    has_outputs: bool,
) -> (step: PollStep)
    ensures
        step == old(registry)@.poll_step(
            Signal::Metrics,
            handle,
            timeout_ms,
            elapsed_ms,
            resumed,
            has_outputs,
        ),
        final(registry)@ == if has_outputs {
            old(registry)@.after_poll(Signal::Metrics, handle, timeout_ms, elapsed_ms, resumed)
        } else {
            old(registry)@
        },
        step matches PollStep::Done { code, len: Some(n) } ==> final(registry)@.lends(
            Signal::Metrics,
            handle,
            n as nat,
        ),
        old(registry)@.single_lines() ==> final(registry)@.single_lines(),
{
    internal_poll(registry, Signal::Metrics, handle, timeout_ms, elapsed_ms, resumed, has_outputs)
}

/// The answer to a call that stops a receiver: its code, and for each signal the lines that are
/// still to be printed.
#[derive(Debug)]
pub struct StopReply {
    pub code: i32,
    pub traces: Vec<OutputLine>,
    pub logs: Vec<OutputLine>,
    pub metrics: Vec<OutputLine>,
}

/// The value of a [`StopReply`].
#[verifier::ext_equal]
pub struct StopReplyView {
    pub code: i32,
    pub traces: Seq<OutputLineView>,
    pub logs: Seq<OutputLineView>,
    pub metrics: Seq<OutputLineView>,
}

impl View for StopReply {
    type V = StopReplyView;

    open spec fn view(&self) -> StopReplyView {
        StopReplyView {
            code: self.code,
            traces: self.traces.deep_view(),
            logs: self.logs.deep_view(),
            metrics: self.metrics.deep_view(),
        }
    }
}

impl StopReplyView {
    /// The lines of a signal that are still to be printed.
    pub open spec fn lines(self, signal: Signal) -> Seq<OutputLineView> {
        match signal {
            Signal::Traces => self.traces,
            Signal::Logs => self.logs,
            Signal::Metrics => self.metrics,
        }
    }
}

/// What a call that stops a receiver is to do next.
#[derive(Debug)]
pub enum StopStep {
    /// Print the lines of the answer, and return its code.
    Done(StopReply),
    /// Wait until something changes, and go on: polls still wait for the receiver's items.
    Wait,
}

/// The value of a [`StopStep`].
pub enum StopStepView {
    Done(StopReplyView),
    Wait,
}

impl View for StopStep {
    type V = StopStepView;

    open spec fn view(&self) -> StopStepView {
        match *self {
            StopStep::Done(reply) => StopStepView::Done(reply@),
            StopStep::Wait => StopStepView::Wait,
        }
    }
}

impl TapView {
    /// The answer to the call that stops the receiver.
    pub open spec fn stop_reply(self) -> StopReplyView {
        StopReplyView {
            code: SUCCESS,
            traces: self.path(Signal::Traces).pending(PRINTED as int),
            logs: self.path(Signal::Logs).pending(PRINTED as int),
            metrics: self.path(Signal::Metrics).pending(PRINTED as int),
        }
    }
}

/// The answer to a call that finds no receiver to stop.
pub open spec fn nothing_to_stop() -> StopReplyView {
    StopReplyView {
        code: UNKNOWN_HANDLE,
        traces: Seq::empty(),
        logs: Seq::empty(),
        metrics: Seq::empty(),
    }
}

impl RegistryView {
    /// Whether a call to stop finds a receiver: one that takes requests or, where the call goes on
    /// after waiting, the one that it closed.
    pub open spec fn stoppable(self, handle: u64, resumed: bool) -> bool {
        self.known(handle) && (resumed || !self.taps[handle].closed)
    }

    /// What a call that stops the receiver with the given handle is to do.
    pub open spec fn stop_step(self, handle: u64, resumed: bool) -> StopStepView {
        if !self.stoppable(handle, resumed) {
            StopStepView::Done(nothing_to_stop())
        } else if self.taps[handle].in_use() {
            StopStepView::Wait
        } else {
            StopStepView::Done(self.taps[handle].stop_reply())
        }
    }

    /// The registry after a call that stops the receiver with the given handle: the receiver is
    /// gone, or closed if polls wait for its items.
    pub open spec fn after_stop(self, handle: u64, resumed: bool) -> RegistryView {
        if !self.stoppable(handle, resumed) {
            self
        } else if self.taps[handle].in_use() {
            self.with_tap(handle, TapView { closed: true, ..self.taps[handle] })
        } else {
            RegistryView { taps: self.taps.remove(handle), ..self }
        }
    }
}

/// Stops the receiver with the given handle: the first call, or the next one after waiting, as
/// `resumed` says. From the first call on the receiver takes no more requests. It is forgotten, with
/// all that it holds, once no poll waits for its items any more.
pub fn oteltap_stop_receiving(registry: &mut Registry, handle: u64, resumed: bool) -> (step:
    StopStep)
    ensures
        step@ == old(registry)@.stop_step(handle, resumed),
        final(registry)@ == old(registry)@.after_stop(handle, resumed),
        old(registry)@.single_lines() ==> final(registry)@.single_lines(),
{
    proof {
        if registry@.single_lines() {
            law_stopping_keeps_single_lines(registry@, handle, resumed);
        }
    }
    match registry.taps.remove(&handle) {
        None => {
            assert(registry@ =~= old(registry)@);
            StopStep::Done(no_stop())
        },
        Some(mut tap) => {
            if tap.closed && !resumed {
                registry.taps.insert(handle, tap);
                assert(registry@ =~= old(registry)@);
                StopStep::Done(no_stop())
            } else if tap.trace_awaited || tap.log_awaited || tap.metric_awaited {
                tap.closed = true;
                registry.taps.insert(handle, tap);
                assert(registry@ =~= old(registry)@.after_stop(handle, resumed));
                StopStep::Wait
            } else {
                assert(registry@ =~= old(registry)@.after_stop(handle, resumed));
                StopStep::Done(
                    StopReply {
                        code: SUCCESS,
                        traces: tap.receiver.print(Signal::Traces, PRINTED),
                        logs: tap.receiver.print(Signal::Logs, PRINTED),
                        metrics: tap.receiver.print(Signal::Metrics, PRINTED),
                    },
                )
            }
        },
    }
}

/// Makes the answer to a call that finds no receiver to stop.
fn no_stop() -> (reply: StopReply)
    ensures
        reply@ == nothing_to_stop(),
{
    let reply = StopReply {
        code: UNKNOWN_HANDLE,
        traces: Vec::new(),
        logs: Vec::new(),
        metrics: Vec::new(),
    };
    assert(reply@ =~= nothing_to_stop());
    reply
}

/// The text that the bytes of a C string denote, `None` for a null pointer, or the error code.
pub open spec fn c_text(cs: Option<Seq<u8>>) -> Result<Option<Seq<char>>, i32> {
    match cs {
        None => Ok(None),
        Some(bytes) => if valid_utf8(bytes) {
            Ok(Some(decode_utf8(bytes)))
        } else {
            Err(INVALID_ARGUMENT)
        },
    }
}

/// Calls `std::str::from_utf8`, and copies the text. Trusted: bytes that are valid UTF-8, and no
/// others, give a text, and it is the one that they encode.
#[verifier::external_body]
fn utf8_text(bytes: &[u8]) -> (text: Option<String>)
    ensures
        match text {
            Some(t) => valid_utf8(bytes@) && t@ == decode_utf8(bytes@),
            None => !valid_utf8(bytes@),
        },
{
    match std::str::from_utf8(bytes) {
        Ok(text) => Some(text.to_string()),
        Err(_) => None,
    }
}

/// The value of an optional byte string.
pub open spec fn bytes_value(bytes: Option<&[u8]>) -> Option<Seq<u8>> {
    match bytes {
        Some(b) => Some(b@),
        None => None,
    }
}

/// Converts a C string, given as its bytes without the terminator, or `None` for a null pointer.
pub fn c_style_string_to_rust_string(cs: Option<&[u8]>) -> (text: Result<Option<String>, i32>)
    ensures
        match text {
            Ok(Some(t)) => c_text(bytes_value(cs)) == Ok::<Option<Seq<char>>, i32>(Some(t@)),
            Ok(None) => c_text(bytes_value(cs)) == Ok::<Option<Seq<char>>, i32>(None),
            Err(code) => c_text(bytes_value(cs)) == Err::<Option<Seq<char>>, i32>(code),
        },
{
    match cs {
        None => Ok(None),
        Some(bytes) => match utf8_text(bytes) {
            Some(text) => Ok(Some(text)),
            None => Err(INVALID_ARGUMENT),
        },
    }
}

/// Every text can be passed as a C string: its UTF-8 encoding is converted back to it.
pub proof fn law_c_strings_carry_any_text(text: Seq<char>)
    ensures
        c_text(Some(encode_utf8(text))) == Ok::<Option<Seq<char>>, i32>(Some(text)),
{
    encode_utf8_valid_utf8(text);
    encode_utf8_decode_utf8(text);
}

/// The channels of a signal in a receiver that has just been started: one to poll from and, where
/// the signal is printed, one to print from.
pub open spec fn new_senders(printed: bool) -> Seq<Seq<ItemView>> {
    if printed {
        seq![Seq::empty(), Seq::empty()]
    } else {
        seq![Seq::empty()]
    }
}

/// Makes the channels of a signal.
fn make_senders(printed: bool) -> (senders: Vec<Channel>)
    ensures
        senders.deep_view() == new_senders(printed),
{
    let mut senders = Vec::new();
    senders.push(Channel::new());
    if printed {
        senders.push(Channel::new());
    }
    assert(senders.deep_view() =~= new_senders(printed));
    senders
}

/// The receiver that a call with these arguments starts, or why it starts none.
pub open spec fn requested_receiver(
    port: u16,
    flags: u32,
    traces_to: Option<Seq<char>>,
    logs_to: Option<Seq<char>>,
    metrics_to: Option<Seq<char>>,
    conditions: Conditions,
) -> Result<ReceiverView, StartErrorView> {
    assembled(
        listen_address(flags),
        port,
        new_senders(flag_set(flags, OTELTAP_PRINT_TRACES_AS_NDJSON)),
        new_senders(flag_set(flags, OTELTAP_PRINT_LOGS_AS_NDJSON)),
        new_senders(flag_set(flags, OTELTAP_PRINT_METRICS_AS_NDJSON)),
        optional_reemitter_for(traces_to, conditions.traces_client),
        optional_reemitter_for(logs_to, conditions.logs_client),
        optional_reemitter_for(metrics_to, conditions.metrics_client),
        conditions.in_async_context,
    )
}

/// A receiver that is to be launched, and the handle that is set aside for it.
#[derive(Debug)]
pub struct Launch {
    handle: u64,
    receiver: OtelReceiver,
}

/// The value of a [`Launch`].
#[verifier::ext_equal]
pub struct LaunchView {
    pub handle: u64,
    pub receiver: ReceiverView,
}

impl View for Launch {
    type V = LaunchView;

    closed spec fn view(&self) -> LaunchView {
        LaunchView { handle: self.handle, receiver: self.receiver@ }
    }
}

impl Launch {
    /// The handle that is set aside for the receiver.
    pub fn handle(&self) -> (handle: u64)
        ensures
            handle == self@.handle,
    {
        self.handle
    }

    /// Whether the items of a signal are to be printed.
    pub fn prints(&self, signal: Signal) -> (prints: bool)
        ensures
            prints == (self@.receiver.path(signal).senders.len() > PRINTED),
    {
        let senders = match signal {
            Signal::Traces => &self.receiver.traces.senders,
            Signal::Logs => &self.receiver.logs.senders,
            Signal::Metrics => &self.receiver.metrics.senders,
        };
        senders.len() > PRINTED
    }

    /// The receiver.
    pub fn receiver(&self) -> (receiver: &OtelReceiver)
        ensures
            receiver@ == self@.receiver,
    {
        &self.receiver
    }
}

/// What a call that starts a receiver is to do next.
#[derive(Debug)]
pub enum StartStep {
    /// Return the code.
    Refused { code: i32 },
    /// Open the socket of the receiver, and report the outcome to [`finish_start`].
    Proceed(Launch),
}

/// The value of a [`StartStep`].
pub enum StartStepView {
    Refused { code: i32 },
    Proceed(LaunchView),
}

impl View for StartStep {
    type V = StartStepView;

    open spec fn view(&self) -> StartStepView {
        match *self {
            StartStep::Refused { code } => StartStepView::Refused { code },
            StartStep::Proceed(launch) => StartStepView::Proceed(launch@),
        }
    }
}

/// The handle after a given one. Handles start over after the largest one.
pub open spec fn handle_after(handle: u64) -> u64 {
    if handle == u64::MAX {
        0
    } else {
        (handle + 1) as u64
    }
}

/// Whether the arguments of a call that starts a receiver are valid.
pub open spec fn valid_arguments(
    traces_to: Option<Seq<u8>>,
    logs_to: Option<Seq<u8>>,
    metrics_to: Option<Seq<u8>>,
    has_out_handle: bool,
) -> bool {
    has_out_handle && c_text(traces_to) is Ok && c_text(logs_to) is Ok && c_text(metrics_to) is Ok
}

impl RegistryView {
    /// What a call that starts a receiver is to do, if its arguments are valid.
    pub open spec fn start_step(
        self,
        outcome: Result<ReceiverView, StartErrorView>,
    ) -> StartStepView {
        match outcome {
            Ok(receiver) => StartStepView::Proceed(
                LaunchView { handle: self.next_handle, receiver },
            ),
            Err(_) => StartStepView::Refused { code: START_FAILED },
        }
    }

    /// The registry after a handle was set aside.
    pub open spec fn after_reservation(self) -> RegistryView {
        RegistryView { next_handle: handle_after(self.next_handle), ..self }
    }

    /// The registry after a receiver was launched, or after its socket could not be opened.
    pub open spec fn after_launch(self, launch: LaunchView, listening: bool) -> RegistryView {
        if listening {
            self.with_tap(launch.handle, TapView::fresh(launch.receiver))
        } else {
            self
        }
    }
}

/// Starts a receiver on a port, with optional re-emission endpoints, up to where its socket is to be
/// opened. A call with valid arguments sets a handle aside, whether a receiver starts or not.
pub fn oteltap_start_receiving_http_protobuf(
    registry: &mut Registry,
    port: u16,
    flags: u32,
    reemit_traces_to: Option<&[u8]>,
    reemit_logs_to: Option<&[u8]>,
    reemit_metrics_to: Option<&[u8]>,
    has_out_handle: bool,
    conditions: Conditions,
) -> (step: StartStep)
    ensures
        ({
            let traces = bytes_value(reemit_traces_to);
            let logs = bytes_value(reemit_logs_to);
            let metrics = bytes_value(reemit_metrics_to);
            if valid_arguments(traces, logs, metrics, has_out_handle) {
                let outcome = requested_receiver(
                    port,
                    flags,
                    c_text(traces)->Ok_0,
                    c_text(logs)->Ok_0,
                    c_text(metrics)->Ok_0,
                    conditions,
                );
                &&& step@ == old(registry)@.start_step(outcome)
                &&& final(registry)@ == old(registry)@.after_reservation()
            } else {
                &&& step@ == (StartStepView::Refused { code: INVALID_ARGUMENT })
                &&& final(registry)@ == old(registry)@
            }
        }),
        old(registry)@.single_lines() ==> final(registry)@.single_lines(),
        step@ matches StartStepView::Proceed(launch) ==> launch.receiver.single_lines(),
{
    if !has_out_handle {
        return StartStep::Refused { code: INVALID_ARGUMENT };
    }
    let reemit_traces_to = match c_style_string_to_rust_string(reemit_traces_to) {
        Ok(text) => text,
        Err(code) => return StartStep::Refused { code },
    };
    let reemit_logs_to = match c_style_string_to_rust_string(reemit_logs_to) {
        Ok(text) => text,
        Err(code) => return StartStep::Refused { code },
    };
    let reemit_metrics_to = match c_style_string_to_rust_string(reemit_metrics_to) {
        Ok(text) => text,
        Err(code) => return StartStep::Refused { code },
    };
    let receiver = OtelReceiver::start_on(
        listen_host(flags),
        port,
        make_senders(has_flag(flags, OTELTAP_PRINT_TRACES_AS_NDJSON)),
        make_senders(has_flag(flags, OTELTAP_PRINT_LOGS_AS_NDJSON)),
        make_senders(has_flag(flags, OTELTAP_PRINT_METRICS_AS_NDJSON)),
        as_text(&reemit_traces_to),
        as_text(&reemit_logs_to),
        as_text(&reemit_metrics_to),
        conditions,
    );
    registry.reserve(receiver)
}

/// Borrows an optional text.
fn as_text(text: &Option<String>) -> (borrowed: Option<&str>)
    ensures
        text_value(borrowed) == match *text {
            Some(t) => Some(t@),
            None => None,
        },
{
    match text {
        Some(t) => Some(t.as_str()),
        None => None,
    }
}

/// The answer to a call that starts a receiver: its code and, where it succeeded, the handle.
#[derive(Debug)]
pub struct StartReply {
    pub code: i32,
    pub handle: Option<u64>,
}

/// Ends a call that starts a receiver, given whether the receiver's socket could be opened.
pub fn finish_start(registry: &mut Registry, launch: Launch, listening: bool) -> (reply: StartReply)
    ensures
        final(registry)@ == old(registry)@.after_launch(launch@, listening),
        reply == if listening {
            (StartReply { code: SUCCESS, handle: Some(launch@.handle) })
        } else {
            (StartReply { code: START_FAILED, handle: None })
        },
        old(registry)@.single_lines() && launch@.receiver.single_lines()
            ==> final(registry)@.single_lines(),
{
    proof {
        if registry@.single_lines() && launch@.receiver.single_lines() {
            law_launches_keep_single_lines(registry@, launch@, listening);
        }
    }
    if listening {
        registry.taps.insert(launch.handle, Tap::new(launch.receiver));
        assert(registry@ =~= old(registry)@.after_launch(launch@, listening));
        StartReply { code: SUCCESS, handle: Some(launch.handle) }
    } else {
        StartReply { code: START_FAILED, handle: None }
    }
}

impl Registry {
    /// A registry without taps. The first handle is 1.
    pub fn new() -> (registry: Registry)
        ensures
            registry@ == RegistryView::initial(),
            registry@.single_lines(),
    {
        let registry = Registry { next_handle: 1, taps: BTreeMap::new() };
        assert(registry@.taps =~= Map::empty());
        registry
    }

    /// Sets a handle aside for a receiver, given the outcome of putting the receiver together.
    pub fn reserve(&mut self, receiver: Result<OtelReceiver, StartError>) -> (step: StartStep)
        ensures
            step@ == old(self)@.start_step(receiver_outcome(receiver)),
            final(self)@ == old(self)@.after_reservation(),
            old(self)@.single_lines() ==> final(self)@.single_lines(),
    {
        proof {
            if self@.single_lines() {
                law_reservations_keep_single_lines(self@);
            }
        }
        let handle = self.next_handle;
        self.next_handle = handle.wrapping_add(1);
        match receiver {
            Ok(receiver) => StartStep::Proceed(Launch { handle, receiver }),
            Err(_) => StartStep::Refused { code: START_FAILED },
        }
    }

    /// Handles a request to the receiver with the given handle; the body is `None` where it could
    /// not be read. There is no answer where no such receiver takes requests.
    pub fn handle(&mut self, handle: u64, method: &str, path: &str, body: Option<Vec<u8>>) -> (handled:
        Option<Handled>)
        ensures
            final(self)@ == old(self)@.after_request(handle, method@, path@, body_value(body)),
            match handled {
                Some(h) => old(self)@.serving(handle) && h@
                    == old(self)@.taps[handle].receiver.request_outcome(
                    method@,
                    path@,
                    body_value(body),
                ),
                None => !old(self)@.serving(handle),
            },
            old(self)@.single_lines() ==> final(self)@.single_lines(),
    {
        match self.taps.remove(&handle) {
            None => {
                assert(self@ =~= old(self)@);
                None
            },
            Some(mut tap) => {
                assert(old(self)@.known(handle));
                if tap.closed {
                    self.taps.insert(handle, tap);
                    assert(self@ =~= old(self)@);
                    return None;
                }
                let handled = tap.receiver.handle(method, path, body);
                self.taps.insert(handle, tap);
                assert(self@ =~= old(self)@.after_request(handle, method@, path@, body_value(body)));
                assert(forall|h: u64| #[trigger] self@.known(h) ==> old(self)@.known(h));
                Some(handled)
            },
        }
    }

    /// Takes the items of a signal that wait to be printed, and makes the lines to print for them.
    /// There are none to expect any more where the handle is unknown.
    pub fn print(&mut self, signal: Signal, handle: u64) -> (lines: Option<Vec<OutputLine>>)
        ensures
            final(self)@ == old(self)@.after_print(signal, handle),
            match lines {
                Some(l) => old(self)@.known(handle) && l.deep_view()
                    == old(self)@.taps[handle].path(signal).pending(PRINTED as int),
                None => !old(self)@.known(handle),
            },
            old(self)@.single_lines() ==> final(self)@.single_lines(),
    {
        proof {
            if self@.single_lines() {
                law_printing_keeps_single_lines(self@, signal, handle);
            }
        }
        match self.taps.remove(&handle) {
            None => {
                assert(self@ =~= old(self)@);
                None
            },
            Some(mut tap) => {
                let lines = tap.receiver.print(signal, PRINTED);
                self.taps.insert(handle, tap);
                assert(self@ =~= old(self)@.after_print(signal, handle));
                Some(lines)
            },
        }
    }

    /// The message of a signal that was polled last.
    pub fn buffer(&self, signal: Signal, handle: u64) -> (message: Option<&Vec<u8>>)
        ensures
            match message {
                Some(m) => self@.known(handle) && self@.taps[handle].buf(signal) == Some(m@),
                None => self@.known(handle) ==> self@.taps[handle].buf(signal) is None,
            },
    {
        match self.taps.get(&handle) {
            None => None,
            Some(tap) => match signal {
                Signal::Traces => tap.trace_buf.as_ref(),
                Signal::Logs => tap.log_buf.as_ref(),
                Signal::Metrics => tap.metric_buf.as_ref(),
            },
        }
    }
}

} // verus!
