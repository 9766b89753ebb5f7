//! What holds of a registry: over any course of events, and of each call on it.
use vstd::prelude::*;
use vstd::utf8::{decode_utf8, valid_utf8};

use crate::ffi_functions::{
    bytes_value, c_text, law_launches_keep_single_lines, law_polls_keep_single_lines,
    law_printing_keeps_single_lines, law_reservations_keep_single_lines, law_stopping_keeps_single_lines, nothing_to_stop,
    requested_receiver, valid_arguments, LaunchView, PollStep, RegistryView, StartStep,
    StartStepView, StopReply, StopStep, StopStepView, TapView, POLLED, PRINTED, SUCCESS,
    UNKNOWN_HANDLE,
};
use crate::ffi_functions_flags::{
    flag_set, law_flags_are_binary_digits, listen_address, OTELTAP_LISTEN_ON_ALL_INTERFACES,
    OTELTAP_PRINT_LOGS_AS_NDJSON, OTELTAP_PRINT_METRICS_AS_NDJSON, OTELTAP_PRINT_TRACES_AS_NDJSON,
};
use crate::item::{flat, ItemView};
use crate::otel_receiver::{
    law_printing_takes_everything, routed, Conditions, PathView, ReceiverView, OK,
};
use crate::otel_reemitter::{parsed_url, StartErrorView};
use crate::otlp::{decoded, one_line, Signal};
use crate::printer::{all_printed, OutputLineView};

verus! {

/// Something that happens to a registry.
pub enum Event {
    /// A request reaches the receiver with a handle.
    Request { handle: u64, method: Seq<char>, path: Seq<char>, body: Option<Seq<u8>> },
    /// A poll with valid output pointers looks for an item, at first or after waiting.
    Poll { signal: Signal, handle: u64, timeout_ms: u64, elapsed_ms: u64, resumed: bool },
    /// The printer takes what there is to print.
    Print { signal: Signal, handle: u64 },
    /// A call to start a receiver, with valid arguments, sets a handle aside.
    Reserve,
    /// The socket of a receiver is opened, or fails to open.
    Launch { launch: LaunchView, listening: bool },
    /// A call stops a receiver, at first or after waiting.
    Stop { handle: u64, resumed: bool },
}

impl Event {
    /// Whether the event is about a handle.
    pub open spec fn concerns(self, h: u64) -> bool {
        match self {
            Event::Request { handle, .. } => handle == h,
            Event::Poll { handle, .. } => handle == h,
            Event::Print { handle, .. } => handle == h,
            Event::Reserve => false,
            Event::Launch { launch, .. } => launch.handle == h,
            Event::Stop { handle, .. } => handle == h,
        }
    }

    /// Whether the event begins the use of a handle.
    pub open spec fn begins(self, h: u64) -> bool {
        self matches Event::Launch { launch, listening } && listening && launch.handle == h
    }

    /// Whether the event is a poll of a signal of the receiver with a handle.
    pub open spec fn polls(self, s: Signal, h: u64) -> bool {
        self matches Event::Poll { signal, handle, .. } && signal == s && handle == h
    }

    /// The items of a signal that the event holds for the receiver with a handle.
    pub open spec fn offered(self, s: Signal, h: u64) -> Seq<ItemView> {
        match self {
            Event::Request { handle, method, path, body: Some(bytes) } => if handle == h && routed(
                method,
                path,
            ) == Some(s) {
                match decoded(s, bytes) {
                    Some(request) => flat(request),
                    None => Seq::empty(),
                }
            } else {
                Seq::empty()
            },
            _ => Seq::empty(),
        }
    }
}

impl RegistryView {
    /// The registry after an event.
    pub open spec fn after(self, event: Event) -> RegistryView {
        match event {
            Event::Request { handle, method, path, body } => self.after_request(
                handle,
                method,
                path,
                body,
            ),
            Event::Poll { signal, handle, timeout_ms, elapsed_ms, resumed } => self.after_poll(
                signal,
                handle,
                timeout_ms,
                elapsed_ms,
                resumed,
            ),
            Event::Print { signal, handle } => self.after_print(signal, handle),
            Event::Reserve => self.after_reservation(),
            Event::Launch { launch, listening } => self.after_launch(launch, listening),
            Event::Stop { handle, resumed } => self.after_stop(handle, resumed),
        }
    }

    /// The registry after events, one after another.
    pub open spec fn after_all(self, events: Seq<Event>) -> RegistryView
        decreases events.len(),
    {
        if events.len() == 0 {
            self
        } else {
            self.after_all(events.drop_last()).after(events.last())
        }
    }

    /// The items of a signal that wait in a channel of the receiver with a handle.
    pub open spec fn waiting(self, signal: Signal, handle: u64, channel: int) -> Seq<ItemView> {
        self.taps[handle].path(signal).senders[channel]
    }

    /// Whether a handle stays in use over events, one after another, and for one receiver.
    pub open spec fn stays(self, events: Seq<Event>, h: u64) -> bool
        decreases events.len(),
    {
        self.after_all(events).known(h) && (events.len() > 0 ==> self.stays(events.drop_last(), h)
            && !events.last().begins(h))
    }

    /// The items of a signal that the receiver with a handle accepts of an event.
    pub open spec fn accepted(self, event: Event, s: Signal, h: u64) -> Seq<ItemView> {
        if self.serving(h) {
            event.offered(s, h)
        } else {
            Seq::empty()
        }
    }

    /// The items of a signal that the receiver with a handle accepts of events, one after another.
    pub open spec fn all_accepted(self, events: Seq<Event>, s: Signal, h: u64) -> Seq<ItemView>
        decreases events.len(),
    {
        if events.len() == 0 {
            Seq::empty()
        } else {
            self.all_accepted(events.drop_last(), s, h) + self.after_all(
                events.drop_last(),
            ).accepted(events.last(), s, h)
        }
    }

    /// Whether the receiver with a handle is known and has a channel with the given index.
    pub open spec fn has_channel(self, signal: Signal, handle: u64, channel: int) -> bool {
        self.known(handle) && 0 <= channel < self.taps[handle].path(signal).senders.len()
    }

    /// Whether a poll of a signal has to queue up behind another.
    pub open spec fn queued(self, signal: Signal, handle: u64, resumed: bool) -> bool {
        self.known(handle) && self.taps[handle].queued(signal, resumed)
    }

    /// The items that an event takes out of a channel.
    pub open spec fn taken(
        self,
        event: Event,
        s: Signal,
        h: u64,
        channel: int,
    ) -> Seq<ItemView> {
        match event {
            Event::Poll { resumed, .. } => if event.polls(s, h) && channel == POLLED && !self.queued(
                s,
                h,
                resumed,
            ) {
                match self.next_item(s, h) {
                    Some(item) => seq![item],
                    None => Seq::empty(),
                }
            } else {
                Seq::empty()
            },
            Event::Print { signal, handle } => if signal == s && handle == h && channel == PRINTED {
                self.waiting(s, h, channel)
            } else {
                Seq::empty()
            },
            _ => Seq::empty(),
        }
    }

    /// The items that events take out of a channel, one after another.
    pub open spec fn all_taken(
        self,
        events: Seq<Event>,
        s: Signal,
        h: u64,
        channel: int,
    ) -> Seq<ItemView>
        decreases events.len(),
    {
        if events.len() == 0 {
            Seq::empty()
        } else {
            self.all_taken(events.drop_last(), s, h, channel) + self.after_all(
                events.drop_last(),
            ).taken(events.last(), s, h, channel)
        }
    }
}

/// One event leaves what it takes out of a channel and what then waits there equal to what waited
/// there before and what it brings.
proof fn lemma_event_conserves_items(v: RegistryView, e: Event, s: Signal, h: u64, channel: int)
    requires
        v.has_channel(s, h, channel),
        channel == POLLED || channel == PRINTED,
        !e.begins(h),
        v.after(e).known(h),
    ensures
        v.after(e).has_channel(s, h, channel),
        v.taken(e, s, h, channel) + v.after(e).waiting(s, h, channel) == v.waiting(s, h, channel)
            + v.accepted(e, s, h),
{
    let before = v.waiting(s, h, channel);
    let after = v.after(e).waiting(s, h, channel);
    assert(before + Seq::<ItemView>::empty() =~= before);
    assert(Seq::<ItemView>::empty() + after =~= after);
    match e {
        Event::Poll { .. } => {
            if e.polls(s, h) && channel == POLLED && v.next_item(s, h) is Some {
                assert(seq![before[0]] + before.drop_first() =~= before);
            }
        },
        Event::Print { signal, handle } => {
            assert(before + Seq::<ItemView>::empty() =~= before);
        },
        _ => {},
    }
}

/// What is conserved over some steps, and over one more, is conserved over all of them.
proof fn lemma_steps_add_up(
    taken: Seq<ItemView>,
    last_taken: Seq<ItemView>,
    at_first: Seq<ItemView>,
    between: Seq<ItemView>,
    at_last: Seq<ItemView>,
    accepted: Seq<ItemView>,
    last_accepted: Seq<ItemView>,
)
    requires
        taken + between == at_first + accepted,
        last_taken + at_last == between + last_accepted,
    ensures
        (taken + last_taken) + at_last == at_first + (accepted + last_accepted),
{
    assert((taken + last_taken) + at_last =~= taken + (last_taken + at_last));
    assert(taken + (between + last_accepted) =~= (taken + between) + last_accepted);
    assert((at_first + accepted) + last_accepted =~= at_first + (accepted + last_accepted));
}

/// Nothing is lost, nothing is repeated and nothing is reordered: while a receiver runs or is being
/// stopped, whatever happens, the items that were taken out of a channel, followed by those that
/// still wait in it, are those that waited in it at first, followed by those that it accepted. That
/// holds of the channel that is polled and of the channel that is printed, for each signal on its
/// own.
pub proof fn law_items_are_conserved(
    v: RegistryView,
    events: Seq<Event>,
    s: Signal,
    h: u64,
    channel: int,
)
    requires
        v.has_channel(s, h, channel),
        channel == POLLED || channel == PRINTED,
        v.stays(events, h),
    ensures
        v.after_all(events).has_channel(s, h, channel),
        v.all_taken(events, s, h, channel) + v.after_all(events).waiting(s, h, channel)
            == v.waiting(s, h, channel) + v.all_accepted(events, s, h),
    decreases events.len(),
{
    if events.len() == 0 {
        assert(v.all_taken(events, s, h, channel) + v.waiting(s, h, channel) =~= v.waiting(
            s,
            h,
            channel,
        ) + v.all_accepted(events, s, h));
    } else {
        let first = events.drop_last();
        let mid = v.after_all(first);
        let e = events.last();
        law_items_are_conserved(v, first, s, h, channel);
        lemma_event_conserves_items(mid, e, s, h, channel);
        lemma_steps_add_up(
            v.all_taken(first, s, h, channel),
            mid.taken(e, s, h, channel),
            v.waiting(s, h, channel),
            mid.waiting(s, h, channel),
            mid.after(e).waiting(s, h, channel),
            v.all_accepted(first, s, h),
            mid.accepted(e, s, h),
        );
    }
}

/// Polls of a signal, one after another.
pub open spec fn polls(s: Signal, h: u64, n: nat) -> Seq<Event> {
    Seq::new(n, |i: int| (Event::Poll {
        signal: s,
        handle: h,
        timeout_ms: 0,
        elapsed_ms: 0,
        resumed: false,
    }))
}

/// After as many polls as there were items, or fewer, the items that were not polled yet wait.
proof fn lemma_polls_advance(v: RegistryView, s: Signal, h: u64, n: nat)
    requires
        v.has_channel(s, h, POLLED as int),
        !v.queued(s, h, false),
        n <= v.waiting(s, h, POLLED as int).len(),
    ensures
        v.after_all(polls(s, h, n)).has_channel(s, h, POLLED as int),
        !v.after_all(polls(s, h, n)).queued(s, h, false),
        v.after_all(polls(s, h, n)).waiting(s, h, POLLED as int) == v.waiting(
            s,
            h,
            POLLED as int,
        ).skip(n as int),
    decreases n,
{
    let queue = v.waiting(s, h, POLLED as int);
    if n == 0 {
        assert(queue.skip(0) =~= queue);
    } else {
        let less = (n - 1) as nat;
        lemma_polls_advance(v, s, h, less);
        assert(polls(s, h, n).drop_last() =~= polls(s, h, less));
        assert(queue.skip(less as int).drop_first() =~= queue.skip(n as int));
    }
}

/// What is polled is what was posted: after a request with items of a signal reaches a receiver
/// that takes requests, and while no other poll waits for such items, each poll for that signal
/// takes the next item, first those that waited before the request, then those of the request in
/// the order in which it holds them, until none is left.
pub proof fn law_polls_return_what_was_posted(
    v: RegistryView,
    s: Signal,
    h: u64,
    method: Seq<char>,
    path: Seq<char>,
    bytes: Seq<u8>,
    n: nat,
)
    requires
        v.serving(h),
        v.has_channel(s, h, POLLED as int),
        !v.queued(s, h, false),
        routed(method, path) == Some(s),
        decoded(s, bytes) is Some,
    ensures
        ({
            let items = v.waiting(s, h, POLLED as int) + flat(decoded(s, bytes)->Some_0);
            let posted = v.after_request(h, method, path, Some(bytes));
            n <= items.len() ==> posted.after_all(polls(s, h, n)).next_item(s, h) == if n
                < items.len() {
                Some(items[n as int])
            } else {
                None
            }
        }),
{
    let items = v.waiting(s, h, POLLED as int) + flat(decoded(s, bytes)->Some_0);
    let posted = v.after_request(h, method, path, Some(bytes));
    assert(posted.waiting(s, h, POLLED as int) == items);
    if n <= items.len() {
        lemma_polls_advance(posted, s, h, n);
    }
}

/// A poll whose turn it is takes the oldest item, if there is one, and lends the caller exactly that
/// item's message.
pub proof fn law_poll_lends_the_message(
    v: RegistryView,
    s: Signal,
    h: u64,
    timeout_ms: u64,
    elapsed_ms: u64,
    resumed: bool,
)
    requires
        v.next_item(s, h) is Some,
        !v.queued(s, h, resumed),
    ensures
        v.poll_step(s, h, timeout_ms, elapsed_ms, resumed, true) == (PollStep::Done {
            code: SUCCESS,
            len: Some(v.next_item(s, h)->Some_0.message.len() as usize),
        }),
        ({
            let after = v.after_poll(s, h, timeout_ms, elapsed_ms, resumed);
            &&& after.known(h)
            &&& after.taps[h].buf(s) == Some(v.next_item(s, h)->Some_0.message)
        }),
{
}

/// A message that was lent stays as it is until another item of the same signal is polled from the
/// same receiver, or the receiver is forgotten: no other event touches it, least of all a poll that
/// finds nothing.
pub proof fn law_lent_message_stays(v: RegistryView, e: Event, s: Signal, h: u64)
    requires
        v.known(h),
        !e.begins(h),
        v.after(e).known(h),
        e matches Event::Poll { signal, handle, resumed, .. } ==> signal != s || handle != h
            || v.next_item(s, h) is None || v.queued(s, h, resumed),
    ensures
        v.after(e).taps[h].buf(s) == v.taps[h].buf(s),
{
}

/// Receivers are independent: an event leaves every tap alone that it is not about.
pub proof fn law_handles_are_independent(v: RegistryView, e: Event, h: u64)
    requires
        !e.concerns(h),
    ensures
        v.after(e).known(h) == v.known(h),
        v.known(h) ==> v.after(e).taps[h] == v.taps[h],
{
}

/// Signals are independent: a request for one signal leaves the items and the lent messages of the
/// others alone.
pub proof fn law_requests_keep_to_their_signal(
    v: RegistryView,
    s: Signal,
    other: Signal,
    h: u64,
    method: Seq<char>,
    path: Seq<char>,
    body: Option<Seq<u8>>,
)
    requires
        v.known(h),
        s != other,
        routed(method, path) == Some(s),
    ensures
        v.after_request(h, method, path, body).taps[h].path(other) == v.taps[h].path(other),
        v.after_request(h, method, path, body).taps[h].buf(other) == v.taps[h].buf(other),
{
}

/// Signals are independent: polling or printing one signal leaves the items and the lent messages of
/// the others alone.
pub proof fn law_polls_keep_to_their_signal(
    v: RegistryView,
    s: Signal,
    other: Signal,
    h: u64,
    timeout_ms: u64,
    elapsed_ms: u64,
    resumed: bool,
)
    requires
        v.known(h),
        s != other,
    ensures
        ({
            let after = v.after_poll(s, h, timeout_ms, elapsed_ms, resumed);
            &&& after.taps[h].path(other) == v.taps[h].path(other)
            &&& after.taps[h].buf(other) == v.taps[h].buf(other)
        }),
        v.after_print(s, h).taps[h].path(other) == v.taps[h].path(other),
        v.after_print(s, h).taps[h].buf(other) == v.taps[h].buf(other),
{
}

/// A request is answered with status 200 if and only if it is a `POST` to a signal's path whose body
/// could be read and decoded. Any other request leaves the receiver as it was, and nothing is
/// re-emitted on its account.
pub proof fn law_refused_requests_change_nothing(
    r: ReceiverView,
    method: Seq<char>,
    path: Seq<char>,
    body: Option<Seq<u8>>,
)
    ensures
        r.request_outcome(method, path, body).response.status == OK <==> (routed(
            method,
            path,
        ) matches Some(s) && body matches Some(bytes) && decoded(s, bytes) is Some),
        r.request_outcome(method, path, body).response.status != OK ==> {
            &&& r.after_request(method, path, body) == r
            &&& r.request_outcome(method, path, body).reemission is None
        },
{
}

/// What is re-emitted is what was received, byte for byte, to the endpoint of the signal; and
/// whatever is accepted is re-emitted where the signal has an endpoint.
pub proof fn law_reemits_what_was_received(
    r: ReceiverView,
    method: Seq<char>,
    path: Seq<char>,
    body: Option<Seq<u8>>,
)
    ensures
        ({
            let handled = r.request_outcome(method, path, body);
            &&& handled.reemission matches Some(out) ==> {
                &&& body == Some(out.body)
                &&& routed(method, path) matches Some(s) && r.path(s).reemit_to == Some(
                    out.endpoint,
                )
            }
            &&& handled.response.status == OK ==> (handled.reemission is Some <==> r.path(
                routed(method, path)->Some_0,
            ).reemit_to is Some)
        }),
{
}

/// The answer depends on the request alone: neither what waits in the channels nor re-emission
/// changes it.
pub proof fn law_answer_depends_on_the_request(
    left: ReceiverView,
    right: ReceiverView,
    method: Seq<char>,
    path: Seq<char>,
    body: Option<Seq<u8>>,
)
    ensures
        left.request_outcome(method, path, body).response == right.request_outcome(
            method,
            path,
            body,
        ).response,
{
}

/// Every channel of a signal gets the same items in the same order, so that what is printed is what
/// is polled.
pub proof fn law_channels_get_the_same_items(
    v: RegistryView,
    e: Event,
    s: Signal,
    h: u64,
    channel: int,
)
    requires
        v.has_channel(s, h, channel),
        e is Request,
    ensures
        v.after(e).has_channel(s, h, channel),
        v.after(e).waiting(s, h, channel) == v.waiting(s, h, channel) + v.accepted(e, s, h),
{
    assert(v.waiting(s, h, channel) + Seq::<ItemView>::empty() =~= v.waiting(s, h, channel));
}

/// Stopping is final: the handle is unknown from then on, to polls and to another stop, and neither
/// changes anything.
pub proof fn law_stop_is_final(
    v: RegistryView,
    s: Signal,
    h: u64,
    resumed: bool,
    timeout_ms: u64,
    elapsed_ms: u64,
    again: bool,
)
    requires
        v.stop_step(h, resumed) matches StopStepView::Done(reply) && reply.code == SUCCESS,
    ensures
        ({
            let stopped = v.after_stop(h, resumed);
            &&& !stopped.known(h)
            &&& stopped.stop_step(h, again) == StopStepView::Done(nothing_to_stop())
            &&& stopped.after_stop(h, again) == stopped
            &&& stopped.poll_step(s, h, timeout_ms, elapsed_ms, again, true) == (PollStep::Done {
                code: UNKNOWN_HANDLE,
                len: None,
            })
            &&& stopped.after_poll(s, h, timeout_ms, elapsed_ms, again) == stopped
        }),
{
}

/// A call that stops a receiver succeeds at once where no poll waits for its items. Otherwise it
/// closes the receiver, leaves all that it holds where it is, and waits.
pub proof fn law_stop_waits_for_polls(v: RegistryView, h: u64)
    requires
        v.serving(h),
    ensures
        !v.taps[h].in_use() ==> v.stop_step(h, false) == StopStepView::Done(v.taps[h].stop_reply())
            && v.taps[h].stop_reply().code == SUCCESS && !v.after_stop(h, false).known(h),
        v.taps[h].in_use() ==> v.stop_step(h, false) is Wait && v.after_stop(h, false).known(h)
            && v.after_stop(h, false).taps[h] == (TapView { closed: true, ..v.taps[h] }),
{
}

/// A receiver is not forgotten while a poll waits for its items, whatever happens; and one that was
/// closed stays closed.
pub proof fn law_waiting_polls_keep_their_receiver(v: RegistryView, e: Event, h: u64)
    requires
        v.known(h),
        v.taps[h].in_use(),
        !e.begins(h),
    ensures
        v.after(e).known(h),
        v.taps[h].closed ==> v.after(e).taps[h].closed,
{
}

/// What a poll waits for is kept for it: once there is an item, nothing else that happens takes it
/// away, neither another poll nor a call to stop the receiver, until the poll that waits goes on.
pub proof fn law_awaited_items_are_kept(v: RegistryView, events: Seq<Event>, s: Signal, h: u64)
    requires
        v.known(h),
        v.taps[h].awaited(s),
        v.next_item(s, h) is Some,
        forall|i: int|
            0 <= i < events.len() ==> !(#[trigger] events[i]).begins(h) && !(
            events[i] matches Event::Poll { resumed, .. } && events[i].polls(s, h) && resumed),
    ensures
        v.after_all(events).known(h),
        v.after_all(events).taps[h].awaited(s),
        v.after_all(events).next_item(s, h) == v.next_item(s, h),
    decreases events.len(),
{
    if events.len() > 0 {
        let first = events.drop_last();
        assert forall|i: int| 0 <= i < first.len() implies !(#[trigger] first[i]).begins(h) && !(
        first[i] matches Event::Poll { resumed, .. } && first[i].polls(s, h) && resumed) by {
            assert(first[i] == events[i]);
        }
        law_awaited_items_are_kept(v, first, s, h);
        assert(events.last() == events[events.len() - 1]);
    }
}

/// An item that arrived while a poll was waiting is handed out by that poll, even if a call to stop
/// the receiver comes before the poll goes on.
pub proof fn law_waiting_poll_gets_its_item(
    v: RegistryView,
    s: Signal,
    h: u64,
    timeout_ms: u64,
    elapsed_ms: u64,
    stopping: bool,
)
    requires
        v.known(h),
        v.taps[h].awaited(s),
        v.next_item(s, h) is Some,
    ensures
        ({
            let item = v.next_item(s, h)->Some_0;
            let closed = v.after_stop(h, stopping);
            &&& closed.poll_step(s, h, timeout_ms, elapsed_ms, true, true) == (PollStep::Done {
                code: SUCCESS,
                len: Some(item.message.len() as usize),
            })
            &&& closed.after_poll(s, h, timeout_ms, elapsed_ms, true).taps[h].buf(s) == Some(
                item.message,
            )
        }),
{
}

/// One poll of a signal waits at a time: while it does, another that comes has to queue up, changes
/// nothing, and ends without an item once its time is up.
pub proof fn law_polls_queue_up(
    v: RegistryView,
    s: Signal,
    h: u64,
    timeout_ms: u64,
    elapsed_ms: u64,
)
    requires
        v.known(h),
        v.taps[h].awaited(s),
    ensures
        v.poll_step(s, h, timeout_ms, elapsed_ms, false, true) == if elapsed_ms >= timeout_ms {
            PollStep::Done { code: SUCCESS, len: None }
        } else {
            PollStep::Queue { remaining_ms: (timeout_ms - elapsed_ms) as u64 }
        },
        v.after_poll(s, h, timeout_ms, elapsed_ms, false) == v,
{
    assert(v.after_poll(s, h, timeout_ms, elapsed_ms, false).taps =~= v.taps);
}

/// A poll waits for items from the call that tells it to wait until the one that ends it.
pub proof fn law_polls_that_wait_are_noted(
    v: RegistryView,
    s: Signal,
    h: u64,
    timeout_ms: u64,
    elapsed_ms: u64,
    resumed: bool,
)
    requires
        v.known(h),
        !v.queued(s, h, resumed),
    ensures
        v.after_poll(s, h, timeout_ms, elapsed_ms, resumed).taps[h].awaited(s) <==> v.poll_step(
            s,
            h,
            timeout_ms,
            elapsed_ms,
            resumed,
            true,
        ) is Wait,
{
}

/// A closed receiver takes no more requests, and no poll waits for its items any longer.
pub proof fn law_closed_receivers_wind_down(
    v: RegistryView,
    e: Event,
    s: Signal,
    h: u64,
    timeout_ms: u64,
    elapsed_ms: u64,
    resumed: bool,
)
    requires
        v.known(h),
        v.taps[h].closed,
        !e.begins(h),
    ensures
        e is Request && e.concerns(h) ==> v.after(e) == v,
        !v.queued(s, h, resumed) ==> (v.poll_step(
            s,
            h,
            timeout_ms,
            elapsed_ms,
            resumed,
            true,
        ) matches PollStep::Done { code, len } && code == SUCCESS && (len is Some <==> v.next_item(
            s,
            h,
        ) is Some)),
        v.after(e).known(h) && v.after(e).taps[h].awaited(s) ==> v.taps[h].awaited(s),
{
}

/// A call that waits to stop a receiver can go on: each poll that it waits for ends when it goes on,
/// and once none is left the call succeeds.
pub proof fn law_stop_ends(
    v: RegistryView,
    s: Signal,
    other: Signal,
    h: u64,
    timeout_ms: u64,
    elapsed_ms: u64,
)
    requires
        v.known(h),
        v.taps[h].closed,
    ensures
        ({
            let after = v.after_poll(s, h, timeout_ms, elapsed_ms, true);
            &&& after.known(h) && after.taps[h].closed
            &&& after.taps[h].awaited(other) <==> s != other && v.taps[h].awaited(other)
        }),
        (forall|x: Signal| !#[trigger] v.taps[h].awaited(x)) ==> (v.stop_step(
            h,
            true,
        ) matches StopStepView::Done(reply) && reply.code == SUCCESS),
        v.taps[h].awaited(s) ==> v.stop_step(h, true) is Wait,
{
    assert((forall|x: Signal| !#[trigger] v.taps[h].awaited(x)) ==> !v.taps[h].in_use()) by {
        assert(v.taps[h].awaited(Signal::Traces) == v.taps[h].trace_awaited);
        assert(v.taps[h].awaited(Signal::Logs) == v.taps[h].log_awaited);
        assert(v.taps[h].awaited(Signal::Metrics) == v.taps[h].metric_awaited);
    }
}

/// Only one call stops a receiver: another that comes while the first waits finds nothing to stop.
pub proof fn law_one_call_stops(v: RegistryView, h: u64)
    requires
        v.known(h),
        v.taps[h].closed,
    ensures
        v.stop_step(h, false) == StopStepView::Done(nothing_to_stop()),
        v.after_stop(h, false) == v,
{
}

/// Whatever a receiver accepts of a signal that it prints is printed, in order and once: the lines
/// that were printed until it is forgotten, followed by those that are handed out then, are the
/// lines of what waited at first and of all that it accepted.
pub proof fn law_everything_accepted_is_printed(
    v: RegistryView,
    events: Seq<Event>,
    s: Signal,
    h: u64,
    resumed: bool,
)
    requires
        v.has_channel(s, h, PRINTED as int),
        v.stays(events, h),
        v.after_all(events).stop_step(h, resumed) matches StopStepView::Done(reply) && reply.code
            == SUCCESS,
    ensures
        all_printed(v.all_taken(events, s, h, PRINTED as int)) + v.after_all(events).stop_step(
            h,
            resumed,
        )->Done_0.lines(s) == all_printed(
            v.waiting(s, h, PRINTED as int) + v.all_accepted(events, s, h),
        ),
{
    law_items_are_conserved(v, events, s, h, PRINTED as int);
    let taken = v.all_taken(events, s, h, PRINTED as int);
    let left = v.after_all(events).waiting(s, h, PRINTED as int);
    assert(all_printed(taken) + all_printed(left) =~= all_printed(taken + left));
}

/// The codes tell success from failure: a poll returns 0 or a negative code, and hands out an item
/// only with 0.
pub proof fn law_poll_codes(
    v: RegistryView,
    s: Signal,
    h: u64,
    timeout_ms: u64,
    elapsed_ms: u64,
    resumed: bool,
    has_outputs: bool,
)
    ensures
        v.poll_step(s, h, timeout_ms, elapsed_ms, resumed, has_outputs) matches PollStep::Done {
            code,
            len,
        } ==> code <= 0 && (len is Some ==> code == SUCCESS),
{
}

/// A poll blocks for no longer than its time: once that is up it ends at once, whatever else goes on,
/// and before that it is never told to wait past it, neither for an item nor for its turn. A poll
/// whose turn it is ends at once where there is an item.
pub proof fn law_polls_end(
    v: RegistryView,
    s: Signal,
    h: u64,
    timeout_ms: u64,
    elapsed_ms: u64,
    resumed: bool,
    has_outputs: bool,
)
    ensures
        elapsed_ms >= timeout_ms ==> v.poll_step(
            s,
            h,
            timeout_ms,
            elapsed_ms,
            resumed,
            has_outputs,
        ) is Done,
        !v.queued(s, h, resumed) && v.next_item(s, h) is Some ==> v.poll_step(
            s,
            h,
            timeout_ms,
            elapsed_ms,
            resumed,
            has_outputs,
        ) is Done,
        v.poll_step(s, h, timeout_ms, elapsed_ms, resumed, has_outputs) matches PollStep::Wait {
            remaining_ms,
        } ==> elapsed_ms + remaining_ms == timeout_ms,
        v.poll_step(s, h, timeout_ms, elapsed_ms, resumed, has_outputs) matches PollStep::Queue {
            remaining_ms,
        } ==> elapsed_ms + remaining_ms == timeout_ms,
{
}

impl ReceiverView {
    /// Each signal has a channel that can be polled.
    pub open spec fn pollable(self) -> bool {
        forall|s: Signal| (#[trigger] self.path(s)).senders.len() > POLLED
    }
}

impl RegistryView {
    /// Each known receiver has a channel that can be polled, for each signal.
    pub open spec fn pollable(self) -> bool {
        forall|h: u64| #[trigger] self.known(h) ==> self.taps[h].receiver.pollable()
    }

    /// All handles in use were set aside before.
    pub open spec fn issued(self) -> bool {
        forall|h: u64| #[trigger] self.known(h) ==> h < self.next_handle
    }
}

/// A call with valid arguments starts a receiver if and only if each endpoint that it names is an
/// absolute URL for which a client could be built, and the call comes from outside any async
/// context. The receiver listens where the flags and the port say, re-emits each signal to the URL
/// that its own endpoint denotes, and only where it has one, prints the signals that the flags name,
/// has each signal ready to be polled, and holds no items.
pub proof fn law_start_honours_its_arguments(
    port: u16,
    flags: u32,
    traces_to: Option<Seq<char>>,
    logs_to: Option<Seq<char>>,
    metrics_to: Option<Seq<char>>,
    c: Conditions,
)
    ensures
        ({
            let outcome = requested_receiver(port, flags, traces_to, logs_to, metrics_to, c);
            &&& outcome is Ok <==> !c.in_async_context && (traces_to matches Some(text)
                ==> parsed_url(text) is Ok && c.traces_client) && (logs_to matches Some(text)
                ==> parsed_url(text) is Ok && c.logs_client) && (metrics_to matches Some(text)
                ==> parsed_url(text) is Ok && c.metrics_client)
            &&& outcome matches Ok(r) ==> {
                &&& r.host == listen_address(flags)
                &&& r.port == port
                &&& r.traces.reemit_to is Some <==> traces_to is Some
                &&& r.logs.reemit_to is Some <==> logs_to is Some
                &&& r.metrics.reemit_to is Some <==> metrics_to is Some
                &&& traces_to matches Some(text) ==> parsed_url(text) == Ok::<
                    Seq<char>,
                    Seq<char>,
                >(r.traces.reemit_to->Some_0)
                &&& logs_to matches Some(text) ==> parsed_url(text) == Ok::<Seq<char>, Seq<char>>(
                    r.logs.reemit_to->Some_0,
                )
                &&& metrics_to matches Some(text) ==> parsed_url(text) == Ok::<
                    Seq<char>,
                    Seq<char>,
                >(r.metrics.reemit_to->Some_0)
                &&& r.host == if (flags / 256) % 2 == 1 {
                    seq![0u8, 0, 0, 0]
                } else {
                    seq![127u8, 0, 0, 1]
                }
                &&& r.traces.senders.len() == 1 + flags % 2
                &&& r.logs.senders.len() == 1 + (flags / 2) % 2
                &&& r.metrics.senders.len() == 1 + (flags / 4) % 2
                &&& (r.traces.senders.len() > PRINTED) == flag_set(
                    flags,
                    OTELTAP_PRINT_TRACES_AS_NDJSON,
                )
                &&& (r.logs.senders.len() > PRINTED) == flag_set(
                    flags,
                    OTELTAP_PRINT_LOGS_AS_NDJSON,
                )
                &&& (r.metrics.senders.len() > PRINTED) == flag_set(
                    flags,
                    OTELTAP_PRINT_METRICS_AS_NDJSON,
                )
                &&& r.pollable()
                &&& forall|s: Signal, channel: int|
                    0 <= channel < r.path(s).senders.len() ==> (#[trigger] r.path(
                        s,
                    ).senders[channel]).len() == 0
            }
        }),
{
    law_flags_are_binary_digits(flags);
}

/// Bits without a meaning are ignored: flags that agree on the four bits that have one ask for the
/// same receiver.
pub proof fn law_reserved_flags_are_ignored(
    port: u16,
    left: u32,
    right: u32,
    traces_to: Option<Seq<char>>,
    logs_to: Option<Seq<char>>,
    metrics_to: Option<Seq<char>>,
    c: Conditions,
)
    requires
        flag_set(left, OTELTAP_PRINT_TRACES_AS_NDJSON) == flag_set(
            right,
            OTELTAP_PRINT_TRACES_AS_NDJSON,
        ),
        flag_set(left, OTELTAP_PRINT_LOGS_AS_NDJSON) == flag_set(
            right,
            OTELTAP_PRINT_LOGS_AS_NDJSON,
        ),
        flag_set(left, OTELTAP_PRINT_METRICS_AS_NDJSON) == flag_set(
            right,
            OTELTAP_PRINT_METRICS_AS_NDJSON,
        ),
        flag_set(left, OTELTAP_LISTEN_ON_ALL_INTERFACES) == flag_set(
            right,
            OTELTAP_LISTEN_ON_ALL_INTERFACES,
        ),
    ensures
        requested_receiver(port, left, traces_to, logs_to, metrics_to, c) == requested_receiver(
            port,
            right,
            traces_to,
            logs_to,
            metrics_to,
            c,
        ),
{
}

/// An event leaves the number of channels of a signal as it is.
proof fn lemma_event_keeps_channels(v: RegistryView, e: Event, s: Signal, h: u64)
    requires
        v.known(h),
        v.after(e).known(h),
        !e.begins(h),
    ensures
        v.after(e).taps[h].path(s).senders.len() == v.taps[h].path(s).senders.len(),
{
    if e.concerns(h) {
        match e {
            Event::Request { .. } => {},
            Event::Poll { .. } => {},
            Event::Print { .. } => {},
            _ => {},
        }
    }
}

/// An event keeps every receiver pollable.
proof fn lemma_event_keeps_pollable(v: RegistryView, e: Event)
    requires
        v.pollable(),
        e matches Event::Launch { launch, listening } ==> launch.receiver.pollable(),
    ensures
        v.after(e).pollable(),
{
    let after = v.after(e);
    assert forall|h: u64| #[trigger] after.known(h) implies after.taps[h].receiver.pollable() by {
        if !e.begins(h) {
            assert(v.known(h));
            assert forall|s: Signal| (#[trigger] after.taps[h].receiver.path(s)).senders.len()
                > POLLED by {
                lemma_event_keeps_channels(v, e, s, h);
                assert(v.taps[h].receiver.path(s).senders.len() > POLLED);
            }
        }
    }
}

/// Every known receiver can be polled for every signal, whatever has happened, as long as only
/// receivers were launched that can be.
pub proof fn law_known_receivers_are_pollable(events: Seq<Event>)
    requires
        forall|i: int|
            0 <= i < events.len() ==> (#[trigger] events[i] matches Event::Launch {
                launch,
                listening,
            } ==> launch.receiver.pollable()),
    ensures
        RegistryView::initial().after_all(events).pollable(),
    decreases events.len(),
{
    if events.len() > 0 {
        let first = events.drop_last();
        assert forall|i: int| 0 <= i < first.len() implies (#[trigger] first[i] matches Event::Launch {
            launch,
            listening,
        } ==> launch.receiver.pollable()) by {
            assert(first[i] == events[i]);
        }
        law_known_receivers_are_pollable(first);
        assert(events.last() == events[events.len() - 1]);
        lemma_event_keeps_pollable(RegistryView::initial().after_all(first), events.last());
    }
}

/// A start that fails leaves every tap as it was.
pub proof fn law_failed_start_leaves_no_tap(v: RegistryView, launch: LaunchView)
    ensures
        v.after_reservation().taps == v.taps,
        v.after_launch(launch, false) == v,
{
}

/// How many of the events set a handle aside.
pub open spec fn reservations(events: Seq<Event>) -> nat
    decreases events.len(),
{
    if events.len() == 0 {
        0
    } else {
        reservations(events.drop_last()) + if events.last() is Reserve {
            1nat
        } else {
            0nat
        }
    }
}

/// An event keeps all handles in use issued.
proof fn lemma_event_keeps_issued(v: RegistryView, e: Event)
    requires
        v.issued(),
        e is Reserve ==> v.next_handle < u64::MAX,
        e matches Event::Launch { launch, listening } ==> launch.handle < v.next_handle,
    ensures
        v.after(e).issued(),
        v.after(e).next_handle == v.next_handle + if e is Reserve {
            1int
        } else {
            0int
        },
{
    assert forall|h: u64| #[trigger] v.after(e).known(h) implies h < v.after(e).next_handle by {
        if !v.known(h) {
            assert(e matches Event::Launch { launch, listening } && launch.handle == h);
        }
    }
}

/// Whether each launch is of a handle that was set aside before.
pub open spec fn launches_are_reserved(events: Seq<Event>) -> bool {
    forall|i: int|
        0 <= i < events.len() ==> (#[trigger] events[i] matches Event::Launch { launch, listening }
            ==> launch.handle < RegistryView::initial().after_all(events.take(i)).next_handle)
}

/// The handle that a start sets aside is in use by no receiver, whatever has happened, as long as
/// only handles that were set aside were launched and the handles did not start over.
pub proof fn law_new_handles_are_unused(events: Seq<Event>)
    requires
        launches_are_reserved(events),
        RegistryView::initial().next_handle + reservations(events) <= u64::MAX,
    ensures
        ({
            let v = RegistryView::initial().after_all(events);
            &&& v.issued()
            &&& !v.known(v.next_handle)
            &&& v.next_handle == RegistryView::initial().next_handle + reservations(events)
        }),
    decreases events.len(),
{
    if events.len() > 0 {
        let first = events.drop_last();
        let last = events.len() - 1;
        assert forall|i: int| 0 <= i < first.len() implies (#[trigger] first[i] matches Event::Launch {
            launch,
            listening,
        } ==> launch.handle < RegistryView::initial().after_all(first.take(i)).next_handle) by {
            assert(first[i] == events[i]);
            assert(first.take(i) =~= events.take(i));
        }
        law_new_handles_are_unused(first);
        assert(events.last() == events[last]);
        assert(events.take(last) =~= first);
        lemma_event_keeps_issued(RegistryView::initial().after_all(first), events.last());
    }
}

/// A handle that was set aside is never set aside again, whatever happens, as long as the handles
/// do not start over.
pub proof fn law_handles_are_not_reused(v: RegistryView, events: Seq<Event>, h: u64)
    requires
        h < v.next_handle,
        v.next_handle + reservations(events) <= u64::MAX,
    ensures
        h < v.after_all(events).next_handle,
        v.after_all(events).next_handle == v.next_handle + reservations(events),
    decreases events.len(),
{
    if events.len() > 0 {
        law_handles_are_not_reused(v, events.drop_last(), h);
    }
}

/// An event that holds only items that print as single lines leaves only such items.
pub proof fn law_events_keep_single_lines(v: RegistryView, e: Event)
    requires
        v.single_lines(),
        forall|s: Signal, h: u64, i: int|
            0 <= i < e.offered(s, h).len() ==> one_line(#[trigger] e.offered(s, h)[i]),
        e matches Event::Launch { launch, listening } ==> launch.receiver.single_lines(),
    ensures
        v.after(e).single_lines(),
{
    match e {
        Event::Request { handle, .. } => {
            assert forall|h: u64| #[trigger] v.after(e).known(h) implies v.after(
                e,
            ).taps[h].receiver.single_lines() by {
                assert(v.known(h));
                lemma_path_stays_single_lines(v, e, Signal::Traces, h);
                lemma_path_stays_single_lines(v, e, Signal::Logs, h);
                lemma_path_stays_single_lines(v, e, Signal::Metrics, h);
            }
        },
        Event::Poll { signal, handle, timeout_ms, elapsed_ms, resumed } => {
            law_polls_keep_single_lines(v, signal, handle, timeout_ms, elapsed_ms, resumed);
        },
        Event::Print { signal, handle } => {
            law_printing_keeps_single_lines(v, signal, handle);
        },
        Event::Reserve => {
            law_reservations_keep_single_lines(v);
        },
        Event::Launch { launch, listening } => {
            law_launches_keep_single_lines(v, launch, listening);
        },
        Event::Stop { handle, resumed } => {
            law_stopping_keeps_single_lines(v, handle, resumed);
        },
    }
}

/// All that waits in the channels prints as single lines, whatever has happened, as long as what
/// requests hold, and what launched receivers held, does.
pub proof fn law_items_stay_single_lines(events: Seq<Event>)
    requires
        forall|k: int, s: Signal, h: u64, i: int|
            #![trigger events[k].offered(s, h)[i]]
            0 <= k < events.len() && 0 <= i < events[k].offered(s, h).len() ==> one_line(
                events[k].offered(s, h)[i],
            ),
        forall|k: int|
            0 <= k < events.len() ==> (#[trigger] events[k] matches Event::Launch {
                launch,
                listening,
            } ==> launch.receiver.single_lines()),
    ensures
        RegistryView::initial().after_all(events).single_lines(),
    decreases events.len(),
{
    if events.len() > 0 {
        let first = events.drop_last();
        assert forall|k: int, s: Signal, h: u64, i: int|
            #![trigger first[k].offered(s, h)[i]]
            0 <= k < first.len() && 0 <= i < first[k].offered(s, h).len() implies one_line(
            first[k].offered(s, h)[i],
        ) by {
            assert(one_line(events[k].offered(s, h)[i]));
        }
        assert forall|k: int| 0 <= k < first.len() implies (#[trigger] first[k] matches Event::Launch {
            launch,
            listening,
        } ==> launch.receiver.single_lines()) by {
            assert(first[k] == events[k]);
        }
        law_items_stay_single_lines(first);
        let e = events.last();
        assert(e == events[events.len() - 1]);
        assert forall|s: Signal, h: u64, i: int| 0 <= i < e.offered(s, h).len() implies one_line(
            #[trigger] e.offered(s, h)[i],
        ) by {
            assert(one_line(events[events.len() - 1].offered(s, h)[i]));
        }
        law_events_keep_single_lines(RegistryView::initial().after_all(first), e);
    }
}

/// A request that holds only items of a signal that print as single lines leaves only such items.
proof fn lemma_path_stays_single_lines(v: RegistryView, e: Event, s: Signal, h: u64)
    requires
        v.known(h),
        v.taps[h].path(s).single_lines(),
        e is Request,
        forall|i: int| 0 <= i < e.offered(s, h).len() ==> one_line(#[trigger] e.offered(s, h)[i]),
    ensures
        v.after(e).taps[h].path(s).single_lines(),
{
    let before = v.taps[h].path(s);
    let after = v.after(e).taps[h].path(s);
    assert forall|c: int, i: int|
        0 <= c < after.senders.len() && 0 <= i < after.senders[c].len() implies one_line(
        #[trigger] after.senders[c][i],
    ) by {
        law_channels_get_the_same_items(v, e, s, h, c);
        if i < before.senders[c].len() {
            assert(one_line(before.senders[c][i]));
        } else {
            assert(one_line(e.offered(s, h)[i - before.senders[c].len()]));
        }
    }
}

/// What is printed is newline-delimited JSON: each item takes exactly one line, an item that has
/// a JSON form is printed on the standard output as just that, and no line there holds a line feed.
pub proof fn law_prints_one_line_per_item(v: RegistryView, s: Signal, h: u64)
    requires
        v.single_lines(),
        v.has_channel(s, h, PRINTED as int),
    ensures
        ({
            let items = v.waiting(s, h, PRINTED as int);
            let lines = v.taps[h].path(s).pending(PRINTED as int);
            &&& lines.len() == items.len()
            &&& forall|i: int|
                0 <= i < lines.len() ==> (#[trigger] lines[i] matches OutputLineView::Stdout(text)
                    ==> items[i].json == Ok::<Seq<char>, Seq<char>>(text) && !text.contains('\n'))
            &&& forall|i: int|
                0 <= i < items.len() ==> ((#[trigger] items[i]).json matches Ok(text) ==> lines[i]
                    == OutputLineView::Stdout(text))
        }),
{
    let path = v.taps[h].path(s);
    assert(v.taps[h].receiver.single_lines());
    assert forall|i: int| 0 <= i < path.pending(PRINTED as int).len() implies (
    #[trigger] path.pending(PRINTED as int)[i] matches OutputLineView::Stdout(text)
        ==> path.senders[PRINTED as int][i].json == Ok::<Seq<char>, Seq<char>>(text)
        && !text.contains('\n')) by {
        assert(one_line(path.senders[PRINTED as int][i]));
    }
}

/// The items in one of some channels, or none where there is no such channel.
pub open spec fn channel_items(channels: Seq<Seq<ItemView>>, index: int) -> Seq<ItemView> {
    if index < channels.len() {
        channels[index]
    } else {
        Seq::empty()
    }
}

impl TapView {
    /// The channels of a signal.
    pub open spec fn channels(self, s: Signal) -> Seq<Seq<ItemView>> {
        match s {
            Signal::Traces => self.receiver.traces.senders,
            Signal::Logs => self.receiver.logs.senders,
            Signal::Metrics => self.receiver.metrics.senders,
        }
    }

    /// The items of a signal that wait to be polled.
    pub open spec fn to_poll(self, s: Signal) -> Seq<ItemView> {
        channel_items(self.channels(s), 0)
    }

    /// The items of a signal that wait to be printed.
    pub open spec fn to_print(self, s: Signal) -> Seq<ItemView> {
        channel_items(self.channels(s), 1)
    }

    /// Whether it is the turn of a poll of a signal: it has been told to wait, or no other has been.
    pub open spec fn has_turn(self, s: Signal, resumed: bool) -> bool {
        resumed || match s {
            Signal::Traces => !self.trace_awaited,
            Signal::Logs => !self.log_awaited,
            Signal::Metrics => !self.metric_awaited,
        }
    }
}

impl RegistryView {
    /// The registry with one tap replaced and nothing else changed.
    pub open spec fn with_one(self, h: u64, tap: TapView) -> RegistryView {
        RegistryView { next_handle: self.next_handle, taps: self.taps.insert(h, tap) }
    }
}

/// Whether lines show items: one line each, in order, with the JSON form of an item that has one on
/// the standard output, and the reason why another has none on the standard error.
pub open spec fn lines_show(lines: Seq<OutputLineView>, items: Seq<ItemView>) -> bool {
    &&& lines.len() == items.len()
    &&& forall|i: int|
        0 <= i < items.len() ==> ((#[trigger] items[i]).json matches Ok(text) ==> lines[i]
            == OutputLineView::Stdout(text))
    &&& forall|i: int|
        0 <= i < items.len() ==> ((#[trigger] items[i]).json matches Err(reason) ==> lines[i]
            == OutputLineView::Stderr("Failed to serialize span to JSON: "@ + reason))
}

/// The lines that are pending in a channel show its items.
proof fn lemma_pending_lines_show_items(path: PathView, index: int)
    requires
        0 <= index,
    ensures
        lines_show(path.pending(index), channel_items(path.senders, index)),
{
    let lines = path.pending(index);
    let items = channel_items(path.senders, index);
    law_printing_takes_everything(path, index, 0, 0);
    assert forall|i: int| 0 <= i < items.len() implies ((#[trigger] items[i]).json matches Ok(text)
        ==> lines[i] == OutputLineView::Stdout(text)) by {
        law_printing_takes_everything(path, index, 0, i);
    }
    assert forall|i: int| 0 <= i < items.len() implies ((#[trigger] items[i]).json matches Err(
        reason,
    ) ==> lines[i] == OutputLineView::Stderr("Failed to serialize span to JSON: "@ + reason)) by {
        law_printing_takes_everything(path, index, 0, i);
    }
}

/// A tap keeps what belongs to a signal apart from what belongs to the others.
pub proof fn law_each_signal_has_its_state(tap: TapView, message: Seq<u8>, awaited: bool)
    ensures
        tap.path(Signal::Traces) == tap.receiver.traces,
        tap.path(Signal::Logs) == tap.receiver.logs,
        tap.path(Signal::Metrics) == tap.receiver.metrics,
        tap.buf(Signal::Traces) == tap.trace_buf,
        tap.buf(Signal::Logs) == tap.log_buf,
        tap.buf(Signal::Metrics) == tap.metric_buf,
        tap.with_buf(Signal::Traces, message) == (TapView { trace_buf: Some(message), ..tap }),
        tap.with_buf(Signal::Logs, message) == (TapView { log_buf: Some(message), ..tap }),
        tap.with_buf(Signal::Metrics, message) == (TapView { metric_buf: Some(message), ..tap }),
        tap.awaited(Signal::Traces) == tap.trace_awaited,
        tap.awaited(Signal::Logs) == tap.log_awaited,
        tap.awaited(Signal::Metrics) == tap.metric_awaited,
        tap.with_awaited(Signal::Traces, awaited) == (TapView { trace_awaited: awaited, ..tap }),
        tap.with_awaited(Signal::Logs, awaited) == (TapView { log_awaited: awaited, ..tap }),
        tap.with_awaited(Signal::Metrics, awaited) == (TapView { metric_awaited: awaited, ..tap }),
{
}

/// A handle is known exactly while there is a tap for it, and serves exactly while that tap is not
/// closed. What a poll of it can take is the oldest item that waits, and what it lends is the message
/// that was polled last.
pub proof fn law_handles_stand_for_taps(v: RegistryView, s: Signal, h: u64, len: nat)
    ensures
        v.known(h) <==> v.taps.contains_key(h),
        v.serving(h) <==> v.taps.contains_key(h) && !v.taps[h].closed,
        v.next_item(s, h) is Some <==> v.taps.contains_key(h) && v.taps[h].to_poll(s).len() > 0,
        v.next_item(s, h) matches Some(item) ==> item == v.taps[h].to_poll(s)[0],
        v.lends(s, h, len) ==> v.taps.contains_key(h) && v.taps[h].buf(s) is Some
            && v.taps[h].buf(s)->Some_0.len() == len,
{
}

/// A poll waits: one of a receiver that runs, whose turn it is, that finds no item and whose time is
/// not up yet, does not end, but waits for all of the time that is left. That holds of every signal
/// and of every timeout.
pub proof fn law_polls_wait_for_items(
    v: RegistryView,
    s: Signal,
    h: u64,
    timeout_ms: u64,
    elapsed_ms: u64,
    resumed: bool,
)
    requires
        v.taps.contains_key(h),
        !v.taps[h].closed,
        v.taps[h].has_turn(s, resumed),
        v.taps[h].to_poll(s).len() == 0,
        elapsed_ms < timeout_ms,
    ensures
        v.poll_step(s, h, timeout_ms, elapsed_ms, resumed, true) matches PollStep::Wait {
            remaining_ms,
        } && remaining_ms == timeout_ms - elapsed_ms,
{
}

/// A poll whose turn it is hands out the oldest item, if there is one, at once and whole: whatever its
/// timeout is and however much of it has passed, and also while the receiver is being stopped.
pub proof fn law_polls_hand_out_items(
    v: RegistryView,
    s: Signal,
    h: u64,
    timeout_ms: u64,
    elapsed_ms: u64,
    resumed: bool,
)
    requires
        v.taps.contains_key(h),
        v.taps[h].has_turn(s, resumed),
        v.taps[h].to_poll(s).len() > 0,
    ensures
        v.poll_step(s, h, timeout_ms, elapsed_ms, resumed, true) == (PollStep::Done {
            code: 0,
            len: Some(v.taps[h].to_poll(s)[0].message.len() as usize),
        }),
{
}

/// A poll that hands out no item ends with success only where it has to: its time is up, or the
/// receiver is being stopped and holds no item for it.
pub proof fn law_polls_end_without_an_item(
    v: RegistryView,
    s: Signal,
    h: u64,
    timeout_ms: u64,
    elapsed_ms: u64,
    resumed: bool,
)
    requires
        v.taps.contains_key(h),
    ensures
        v.poll_step(s, h, timeout_ms, elapsed_ms, resumed, true) == (PollStep::Done {
            code: 0,
            len: None,
        }) <==> if v.taps[h].has_turn(s, resumed) {
            v.taps[h].to_poll(s).len() == 0 && (v.taps[h].closed || elapsed_ms >= timeout_ms)
        } else {
            elapsed_ms >= timeout_ms
        },
        v.poll_step(s, h, timeout_ms, elapsed_ms, resumed, true) is Queue <==> !v.taps[h].has_turn(
            s,
            resumed,
        ) && elapsed_ms < timeout_ms,
{
}

/// A poll without valid outputs, or of a handle that stands for no tap, ends at once with the code for
/// that, and the latter changes nothing.
pub proof fn law_polls_check_their_arguments(
    v: RegistryView,
    s: Signal,
    h: u64,
    timeout_ms: u64,
    elapsed_ms: u64,
    resumed: bool,
)
    ensures
        v.poll_step(s, h, timeout_ms, elapsed_ms, resumed, false) matches PollStep::Done {
            code,
            len,
        } && code == -3 && len is None,
        !v.taps.contains_key(h) ==> (v.poll_step(
            s,
            h,
            timeout_ms,
            elapsed_ms,
            resumed,
            true,
        ) matches PollStep::Done { code, len } && code == -2 && len is None),
        !v.taps.contains_key(h) ==> v.after_poll(s, h, timeout_ms, elapsed_ms, resumed) == v,
{
}

/// What a poll changes: where it is its turn and there is an item, the oldest one leaves its channel
/// and its message is lent; where there is none, it is noted whether the poll waits; and where it is
/// not its turn, nothing. All else stays as it is: the other channels and signals, the endpoints, the
/// other taps, and the next handle.
pub proof fn law_what_polls_change(
    v: RegistryView,
    s: Signal,
    h: u64,
    timeout_ms: u64,
    elapsed_ms: u64,
    resumed: bool,
)
    requires
        v.taps.contains_key(h),
    ensures
        ({
            let tap = v.taps[h];
            let after = v.after_poll(s, h, timeout_ms, elapsed_ms, resumed);
            !tap.has_turn(s, resumed) ==> after == v
        }),
        ({
            let tap = v.taps[h];
            let items = tap.to_poll(s);
            let turn = tap.has_turn(s, resumed);
            let after = v.after_poll(s, h, timeout_ms, elapsed_ms, resumed);
            match s {
            Signal::Traces => {
                let p = tap.receiver.traces;
                &&& turn && items.len() > 0 ==> after == v.with_one(
                    h,
                    TapView {
                        receiver: ReceiverView {
                            traces: PathView {
                                senders: p.senders.update(0, items.drop_first()),
                                ..p
                            },
                            ..tap.receiver
                        },
                        trace_buf: Some(items[0].message),
                        trace_awaited: false,
                        ..tap
                    },
                )
                &&& turn && items.len() == 0 ==> after == v.with_one(
                    h,
                    TapView { trace_awaited: !tap.closed && elapsed_ms < timeout_ms, ..tap },
                )
            },
            Signal::Logs => {
                let p = tap.receiver.logs;
                &&& turn && items.len() > 0 ==> after == v.with_one(
                    h,
                    TapView {
                        receiver: ReceiverView {
                            logs: PathView {
                                senders: p.senders.update(0, items.drop_first()),
                                ..p
                            },
                            ..tap.receiver
                        },
                        log_buf: Some(items[0].message),
                        log_awaited: false,
                        ..tap
                    },
                )
                &&& turn && items.len() == 0 ==> after == v.with_one(
                    h,
                    TapView { log_awaited: !tap.closed && elapsed_ms < timeout_ms, ..tap },
                )
            },
            Signal::Metrics => {
                let p = tap.receiver.metrics;
                &&& turn && items.len() > 0 ==> after == v.with_one(
                    h,
                    TapView {
                        receiver: ReceiverView {
                            metrics: PathView {
                                senders: p.senders.update(0, items.drop_first()),
                                ..p
                            },
                            ..tap.receiver
                        },
                        metric_buf: Some(items[0].message),
                        metric_awaited: false,
                        ..tap
                    },
                )
                &&& turn && items.len() == 0 ==> after == v.with_one(
                    h,
                    TapView { metric_awaited: !tap.closed && elapsed_ms < timeout_ms, ..tap },
                )
            },
            }
        }),
{
    let tap = v.taps[h];
    let after = v.after_poll(s, h, timeout_ms, elapsed_ms, resumed);
    if !tap.has_turn(s, resumed) {
        assert(after.taps =~= v.taps);
    }
}

/// What a request changes: it reaches the receiver that it is sent to, if that takes requests, and
/// changes nothing else; and it changes nothing at all where no such receiver takes requests.
pub proof fn law_what_requests_change(
    v: RegistryView,
    h: u64,
    method: Seq<char>,
    path: Seq<char>,
    body: Option<Seq<u8>>,
)
    ensures
        ({
            let tap = v.taps[h];
            let after = v.after_request(h, method, path, body);
            if v.taps.contains_key(h) && !tap.closed {
                after == v.with_one(
                    h,
                    TapView { receiver: tap.receiver.after_request(method, path, body), ..tap },
                )
            } else {
                after == v
            }
        }),
{
}

/// What printing changes: the channel that is printed from is emptied, all its items are shown, and
/// nothing else changes; where a signal is not printed, or the handle is unknown, nothing does.
pub proof fn law_what_printing_changes(v: RegistryView, s: Signal, h: u64)
    ensures
        !v.taps.contains_key(h) ==> v.after_print(s, h) == v,
        v.taps.contains_key(h) ==> lines_show(
            v.taps[h].path(s).pending(PRINTED as int),
            v.taps[h].to_print(s),
        ),
        v.taps.contains_key(h) && v.taps[h].channels(s).len() <= 1 ==> v.after_print(s, h) == v,
        v.taps.contains_key(h) ==> ({
            let tap = v.taps[h];
            let after = v.after_print(s, h);
            match s {
            Signal::Traces => {
                let p = tap.receiver.traces;
                p.senders.len() > 1 ==> after == v.with_one(
                    h,
                    TapView {
                        receiver: ReceiverView {
                            traces: PathView { senders: p.senders.update(1, Seq::empty()), ..p },
                            ..tap.receiver
                        },
                        ..tap
                    },
                )
            },
            Signal::Logs => {
                let p = tap.receiver.logs;
                p.senders.len() > 1 ==> after == v.with_one(
                    h,
                    TapView {
                        receiver: ReceiverView {
                            logs: PathView { senders: p.senders.update(1, Seq::empty()), ..p },
                            ..tap.receiver
                        },
                        ..tap
                    },
                )
            },
            Signal::Metrics => {
                let p = tap.receiver.metrics;
                p.senders.len() > 1 ==> after == v.with_one(
                    h,
                    TapView {
                        receiver: ReceiverView {
                            metrics: PathView { senders: p.senders.update(1, Seq::empty()), ..p },
                            ..tap.receiver
                        },
                        ..tap
                    },
                )
            },
            }
        }),
{
    if v.taps.contains_key(h) {
        lemma_pending_lines_show_items(v.taps[h].path(s), 1);
        if v.taps[h].channels(s).len() <= 1 {
            assert(v.after_print(s, h).taps =~= v.taps);
        }
    }
}

/// What a call that stops a receiver does. It finds none where the handle is unknown, or where another
/// call is stopping the receiver already, and then changes nothing. It waits while a poll waits for
/// any of the receiver's items, and only closes the receiver. Otherwise it succeeds, hands out a line
/// for every item that is still to be printed, signal by signal, and forgets the receiver. Other taps
/// and the next handle stay as they are.
pub proof fn law_what_stopping_does(v: RegistryView, h: u64, resumed: bool)
    ensures
        ({
            let tap = v.taps[h];
            let step = v.stop_step(h, resumed);
            let after = v.after_stop(h, resumed);
            if !v.taps.contains_key(h) || tap.closed && !resumed {
                &&& after == v
                &&& step matches StopStepView::Done(reply) && reply.code == -2
                    && reply.traces.len() == 0 && reply.logs.len() == 0 && reply.metrics.len() == 0
            } else if tap.trace_awaited || tap.log_awaited || tap.metric_awaited {
                &&& after == v.with_one(h, TapView { closed: true, ..tap })
                &&& step is Wait
            } else {
                &&& after.next_handle == v.next_handle
                &&& after.taps == v.taps.remove(h)
                &&& step matches StopStepView::Done(reply) && reply.code == 0 && lines_show(
                    reply.traces,
                    tap.to_print(Signal::Traces),
                ) && lines_show(reply.logs, tap.to_print(Signal::Logs)) && lines_show(
                    reply.metrics,
                    tap.to_print(Signal::Metrics),
                )
            }
        }),
{
    let tap = v.taps[h];
    lemma_pending_lines_show_items(tap.receiver.traces, 1);
    lemma_pending_lines_show_items(tap.receiver.logs, 1);
    lemma_pending_lines_show_items(tap.receiver.metrics, 1);
}

/// What a start does. A registry begins empty, with the handle 1. A call with valid arguments uses up
/// the next handle, whether or not there is a receiver for it; handles follow one another, and start
/// over after the largest. A receiver that was put together is launched under that handle, as it is;
/// a call without one fails.
pub proof fn law_what_starting_does(
    v: RegistryView,
    outcome: Result<ReceiverView, StartErrorView>,
)
    ensures
        RegistryView::initial().next_handle == 1,
        forall|h: u64| !#[trigger] RegistryView::initial().taps.contains_key(h),
        v.after_reservation().taps == v.taps,
        v.next_handle < u64::MAX ==> v.after_reservation().next_handle == v.next_handle + 1,
        v.next_handle == u64::MAX ==> v.after_reservation().next_handle == 0,
        outcome is Err ==> (v.start_step(outcome) matches StartStepView::Refused { code }
            && code == -1),
        outcome matches Ok(receiver) ==> v.start_step(outcome) == StartStepView::Proceed(
            LaunchView { handle: v.next_handle, receiver },
        ),
{
}

/// What a launch does: where the receiver listens, its handle stands for it from then on, open, as it
/// was put together, with nothing lent and no poll waiting; otherwise nothing changes. Other taps and
/// the next handle stay as they are.
pub proof fn law_what_launching_does(v: RegistryView, launch: LaunchView)
    ensures
        v.after_launch(launch, false) == v,
        v.after_launch(launch, true) == v.with_one(
            launch.handle,
            TapView {
                receiver: launch.receiver,
                closed: false,
                trace_awaited: false,
                log_awaited: false,
                metric_awaited: false,
                trace_buf: None,
                log_buf: None,
                metric_buf: None,
            },
        ),
{
}

/// The arguments of a start are valid if and only if there is somewhere to write the handle to and
/// each text is either absent or valid UTF-8. A text then stands for what it encodes, and an invalid
/// one for the code that says so.
pub proof fn law_valid_arguments(
    traces_to: Option<Seq<u8>>,
    logs_to: Option<Seq<u8>>,
    metrics_to: Option<Seq<u8>>,
    has_out_handle: bool,
    bytes: Seq<u8>,
)
    ensures
        valid_arguments(traces_to, logs_to, metrics_to, has_out_handle) <==> {
            &&& has_out_handle
            &&& traces_to matches Some(text) ==> valid_utf8(text)
            &&& logs_to matches Some(text) ==> valid_utf8(text)
            &&& metrics_to matches Some(text) ==> valid_utf8(text)
        },
        c_text(None) == Ok::<Option<Seq<char>>, i32>(None),
        valid_utf8(bytes) ==> c_text(Some(bytes)) == Ok::<Option<Seq<char>>, i32>(
            Some(decode_utf8(bytes)),
        ),
        !valid_utf8(bytes) ==> (c_text(Some(bytes)) matches Err(code) && code == -3),
{
}

/// The values of steps and replies show what they stand for as it is, and so does that of an optional
/// byte string.
pub proof fn law_step_values_are_complete(
    reply: StopReply,
    stop: StopStep,
    start: StartStep,
    bytes: &[u8],
)
    ensures
        reply@.code == reply.code,
        reply@.traces == reply.traces.deep_view(),
        reply@.logs == reply.logs.deep_view(),
        reply@.metrics == reply.metrics.deep_view(),
        reply@.lines(Signal::Traces) == reply.traces.deep_view(),
        reply@.lines(Signal::Logs) == reply.logs.deep_view(),
        reply@.lines(Signal::Metrics) == reply.metrics.deep_view(),
        stop matches StopStep::Done(answer) ==> stop@ == StopStepView::Done(answer@),
        stop is Wait ==> stop@ is Wait,
        start matches StartStep::Refused { code } ==> start@ == (StartStepView::Refused { code }),
        start matches StartStep::Proceed(launch) ==> start@ == StartStepView::Proceed(launch@),
        bytes_value(Some(bytes)) == Some(bytes@),
        bytes_value(None) is None,
{
}

} // verus!
