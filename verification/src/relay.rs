use crate::error::RelayError;
use std::collections::VecDeque;
use vstd::prelude::*;

verus! {

/// The number of messages that a relay queue holds unless told otherwise.
pub const RELAY_QUEUE_CAPACITY: usize = 128;

/// Where an in-flight stream is in its life. The last three states are
/// final.
#[derive(Clone, Copy, Debug, PartialEq, Eq, Structural)]
pub enum StreamState {
    /// The streaming request is being issued on the backend connection.
    Opening,
    /// Messages flow from the backend to the caller.
    Streaming,
    /// The caller has seen every message and the end of the stream.
    Completed,
    /// The caller has seen the terminal error.
    Errored,
    /// The caller went away.
    Cancelled,
}

/// What is known of the backend's message source.
#[derive(Clone, Copy, Debug, PartialEq, Eq, Structural)]
pub enum Source {
    /// It may still yield messages.
    Open,
    /// It has yielded its last message.
    Exhausted,
    /// It broke off with an error.
    Failed,
}

/// What the pump does next.
#[derive(Clone, Copy, Debug, PartialEq, Eq, Structural)]
pub enum PumpAction {
    /// Read one message from the backend and offer it to the stream.
    Read,
    /// Do not read: wait until the stream has changed, then ask again.
    Suspend,
    /// Release the backend stream and end.
    Stop,
}

/// What one poll hands to the caller.
#[derive(Debug, PartialEq, Eq)]
pub enum Delivery<M, E> {
    /// The next message, in backend order.
    Message(M),
    /// Nothing is queued yet and the backend may still send.
    Pending,
    /// The stream is over.
    End,
    /// The stream broke off; this is its terminal error.
    Failed(RelayError<E>),
}

/// An in-flight stream as contracts see it.
pub ghost struct StreamView<M, E> {
    pub state: StreamState,
    pub source: Source,
    /// The relay queue, oldest message first.
    pub queue: Seq<M>,
    /// The backend's own account of a failure that the caller has not been
    /// told of yet.
    pub detail: Option<E>,
    /// The most messages the queue may hold.
    pub capacity: nat,
    /// Every message accepted from the backend, in the order it came.
    pub received: Seq<M>,
    /// Every message handed to the caller, in the order it went.
    pub delivered: Seq<M>,
}

impl<M, E> StreamView<M, E> {
    /// A stream that has just been created.
    pub open spec fn fresh(capacity: nat) -> Self {
        StreamView {
            state: StreamState::Opening,
            source: Source::Open,
            queue: Seq::empty(),
            detail: None,
            capacity,
            received: Seq::empty(),
            delivered: Seq::empty(),
        }
    }

    /// Whether the stream has reached a final state.
    pub open spec fn is_terminal(self) -> bool {
        self.state is Completed || self.state is Errored || self.state is Cancelled
    }

    /// Whether a message from the backend would be taken now.
    pub open spec fn accepts(self) -> bool {
        self.state is Streaming && self.source is Open && self.queue.len() < self.capacity
    }

    /// What holds of every stream that the operations below can produce.
    pub open spec fn inv(self) -> bool {
        &&& self.capacity > 0
        &&& self.queue.len() <= self.capacity
        &&& self.delivered.is_prefix_of(self.received)
        &&& !(self.state is Cancelled) ==> self.received == self.delivered + self.queue
        &&& self.state is Opening ==> self.received.len() == 0 && !(self.source is Exhausted)
        &&& self.state is Completed ==> self.source is Exhausted && self.queue.len() == 0
        &&& self.state is Errored ==> self.source is Failed && self.queue.len() == 0
        &&& self.state is Cancelled ==> self.queue.len() == 0
        &&& self.detail is Some ==> self.source is Failed && !self.is_terminal()
    }

    /// What the pump does next.
    pub open spec fn pump_action(self) -> PumpAction {
        if self.state is Opening {
            PumpAction::Suspend
        } else if self.state is Streaming && self.source is Open {
            if self.queue.len() < self.capacity {
                PumpAction::Read
            } else {
                PumpAction::Suspend
            }
        } else {
            PumpAction::Stop
        }
    }

    /// The stream after the backend accepted the streaming request.
    pub open spec fn opened(self) -> Self {
        if self.state is Opening {
            StreamView { state: StreamState::Streaming, ..self }
        } else {
            self
        }
    }

    /// The stream after the pump offered `message`.
    pub open spec fn offered(self, message: M) -> Self {
        if self.accepts() {
            StreamView {
                queue: self.queue.push(message),
                received: self.received.push(message),
                ..self
            }
        } else {
            self
        }
    }

    /// The stream after the backend source ran dry.
    pub open spec fn finished(self) -> Self {
        if self.state is Streaming && self.source is Open {
            StreamView { source: Source::Exhausted, ..self }
        } else {
            self
        }
    }

    /// The stream after the backend source broke off, with the backend's
    /// account of it where there is one.
    pub open spec fn failed(self, detail: Option<E>) -> Self {
        if (self.state is Opening || self.state is Streaming) && self.source is Open {
            StreamView { source: Source::Failed, detail, ..self }
        } else {
            self
        }
    }

    /// What a poll hands to the caller.
    pub open spec fn delivery(self) -> Delivery<M, E> {
        if self.is_terminal() {
            Delivery::End
        } else if self.queue.len() > 0 {
            Delivery::Message(self.queue[0])
        } else {
            match self.source {
                Source::Open => Delivery::Pending,
                Source::Exhausted => Delivery::End,
                Source::Failed => Delivery::Failed(RelayError::StreamAborted(self.detail)),
            }
        }
    }

    /// The stream after a poll.
    pub open spec fn polled(self) -> Self {
        if self.is_terminal() {
            self
        } else if self.queue.len() > 0 {
            StreamView {
                queue: self.queue.drop_first(),
                delivered: self.delivered.push(self.queue[0]),
                ..self
            }
        } else {
            match self.source {
                Source::Open => self,
                Source::Exhausted => StreamView { state: StreamState::Completed, ..self },
                Source::Failed => StreamView { state: StreamState::Errored, detail: None, ..self },
            }
        }
    }

    /// The stream after the caller went away.
    pub open spec fn cancelled(self) -> Self {
        if self.is_terminal() {
            self
        } else {
            StreamView {
                state: StreamState::Cancelled,
                queue: Seq::empty(),
                detail: None,
                ..self
            }
        }
    }
}

/// One streaming call on its way through the relay: the bounded queue
/// between the pump, which reads the backend, and the caller, which polls.
///
/// The stream decides and buffers; it does not wait. The pump asks
/// `pump_action` before every read and the caller polls; whoever is told to
/// wait does so outside, and whoever changes the stream wakes the other.
pub struct InFlightStream<M, E> {
    state: StreamState,
    source: Source,
    queue: VecDeque<M>,
    detail: Option<E>,
    capacity: usize,
    received: Ghost<Seq<M>>,
    delivered: Ghost<Seq<M>>,
}

impl<M, E> View for InFlightStream<M, E> {
    type V = StreamView<M, E>;

    closed spec fn view(&self) -> StreamView<M, E> {
        StreamView {
            state: self.state,
            source: self.source,
            queue: self.queue@,
            detail: self.detail,
            capacity: self.capacity as nat,
            received: self.received@,
            delivered: self.delivered@,
        }
    }
}

impl<M, E> InFlightStream<M, E> {
    /// Whether the stream is one that its operations can have produced.
    /// Every stream that this module hands out is.
    pub open spec fn wf(&self) -> bool {
        self@.inv()
    }

    /// A stream in its first state, with a queue of the default capacity.
    pub fn new() -> (stream: Self)
        ensures
            stream.wf(),
            stream@ == StreamView::<M, E>::fresh(RELAY_QUEUE_CAPACITY as nat),
    {
        InFlightStream {
            state: StreamState::Opening,
            source: Source::Open,
            queue: VecDeque::new(),
            detail: None,
            capacity: RELAY_QUEUE_CAPACITY,
            received: Ghost(Seq::empty()),
            delivered: Ghost(Seq::empty()),
        }
    }

    /// A stream in its first state whose queue holds up to `capacity`
    /// messages. A queue that holds nothing is no queue: there is no such
    /// stream.
    pub fn with_capacity(capacity: usize) -> (made: Option<Self>)
        ensures
            made is Some <==> capacity > 0,
            made matches Some(stream) ==> stream.wf() && stream@ == StreamView::<M, E>::fresh(
                capacity as nat,
            ),
    {
        if capacity == 0 {
            None
        } else {
            Some(
                InFlightStream {
                    state: StreamState::Opening,
                    source: Source::Open,
                    queue: VecDeque::new(),
                    detail: None,
                    capacity,
                    received: Ghost(Seq::empty()),
                    delivered: Ghost(Seq::empty()),
                },
            )
        }
    }

    /// The state the stream is in.
    pub fn state(&self) -> (state: StreamState)
        ensures
            state == self@.state,
    {
        self.state
    }

    /// The most messages the queue may hold.
    pub fn capacity(&self) -> (capacity: usize)
        ensures
            capacity == self@.capacity,
    {
        self.capacity
    }

    /// The number of messages that wait in the queue.
    pub fn queued(&self) -> (count: usize)
        ensures
            count == self@.queue.len(),
    {
        self.queue.len()
    }

    /// Whether the stream has reached a final state.
    pub fn is_terminal(&self) -> (done: bool)
        ensures
            done == self@.is_terminal(),
    {
        match self.state {
            StreamState::Completed | StreamState::Errored | StreamState::Cancelled => true,
            StreamState::Opening | StreamState::Streaming => false,
        }
    }

    /// What the pump does next: it reads while the queue has room, stands
    /// still while the queue is full, and stops for good once the source is
    /// closed or the stream is over.
    pub fn pump_action(&self) -> (action: PumpAction)
        ensures
            action == self@.pump_action(),
    {
        match self.state {
            StreamState::Opening => PumpAction::Suspend,
            StreamState::Streaming => match self.source {
                Source::Open => if self.queue.len() < self.capacity {
                    PumpAction::Read
                } else {
                    PumpAction::Suspend
                },
                Source::Exhausted | Source::Failed => PumpAction::Stop,
            },
            StreamState::Completed | StreamState::Errored | StreamState::Cancelled => PumpAction::Stop,
        }
    }

    /// The backend accepted the streaming request: messages may flow.
    pub fn opened(&mut self)
        requires
            old(self).wf(),
        ensures
            final(self).wf(),
            final(self)@ == old(self)@.opened(),
    {
        match self.state {
            StreamState::Opening => {
                self.state = StreamState::Streaming;
            },
            _ => {},
        }
    }

    /// Takes one message from the backend into the queue, behind all that
    /// came before it. A message that cannot be taken now comes back
    /// untouched and the stream stays as it was.
    pub fn offer(&mut self, message: M) -> (refused: Result<(), M>)
        requires
            old(self).wf(),
        ensures
            final(self).wf(),
            final(self)@ == old(self)@.offered(message),
            match refused {
                Ok(()) => old(self)@.accepts(),
                Err(back) => !old(self)@.accepts() && back == message,
            },
    {
        let room = match (self.state, self.source) {
            (StreamState::Streaming, Source::Open) => self.queue.len() < self.capacity,
            _ => false,
        };
        if room {
            proof {
                self.received@ = self.received@.push(message);
            }
            self.queue.push_back(message);
            Ok(())
        } else {
            Err(message)
        }
    }

    /// The backend source ran dry: what is queued is still delivered, then
    /// the stream completes.
    pub fn backend_finished(&mut self)
        requires
            old(self).wf(),
        ensures
            final(self).wf(),
            final(self)@ == old(self)@.finished(),
    {
        match (self.state, self.source) {
            (StreamState::Streaming, Source::Open) => {
                self.source = Source::Exhausted;
            },
            _ => {},
        }
    }

    /// The backend source broke off: what is queued is still delivered, then
    /// the caller gets the terminal error with `detail`.
    pub fn backend_failed(&mut self, detail: Option<E>)
        requires
            old(self).wf(),
        ensures
            final(self).wf(),
            final(self)@ == old(self)@.failed(detail),
    {
        match (self.state, self.source) {
            (StreamState::Opening, Source::Open) | (StreamState::Streaming, Source::Open) => {
                self.source = Source::Failed;
                self.detail = detail;
            },
            _ => {},
        }
    }

    /// Hands the caller what is next: the oldest queued message, or word that
    /// nothing is there yet, or the end, or the terminal error.
    pub fn poll(&mut self) -> (next: Delivery<M, E>)
        requires
            old(self).wf(),
        ensures
            final(self).wf(),
            final(self)@ == old(self)@.polled(),
            next == old(self)@.delivery(),
    {
        match self.state {
            StreamState::Completed | StreamState::Errored | StreamState::Cancelled => {
                return Delivery::End;
            },
            StreamState::Opening | StreamState::Streaming => {},
        }
        match self.queue.pop_front() {
            Some(message) => {
                proof {
                    self.delivered@ = self.delivered@.push(message);
                    assert(self@.received =~= self@.delivered + self@.queue);
                    assert(self@.delivered.is_prefix_of(self@.received));
                }
                Delivery::Message(message)
            },
            None => match self.source {
                Source::Open => Delivery::Pending,
                Source::Exhausted => {
                    self.state = StreamState::Completed;
                    Delivery::End
                },
                Source::Failed => {
                    let detail = self.detail.take();
                    self.state = StreamState::Errored;
                    Delivery::Failed(RelayError::StreamAborted(detail))
                },
            },
        }
    }

    /// The caller went away: the queue is emptied and the pump is told to
    /// stop at its next step. A stream that is over stays as it is. Says
    /// whether there was a stream left to cancel.
    pub fn cancel(&mut self) -> (cut_short: bool)
        requires
            old(self).wf(),
        ensures
            final(self).wf(),
            final(self)@ == old(self)@.cancelled(),
            cut_short == !old(self)@.is_terminal(),
    {
        match self.state {
            StreamState::Opening | StreamState::Streaming => {
                self.detail = None;
                self.queue.clear();
                self.state = StreamState::Cancelled;
                true
            },
            StreamState::Completed | StreamState::Errored | StreamState::Cancelled => false,
        }
    }
}

/// The stream after `count` polls in a row.
pub open spec fn polled_times<M, E>(stream: StreamView<M, E>, count: nat) -> StreamView<M, E>
    decreases count,
{
    if count == 0 {
        stream
    } else {
        polled_times(stream.polled(), (count - 1) as nat)
    }
}

/// A new stream is well formed, and every operation keeps a stream so.
pub proof fn operations_preserve_invariant<M, E>(
    stream: StreamView<M, E>,
    capacity: nat,
    message: M,
    detail: Option<E>,
)
    requires
        stream.inv(),
    ensures
        capacity > 0 ==> StreamView::<M, E>::fresh(capacity).inv(),
        stream.opened().inv(),
        stream.offered(message).inv(),
        stream.finished().inv(),
        stream.failed(detail).inv(),
        stream.polled().inv(),
        stream.cancelled().inv(),
{
    if capacity > 0 {
        let fresh = StreamView::<M, E>::fresh(capacity);
        assert(fresh.received =~= fresh.delivered + fresh.queue);
    }
    if stream.accepts() {
        let after = stream.offered(message);
        assert(after.received =~= after.delivered + after.queue);
    }
    if !stream.is_terminal() && stream.queue.len() > 0 {
        let after = stream.polled();
        assert(after.received =~= after.delivered + after.queue);
        assert(after.delivered.is_prefix_of(after.received));
    }
}

/// What the caller is handed is what the backend sent, in the same order,
/// nothing twice and nothing left out: each message that a poll hands over
/// is the next of the received ones that has not been handed over yet.
pub proof fn delivery_follows_backend_order<M, E>(stream: StreamView<M, E>)
    requires
        stream.inv(),
        stream.delivery() is Message,
    ensures
        stream.delivered.len() < stream.received.len(),
        stream.delivery() == Delivery::<M, E>::Message(
            stream.received[stream.delivered.len() as int],
        ),
        stream.polled().delivered == stream.received.take(stream.delivered.len() as int + 1),
        stream.polled().received == stream.received,
{
    assert(stream.received =~= stream.delivered + stream.queue);
    assert(stream.polled().delivered =~= stream.received.take(stream.delivered.len() as int + 1));
}

/// A stream that completed has handed the caller exactly the messages that
/// the backend sent, in the order in which it sent them.
pub proof fn completed_stream_delivered_all<M, E>(stream: StreamView<M, E>)
    requires
        stream.inv(),
        stream.state is Completed,
    ensures
        stream.delivered == stream.received,
{
    assert(stream.received =~= stream.delivered + stream.queue);
}

/// Once the backend source has run dry, the caller needs one poll for each
/// queued message and one more: then the stream has completed and the caller
/// has been handed everything that the backend sent.
pub proof fn draining_completes<M, E>(stream: StreamView<M, E>)
    requires
        stream.inv(),
        stream.state is Streaming,
        stream.source is Exhausted,
    ensures
        polled_times(stream, stream.queue.len() + 1).state is Completed,
        polled_times(stream, stream.queue.len() + 1).delivered == stream.received,
    decreases stream.queue.len(),
{
    if stream.queue.len() == 0 {
        let done = stream.polled();
        assert(polled_times(stream, 1) == polled_times(done, 0));
        assert(stream.received =~= stream.delivered + stream.queue);
    } else {
        let next = stream.polled();
        assert(next.received =~= next.delivered + next.queue);
        assert(next.delivered.is_prefix_of(next.received));
        draining_completes(next);
        assert(polled_times(stream, stream.queue.len() + 1) == polled_times(
            next,
            next.queue.len() + 1,
        ));
    }
}

/// A full queue holds the pump back, and one poll lets it go on: while the
/// queue is full the pump is told to stand still and an offer is refused;
/// after the caller took a message the pump is told to read.
pub proof fn full_queue_holds_pump_back<M, E>(stream: StreamView<M, E>, message: M)
    requires
        stream.inv(),
        stream.state is Streaming,
        stream.source is Open,
        stream.queue.len() == stream.capacity,
    ensures
        stream.pump_action() == PumpAction::Suspend,
        stream.offered(message) == stream,
        stream.polled().pump_action() == PumpAction::Read,
{
}

/// Once the caller went away the stream is over at once: the queue is empty,
/// nothing more is taken from the backend, and the pump is told to stop at
/// its very next step.
pub proof fn cancellation_stops_pump<M, E>(stream: StreamView<M, E>, message: M)
    requires
        !stream.is_terminal(),
    ensures
        stream.cancelled().state is Cancelled,
        stream.cancelled().queue.len() == 0,
        stream.cancelled().pump_action() == PumpAction::Stop,
        stream.cancelled().offered(message) == stream.cancelled(),
{
}

/// The final states are final: no operation moves a stream out of one, the
/// pump is told to stop, and the caller is told that the stream is over.
pub proof fn final_states_are_final<M, E>(stream: StreamView<M, E>, message: M, detail: Option<E>)
    requires
        stream.is_terminal(),
    ensures
        stream.opened() == stream,
        stream.offered(message) == stream,
        stream.finished() == stream,
        stream.failed(detail) == stream,
        stream.polled() == stream,
        stream.cancelled() == stream,
        stream.pump_action() == PumpAction::Stop,
        stream.delivery() == Delivery::<M, E>::End,
{
}

/// A stream only moves forward: from opening to streaming, and from either
/// to a final state.
pub proof fn states_only_advance<M, E>(stream: StreamView<M, E>, message: M, detail: Option<E>)
    ensures
        stream.opened().state == stream.state || (stream.state is Opening
            && stream.opened().state is Streaming),
        stream.offered(message).state == stream.state,
        stream.finished().state == stream.state,
        stream.failed(detail).state == stream.state,
        stream.polled().state == stream.state || (!stream.is_terminal() && (
        stream.polled().state is Completed || stream.polled().state is Errored)),
        stream.cancelled().state == stream.state || (!stream.is_terminal()
            && stream.cancelled().state is Cancelled),
{
}

/// One thing that happens to a stream.
pub ghost enum StreamEvent<M, E> {
    /// The backend accepted the streaming request.
    Opened,
    /// The pump offered a message.
    Offered(M),
    /// The backend source ran dry.
    Finished,
    /// The backend source broke off.
    Failed(Option<E>),
    /// The caller polled.
    Polled,
    /// The caller went away.
    Cancelled,
}

impl<M, E> StreamView<M, E> {
    /// The stream after `event`.
    pub open spec fn after(self, event: StreamEvent<M, E>) -> Self {
        match event {
            StreamEvent::Opened => self.opened(),
            StreamEvent::Offered(message) => self.offered(message),
            StreamEvent::Finished => self.finished(),
            StreamEvent::Failed(detail) => self.failed(detail),
            StreamEvent::Polled => self.polled(),
            StreamEvent::Cancelled => self.cancelled(),
        }
    }

    /// The stream after `events`, one after the other.
    pub open spec fn after_all(self, events: Seq<StreamEvent<M, E>>) -> Self
        decreases events.len(),
    {
        if events.len() == 0 {
            self
        } else {
            self.after(events[0]).after_all(events.drop_first())
        }
    }

    /// The messages that the stream takes from the backend in the course of
    /// `events`: those of the offers that it does not refuse.
    pub open spec fn taken_during(self, events: Seq<StreamEvent<M, E>>) -> Seq<M>
        decreases events.len(),
    {
        if events.len() == 0 {
            Seq::empty()
        } else {
            let rest = self.after(events[0]).taken_during(events.drop_first());
            match events[0] {
                StreamEvent::Offered(message) if self.accepts() => seq![message] + rest,
                _ => rest,
            }
        }
    }

    /// The messages that the caller is handed in the course of `events`:
    /// those that its polls yield.
    pub open spec fn handed_during(self, events: Seq<StreamEvent<M, E>>) -> Seq<M>
        decreases events.len(),
    {
        if events.len() == 0 {
            Seq::empty()
        } else {
            let rest = self.after(events[0]).handed_during(events.drop_first());
            match (events[0], self.delivery()) {
                (StreamEvent::Polled, Delivery::Message(message)) => seq![message] + rest,
                _ => rest,
            }
        }
    }
}

/// Whatever happens to a well-formed stream, it stays well formed, and its
/// two records grow by exactly what it took from the backend and by exactly
/// what it handed to the caller.
pub proof fn records_follow_events<M, E>(stream: StreamView<M, E>, events: Seq<StreamEvent<M, E>>)
    requires
        stream.inv(),
    ensures
        stream.after_all(events).inv(),
        stream.after_all(events).received == stream.received + stream.taken_during(events),
        stream.after_all(events).delivered == stream.delivered + stream.handed_during(events),
    decreases events.len(),
{
    if events.len() == 0 {
        assert(stream.received + stream.taken_during(events) =~= stream.received);
        assert(stream.delivered + stream.handed_during(events) =~= stream.delivered);
    } else {
        let next = stream.after(events[0]);
        let rest = events.drop_first();
        match events[0] {
            StreamEvent::Offered(message) => {
                operations_preserve_invariant(stream, stream.capacity, message, None);
            },
            StreamEvent::Polled => {
                if stream.delivery() is Message {
                    delivery_follows_backend_order(stream);
                    assert(next.received =~= next.delivered + next.queue);
                }
            },
            _ => {},
        }
        assert(next.inv());
        records_follow_events(next, rest);
        assert(stream.received + stream.taken_during(events) =~= next.received + next.taken_during(
            rest,
        ));
        assert(stream.delivered + stream.handed_during(events) =~= next.delivered
            + next.handed_during(rest));
    }
}

/// The caller of a stream that has completed was handed exactly the messages
/// that the stream took from the backend, in the same order, whatever the
/// pace of the pump and of the caller was.
pub proof fn completed_run_hands_over_everything<M, E>(
    capacity: nat,
    events: Seq<StreamEvent<M, E>>,
)
    requires
        capacity > 0,
        StreamView::<M, E>::fresh(capacity).after_all(events).state is Completed,
    ensures
        StreamView::<M, E>::fresh(capacity).handed_during(events) == StreamView::<M, E>::fresh(
            capacity,
        ).taken_during(events),
{
    let fresh = StreamView::<M, E>::fresh(capacity);
    assert(fresh.received =~= fresh.delivered + fresh.queue);
    records_follow_events(fresh, events);
    completed_stream_delivered_all(fresh.after_all(events));
    assert(fresh.received + fresh.taken_during(events) =~= fresh.taken_during(events));
    assert(fresh.delivered + fresh.handed_during(events) =~= fresh.handed_during(events));
}

} // verus!
