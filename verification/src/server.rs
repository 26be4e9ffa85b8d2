use crate::error::RelayError;
use crate::outbound_multiplexer::{
    after_connect_failed, after_resolve, ready_client, resolution_of, MultiplexerView,
    OutboundMultiplexer, Resolution, Slot,
};
use crate::relay::{InFlightStream, StreamView, RELAY_QUEUE_CAPACITY};
use vstd::prelude::*;

verus! {

/// The calls of the RPC surface.
#[derive(Clone, Copy, Debug, PartialEq, Eq, Structural)]
pub enum Method {
    ExecutePlan,
    ReattachExecute,
    AnalyzePlan,
    Config,
    Interrupt,
    ReleaseExecute,
    AddArtifacts,
    ArtifactStatus,
}

/// How a call is served.
#[derive(Clone, Copy, Debug, PartialEq, Eq, Structural)]
pub enum Forwarding {
    /// Forwarded; the backend's answers are relayed as a stream.
    StreamRelay,
    /// Forwarded; the backend's one answer is relayed.
    UnaryRelay,
    /// Forwarded like a unary call, after which the session's connection is
    /// dropped.
    UnaryRelayThenEvict,
    /// Answered on the spot, without the backend.
    Stub,
}

/// What the handler of a call does next.
#[derive(Clone, Copy, Debug, PartialEq, Eq, Structural)]
pub enum Step {
    /// Answer without the backend.
    Stub,
    /// The session's connection is there: issue the call on it.
    Forward,
    /// Connect to the destination for this session and report the outcome.
    Connect,
    /// Another call is connecting for this session: wait for its report,
    /// then begin again.
    Wait,
}

/// How issuing a call on the backend connection went.
#[derive(Debug, PartialEq, Eq)]
pub enum CallOutcome<R, S> {
    /// The backend answered.
    Response(R),
    /// The backend refused the call with an error status of its own.
    Status(S),
    /// The connection was refused, reset or lost.
    TransportFailure,
}

/// How each call of the surface is served.
pub open spec fn forwarding_of(method: Method) -> Forwarding {
    match method {
        Method::ExecutePlan => Forwarding::StreamRelay,
        Method::ReattachExecute => Forwarding::StreamRelay,
        Method::AnalyzePlan => Forwarding::UnaryRelay,
        Method::Config => Forwarding::UnaryRelay,
        Method::Interrupt => Forwarding::UnaryRelay,
        Method::ReleaseExecute => Forwarding::UnaryRelayThenEvict,
        Method::AddArtifacts => Forwarding::Stub,
        Method::ArtifactStatus => Forwarding::Stub,
    }
}

/// The step that follows from the multiplexer's answer.
pub open spec fn step_of(resolution: Resolution) -> Step {
    match resolution {
        Resolution::Ready => Step::Forward,
        Resolution::Connect => Step::Connect,
        Resolution::Wait => Step::Wait,
    }
}

/// What the caller gets for `outcome`: the backend's answer or status as it
/// came, and a lost connection as an unavailable backend.
pub open spec fn relayed<R, S>(outcome: CallOutcome<R, S>) -> Result<R, RelayError<S>> {
    match outcome {
        CallOutcome::Response(response) => Ok(response),
        CallOutcome::Status(status) => Err(RelayError::Backend(status)),
        CallOutcome::TransportFailure => Err(RelayError::BackendUnavailable),
    }
}

/// Whether the session's connection is dropped once a call is over: always
/// after a release, and whenever the connection was lost.
pub open spec fn evicts(method: Method, transport_failed: bool) -> bool {
    forwarding_of(method) is UnaryRelayThenEvict || transport_failed
}

/// The multiplexer's entries after a call of `method` for `session` is over.
pub open spec fn after_call<C>(
    slots: Map<Seq<char>, Slot<C>>,
    method: Method,
    session: Seq<char>,
    transport_failed: bool,
) -> Map<Seq<char>, Slot<C>> {
    if evicts(method, transport_failed) {
        slots.remove(session)
    } else {
        slots
    }
}

impl Method {
    /// How this call is served.
    pub fn forwarding(&self) -> (kind: Forwarding)
        ensures
            kind == forwarding_of(*self),
    {
        match self {
            Method::ExecutePlan | Method::ReattachExecute => Forwarding::StreamRelay,
            Method::AnalyzePlan | Method::Config | Method::Interrupt => Forwarding::UnaryRelay,
            Method::ReleaseExecute => Forwarding::UnaryRelayThenEvict,
            Method::AddArtifacts | Method::ArtifactStatus => Forwarding::Stub,
        }
    }
}

impl<R, S> CallOutcome<R, S> {
    /// Whether the connection was lost.
    pub fn is_transport_failure(&self) -> (lost: bool)
        ensures
            lost == (*self is TransportFailure),
    {
        match self {
            CallOutcome::TransportFailure => true,
            _ => false,
        }
    }

    /// What the caller gets for this outcome.
    pub fn relay(self) -> (reply: Result<R, RelayError<S>>)
        ensures
            reply == relayed(self),
    {
        match self {
            CallOutcome::Response(response) => Ok(response),
            CallOutcome::Status(status) => Err(RelayError::Backend(status)),
            CallOutcome::TransportFailure => Err(RelayError::BackendUnavailable),
        }
    }
}

/// The decisions of the intermediary: which calls are forwarded, over which
/// connection, and what becomes of the connection afterwards.
///
/// The service never touches the network. The handler of a call asks
/// `begin_call`, does the connecting and calling that the answer asks for
/// without holding the service, and reports how it went.
#[verifier::reject_recursive_types(C)]
pub struct SparkConnectComparatorService<C> {
    muxer: OutboundMultiplexer<C>,
}

impl<C> View for SparkConnectComparatorService<C> {
    type V = MultiplexerView<C>;

    closed spec fn view(&self) -> MultiplexerView<C> {
        self.muxer@
    }
}

impl<C> SparkConnectComparatorService<C> {
    /// A service without sessions that forwards to the default destination.
    pub fn new() -> (service: Self)
        ensures
            service@.destination == crate::outbound_multiplexer::default_destination(),
            service@.slots == Map::<Seq<char>, Slot<C>>::empty(),
    {
        SparkConnectComparatorService { muxer: OutboundMultiplexer::new() }
    }

    /// A service without sessions that forwards to `destination`.
    pub fn with_destination(destination: String) -> (service: Self)
        ensures
            service@.destination == destination@,
            service@.slots == Map::<Seq<char>, Slot<C>>::empty(),
    {
        SparkConnectComparatorService { muxer: OutboundMultiplexer::with_destination(destination) }
    }

    /// The address that connections are made to.
    pub fn destination(&self) -> (address: &str)
        ensures
            address@ == self@.destination,
    {
        self.muxer.destination()
    }

    /// The multiplexer that holds the sessions' connections.
    pub fn muxer(&self) -> (muxer: &OutboundMultiplexer<C>)
        ensures
            muxer@ == self@,
    {
        &self.muxer
    }

    /// Decides how a call of `method` for `session_id` starts. A call that is
    /// answered on the spot leaves the sessions alone; every other call asks
    /// the multiplexer for the session's connection.
    pub fn begin_call(&mut self, method: Method, session_id: &str) -> (step: Step)
        ensures
            final(self)@.destination == old(self)@.destination,
            forwarding_of(method) is Stub ==> step == Step::Stub && final(self)@.slots == old(
                self,
            )@.slots,
            !(forwarding_of(method) is Stub) ==> step == step_of(
                resolution_of(old(self)@.slots, session_id@),
            ) && final(self)@.slots == after_resolve(old(self)@.slots, session_id@),
    {
        match method.forwarding() {
            Forwarding::Stub => Step::Stub,
            _ => match self.muxer.resolve(session_id) {
                Resolution::Ready => Step::Forward,
                Resolution::Connect => Step::Connect,
                Resolution::Wait => Step::Wait,
            },
        }
    }

    /// The established connection of `session_id`.
    pub fn client(&self, session_id: &str) -> (client: Option<&C>)
        ensures
            match client {
                Some(handle) => ready_client(self@.slots, session_id@) == Some(*handle),
                None => ready_client(self@.slots, session_id@).is_none(),
            },
    {
        self.muxer.get_client(session_id)
    }

    /// The connection attempt for `session_id` succeeded: `client` serves the
    /// session from now on.
    pub fn connected(&mut self, session_id: String, client: C)
        ensures
            final(self)@.slots == old(self)@.slots.insert(session_id@, Slot::Ready(client)),
            final(self)@.destination == old(self)@.destination,
    {
        self.muxer.add_client(session_id, client);
    }

    /// The connection attempt for `session_id` failed: nothing is registered,
    /// and the call ends with an unavailable backend.
    pub fn connect_failed<S>(&mut self, session_id: &str) -> (error: RelayError<S>)
        ensures
            error == RelayError::<S>::BackendUnavailable,
            final(self)@.slots == after_connect_failed(old(self)@.slots, session_id@),
            final(self)@.destination == old(self)@.destination,
    {
        self.muxer.connect_failed(session_id);
        RelayError::BackendUnavailable
    }

    /// Ends a forwarded unary call of `method` for `session_id`. The caller
    /// gets the backend's answer or status as it came. The session's
    /// connection is dropped after a release, whatever the backend said, and
    /// after a lost connection.
    pub fn finish_call<R, S>(
        &mut self,
        method: Method,
        session_id: &str,
        outcome: CallOutcome<R, S>,
    ) -> (reply: Result<R, RelayError<S>>)
        ensures
            reply == relayed(outcome),
            final(self)@.slots == after_call(
                old(self)@.slots,
                method,
                session_id@,
                outcome is TransportFailure,
            ),
            final(self)@.destination == old(self)@.destination,
    {
        let release = match method.forwarding() {
            Forwarding::UnaryRelayThenEvict => true,
            _ => false,
        };
        if release || outcome.is_transport_failure() {
            self.muxer.remove_client(session_id);
        }
        outcome.relay()
    }

    /// Starts the relay of a streaming call for `session_id`, given how
    /// issuing the request on the backend went. Where the backend accepted,
    /// the caller gets a stream that is ready for its first message; else the
    /// error, and a lost connection is dropped.
    pub fn open_stream<M, S>(&mut self, session_id: &str, outcome: CallOutcome<(), S>) -> (opened:
        Result<InFlightStream<M, S>, RelayError<S>>)
        ensures
            match opened {
                Ok(stream) => outcome is Response && stream.wf() && stream@ == StreamView::<
                    M,
                    S,
                >::fresh(RELAY_QUEUE_CAPACITY as nat).opened(),
                Err(error) => Err::<(), RelayError<S>>(error) == relayed(outcome),
            },
            final(self)@.slots == if outcome is TransportFailure {
                old(self)@.slots.remove(session_id@)
            } else {
                old(self)@.slots
            },
            final(self)@.destination == old(self)@.destination,
    {
        match outcome {
            CallOutcome::Response(()) => {
                let mut stream = InFlightStream::new();
                stream.opened();
                Ok(stream)
            },
            CallOutcome::Status(status) => Err(RelayError::Backend(status)),
            CallOutcome::TransportFailure => {
                self.muxer.remove_client(session_id);
                Err(RelayError::BackendUnavailable)
            },
        }
    }

    /// Drops the connection of `session_id`, if there is one.
    pub fn evict(&mut self, session_id: &str)
        ensures
            final(self)@.slots == old(self)@.slots.remove(session_id@),
            final(self)@.destination == old(self)@.destination,
    {
        self.muxer.remove_client(session_id);
    }
}

/// After a release the session is connected anew, whatever the backend said
/// to the release and whether or not the connection held: the next call is
/// told to connect, and the released handle can no longer be fetched.
pub proof fn release_forces_reconnect<C>(
    slots: Map<Seq<char>, Slot<C>>,
    session: Seq<char>,
    transport_failed: bool,
)
    ensures
        resolution_of(after_call(slots, Method::ReleaseExecute, session, transport_failed), session)
            == Resolution::Connect,
        ready_client(
            after_call(slots, Method::ReleaseExecute, session, transport_failed),
            session,
        ).is_none(),
{
}

/// A lost connection is never used again, and is reported as an unavailable
/// backend: the call ends with that error, which reaches the client as an
/// unavailable service, and the session's next call is told to connect.
pub proof fn lost_connection_is_unavailable<C, R, S>(
    slots: Map<Seq<char>, Slot<C>>,
    method: Method,
    session: Seq<char>,
)
    ensures
        relayed(CallOutcome::<R, S>::TransportFailure) == Err::<R, RelayError<S>>(
            RelayError::BackendUnavailable,
        ),
        crate::error::surfaced(RelayError::<S>::BackendUnavailable)
            == crate::error::ClientStatus::<S>::Unavailable,
        resolution_of(after_call(slots, method, session, true), session) == Resolution::Connect,
{
}

/// Whatever the backend answers passes through unchanged, as an answer or as
/// the status it came with, and the session keeps its connection unless the
/// call was a release.
pub proof fn backend_answers_pass_through<C, R, S>(
    slots: Map<Seq<char>, Slot<C>>,
    method: Method,
    session: Seq<char>,
    response: R,
    status: S,
)
    ensures
        relayed(CallOutcome::<R, S>::Response(response)) == Ok::<R, RelayError<S>>(response),
        relayed(CallOutcome::<R, S>::Status(status)) == Err::<R, RelayError<S>>(
            RelayError::Backend(status),
        ),
        crate::error::surfaced(RelayError::Backend(status)) == crate::error::ClientStatus::PassedThrough(
            status,
        ),
        !(method == Method::ReleaseExecute) ==> after_call(slots, method, session, false) == slots,
{
}

/// The end of a call for one session leaves every other session as it was.
pub proof fn call_leaves_other_sessions<C>(
    slots: Map<Seq<char>, Slot<C>>,
    method: Method,
    session: Seq<char>,
    other: Seq<char>,
    transport_failed: bool,
)
    requires
        session != other,
    ensures
        resolution_of(after_call(slots, method, session, transport_failed), other) == resolution_of(
            slots,
            other,
        ),
        ready_client(after_call(slots, method, session, transport_failed), other) == ready_client(
            slots,
            other,
        ),
{
}

} // verus!
