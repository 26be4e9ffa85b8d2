use spark_connect_relay::error::{ClientStatus, RelayError};
use spark_connect_relay::relay::{Delivery, InFlightStream, PumpAction, StreamState};
use spark_connect_relay::server::{
    CallOutcome, Forwarding, Method, SparkConnectComparatorService, Step,
};

#[test]
fn each_method_is_served_as_the_surface_says() {
    assert_eq!(Method::ExecutePlan.forwarding(), Forwarding::StreamRelay);
    assert_eq!(Method::ReattachExecute.forwarding(), Forwarding::StreamRelay);
    assert_eq!(Method::AnalyzePlan.forwarding(), Forwarding::UnaryRelay);
    assert_eq!(Method::Config.forwarding(), Forwarding::UnaryRelay);
    assert_eq!(Method::Interrupt.forwarding(), Forwarding::UnaryRelay);
    assert_eq!(Method::ReleaseExecute.forwarding(), Forwarding::UnaryRelayThenEvict);
    assert_eq!(Method::AddArtifacts.forwarding(), Forwarding::Stub);
    assert_eq!(Method::ArtifactStatus.forwarding(), Forwarding::Stub);
}

#[test]
fn new_service_forwards_to_the_default_destination() {
    let service: SparkConnectComparatorService<u32> = SparkConnectComparatorService::new();
    assert_eq!(service.destination(), "http://[::1]:50051");
    assert_eq!(service.muxer().session_count(), 0);
    let other: SparkConnectComparatorService<u32> =
        SparkConnectComparatorService::with_destination(String::from("http://spark:15002"));
    assert_eq!(other.destination(), "http://spark:15002");
}

#[test]
fn stub_calls_leave_the_sessions_alone() {
    let mut service: SparkConnectComparatorService<u32> = SparkConnectComparatorService::new();
    assert_eq!(service.begin_call(Method::AddArtifacts, "abc"), Step::Stub);
    assert_eq!(service.begin_call(Method::ArtifactStatus, "abc"), Step::Stub);
    assert_eq!(service.muxer().session_count(), 0);
}

#[test]
fn unary_call_connects_once_per_session() {
    let mut service: SparkConnectComparatorService<u32> = SparkConnectComparatorService::new();
    assert_eq!(service.begin_call(Method::AnalyzePlan, "abc"), Step::Connect);
    assert_eq!(service.begin_call(Method::Config, "abc"), Step::Wait);
    service.connected(String::from("abc"), 11);
    assert_eq!(service.begin_call(Method::Config, "abc"), Step::Forward);
    assert_eq!(service.client("abc"), Some(&11));
    let reply: Result<&str, RelayError<String>> =
        service.finish_call(Method::Config, "abc", CallOutcome::Response("answer"));
    assert_eq!(reply, Ok("answer"));
    assert_eq!(service.begin_call(Method::Interrupt, "abc"), Step::Forward);
    assert_eq!(service.client("abc"), Some(&11));
}

#[test]
fn backend_status_passes_through_and_keeps_the_connection() {
    let mut service: SparkConnectComparatorService<u32> = SparkConnectComparatorService::new();
    service.connected(String::from("abc"), 11);
    let reply: Result<u8, RelayError<String>> = service.finish_call(
        Method::AnalyzePlan,
        "abc",
        CallOutcome::Status(String::from("invalid plan")),
    );
    assert_eq!(reply, Err(RelayError::Backend(String::from("invalid plan"))));
    assert_eq!(service.client("abc"), Some(&11));
}

#[test]
fn refused_connection_is_backend_unavailable() {
    let mut service: SparkConnectComparatorService<u32> = SparkConnectComparatorService::new();
    assert_eq!(service.begin_call(Method::AnalyzePlan, "abc"), Step::Connect);
    let error: RelayError<String> = service.connect_failed("abc");
    assert_eq!(error, RelayError::BackendUnavailable);
    assert_eq!(error.surface(), ClientStatus::Unavailable);
    assert!(!service.muxer().has_session("abc"));
    assert_eq!(service.begin_call(Method::AnalyzePlan, "abc"), Step::Connect);
}

#[test]
fn lost_connection_is_backend_unavailable_and_dropped() {
    let mut service: SparkConnectComparatorService<u32> = SparkConnectComparatorService::new();
    service.connected(String::from("abc"), 11);
    service.connected(String::from("xyz"), 12);
    let reply: Result<u8, RelayError<String>> =
        service.finish_call(Method::Config, "abc", CallOutcome::TransportFailure);
    assert_eq!(reply, Err(RelayError::BackendUnavailable));
    assert!(service.client("abc").is_none());
    assert_eq!(service.client("xyz"), Some(&12));
    assert_eq!(service.begin_call(Method::Config, "abc"), Step::Connect);
}

#[test]
fn release_evicts_whatever_the_backend_said() {
    let mut service: SparkConnectComparatorService<u32> = SparkConnectComparatorService::new();

    service.connected(String::from("abc"), 1);
    let acknowledged: Result<u8, RelayError<String>> =
        service.finish_call(Method::ReleaseExecute, "abc", CallOutcome::Response(0));
    assert_eq!(acknowledged, Ok(0));
    assert!(service.client("abc").is_none());
    assert_eq!(service.begin_call(Method::ExecutePlan, "abc"), Step::Connect);

    service.connected(String::from("abc"), 2);
    let refused: Result<u8, RelayError<String>> = service.finish_call(
        Method::ReleaseExecute,
        "abc",
        CallOutcome::Status(String::from("unknown operation")),
    );
    assert_eq!(refused, Err(RelayError::Backend(String::from("unknown operation"))));
    assert!(service.client("abc").is_none());

    service.connected(String::from("abc"), 3);
    let lost: Result<u8, RelayError<String>> =
        service.finish_call(Method::ReleaseExecute, "abc", CallOutcome::TransportFailure);
    assert_eq!(lost, Err(RelayError::BackendUnavailable));
    assert!(service.client("abc").is_none());
    assert_eq!(service.begin_call(Method::Config, "abc"), Step::Connect);
}

#[test]
fn release_of_one_session_leaves_the_others() {
    let mut service: SparkConnectComparatorService<u32> = SparkConnectComparatorService::new();
    service.connected(String::from("s1"), 1);
    service.connected(String::from("s2"), 2);
    let reply: Result<u8, RelayError<String>> =
        service.finish_call(Method::ReleaseExecute, "s1", CallOutcome::Response(0));
    assert_eq!(reply, Ok(0));
    assert_eq!(service.begin_call(Method::Config, "s2"), Step::Forward);
    assert_eq!(service.client("s2"), Some(&2));
    service.evict("s2");
    service.evict("s2");
    assert_eq!(service.muxer().session_count(), 0);
}

#[test]
fn execute_plan_relays_three_chunks_over_one_connection() {
    let mut service: SparkConnectComparatorService<u32> = SparkConnectComparatorService::new();
    let mut connects: u32 = 0;
    if service.begin_call(Method::ExecutePlan, "abc") == Step::Connect {
        connects += 1;
        service.connected(String::from("abc"), 41);
    }
    assert_eq!(service.client("abc"), Some(&41));

    let mut stream: InFlightStream<String, String> =
        service.open_stream("abc", CallOutcome::Response(())).unwrap();
    assert_eq!(stream.state(), StreamState::Streaming);
    assert_eq!(stream.capacity(), 128);

    let mut observed: Vec<String> = Vec::new();
    for chunk in ["first", "second", "third"] {
        assert_eq!(stream.pump_action(), PumpAction::Read);
        assert_eq!(stream.offer(String::from(chunk)), Ok(()));
        match stream.poll() {
            Delivery::Message(message) => observed.push(message),
            other => panic!("expected a chunk, got {:?}", other),
        }
        assert_eq!(service.begin_call(Method::Interrupt, "abc"), Step::Forward);
    }
    stream.backend_finished();
    assert_eq!(stream.poll(), Delivery::End);

    assert_eq!(observed, vec!["first", "second", "third"]);
    assert_eq!(stream.state(), StreamState::Completed);
    assert_eq!(connects, 1);
    assert_eq!(service.client("abc"), Some(&41));
}

#[test]
fn stream_that_the_backend_refuses_is_not_opened() {
    let mut service: SparkConnectComparatorService<u32> = SparkConnectComparatorService::new();
    service.connected(String::from("abc"), 1);
    let refused: Result<InFlightStream<u8, String>, RelayError<String>> =
        service.open_stream("abc", CallOutcome::Status(String::from("bad plan")));
    assert_eq!(refused.err(), Some(RelayError::Backend(String::from("bad plan"))));
    assert_eq!(service.client("abc"), Some(&1));

    let lost: Result<InFlightStream<u8, String>, RelayError<String>> =
        service.open_stream("abc", CallOutcome::TransportFailure);
    assert_eq!(lost.err(), Some(RelayError::BackendUnavailable));
    assert!(service.client("abc").is_none());
}

#[test]
fn outcomes_are_relayed_verbatim() {
    let answered: CallOutcome<u8, String> = CallOutcome::Response(7);
    assert!(!answered.is_transport_failure());
    assert_eq!(answered.relay(), Ok(7));
    let refused: CallOutcome<u8, String> = CallOutcome::Status(String::from("no"));
    assert!(!refused.is_transport_failure());
    assert_eq!(refused.relay(), Err(RelayError::Backend(String::from("no"))));
    let lost: CallOutcome<u8, String> = CallOutcome::TransportFailure;
    assert!(lost.is_transport_failure());
    assert_eq!(lost.relay(), Err(RelayError::BackendUnavailable));
}

#[test]
fn errors_surface_under_their_own_status() {
    let unavailable: RelayError<String> = RelayError::BackendUnavailable;
    assert_eq!(unavailable.surface(), ClientStatus::Unavailable);
    let unknown: RelayError<String> = RelayError::SessionNotFound;
    assert_eq!(unknown.surface(), ClientStatus::NotFound);
    let aborted: RelayError<String> = RelayError::StreamAborted(Some(String::from("reset")));
    assert_eq!(aborted.surface(), ClientStatus::PassedThrough(String::from("reset")));
    let aborted_bare: RelayError<String> = RelayError::StreamAborted(None);
    assert_eq!(aborted_bare.surface(), ClientStatus::Internal);
    let cancelled: RelayError<String> = RelayError::ClientCancelled;
    assert_eq!(cancelled.surface(), ClientStatus::Cancelled);
    let backend: RelayError<String> = RelayError::Backend(String::from("denied"));
    assert_eq!(backend.surface(), ClientStatus::PassedThrough(String::from("denied")));
}

#[test]
fn only_a_cancelled_caller_is_not_reported() {
    assert!(RelayError::<String>::BackendUnavailable.is_reportable());
    assert!(RelayError::<String>::SessionNotFound.is_reportable());
    assert!(RelayError::<String>::StreamAborted(None).is_reportable());
    assert!(RelayError::Backend(String::from("denied")).is_reportable());
    assert!(!RelayError::<String>::ClientCancelled.is_reportable());
}
