use spark_connect_relay::outbound_multiplexer::{OutboundMultiplexer, Resolution};

#[test]
fn new_multiplexer_has_default_destination_and_no_sessions() {
    let muxer: OutboundMultiplexer<u32> = OutboundMultiplexer::new();
    assert_eq!(muxer.destination(), "http://[::1]:50051");
    assert_eq!(muxer.session_count(), 0);
    assert!(!muxer.has_session("abc"));
    assert!(muxer.get_client("abc").is_none());
}

#[test]
fn destination_is_the_one_given() {
    let muxer: OutboundMultiplexer<u32> =
        OutboundMultiplexer::with_destination(String::from("http://backend:15002"));
    assert_eq!(muxer.destination(), "http://backend:15002");
    assert_eq!(muxer.session_count(), 0);
}

#[test]
fn first_caller_connects_and_later_callers_wait() {
    let mut muxer: OutboundMultiplexer<u32> = OutboundMultiplexer::new();
    assert_eq!(muxer.resolve("abc"), Resolution::Connect);
    assert!(muxer.has_session("abc"));
    assert!(muxer.get_client("abc").is_none());
    assert_eq!(muxer.resolve("abc"), Resolution::Wait);
    assert_eq!(muxer.resolve("abc"), Resolution::Wait);
    assert_eq!(muxer.session_count(), 1);
}

#[test]
fn sequential_resolves_return_the_same_connection() {
    let mut muxer: OutboundMultiplexer<String> = OutboundMultiplexer::new();
    assert_eq!(muxer.resolve("abc"), Resolution::Connect);
    muxer.add_client(String::from("abc"), String::from("connection-1"));

    assert_eq!(muxer.resolve("abc"), Resolution::Ready);
    let first: String = muxer.get_client("abc").unwrap().clone();
    assert_eq!(muxer.resolve("abc"), Resolution::Ready);
    let second: &String = muxer.get_client("abc").unwrap();

    assert_eq!(&first, second);
    assert!(std::ptr::eq(second, muxer.get_client("abc").unwrap()));
    assert_eq!(muxer.get_client("abc"), Some(&String::from("connection-1")));
    assert_eq!(muxer.session_count(), 1);
}

#[test]
fn failed_connect_registers_nothing() {
    let mut muxer: OutboundMultiplexer<u32> = OutboundMultiplexer::new();
    assert_eq!(muxer.resolve("abc"), Resolution::Connect);
    muxer.connect_failed("abc");
    assert!(!muxer.has_session("abc"));
    assert_eq!(muxer.session_count(), 0);
    assert_eq!(muxer.resolve("abc"), Resolution::Connect);
}

#[test]
fn failed_connect_keeps_an_established_connection() {
    let mut muxer: OutboundMultiplexer<u32> = OutboundMultiplexer::new();
    muxer.add_client(String::from("abc"), 4);
    muxer.connect_failed("abc");
    assert_eq!(muxer.get_client("abc"), Some(&4));
    muxer.connect_failed("never-seen");
    assert_eq!(muxer.session_count(), 1);
}

#[test]
fn evicted_session_gets_a_new_connection() {
    let mut muxer: OutboundMultiplexer<u32> = OutboundMultiplexer::new();
    assert_eq!(muxer.resolve("abc"), Resolution::Connect);
    muxer.add_client(String::from("abc"), 1);
    muxer.remove_client("abc");
    assert!(muxer.get_client("abc").is_none());
    assert_eq!(muxer.resolve("abc"), Resolution::Connect);
    muxer.add_client(String::from("abc"), 2);
    assert_eq!(muxer.get_client("abc"), Some(&2));
}

#[test]
fn evicting_an_unknown_session_is_a_no_op() {
    let mut muxer: OutboundMultiplexer<u32> = OutboundMultiplexer::new();
    muxer.add_client(String::from("abc"), 1);
    muxer.remove_client("xyz");
    muxer.remove_client("xyz");
    assert_eq!(muxer.session_count(), 1);
    assert_eq!(muxer.get_client("abc"), Some(&1));
    muxer.remove_client("abc");
    muxer.remove_client("abc");
    assert_eq!(muxer.session_count(), 0);
}

#[test]
fn sessions_do_not_share_or_block_each_other() {
    let mut muxer: OutboundMultiplexer<u32> = OutboundMultiplexer::new();
    assert_eq!(muxer.resolve("s1"), Resolution::Connect);
    // s1 is still connecting; s2 is not held up by it.
    assert_eq!(muxer.resolve("s2"), Resolution::Connect);
    muxer.add_client(String::from("s2"), 20);
    assert_eq!(muxer.resolve("s2"), Resolution::Ready);
    assert_eq!(muxer.resolve("s1"), Resolution::Wait);
    muxer.add_client(String::from("s1"), 10);
    assert_eq!(muxer.get_client("s1"), Some(&10));
    assert_eq!(muxer.get_client("s2"), Some(&20));
    muxer.remove_client("s1");
    assert_eq!(muxer.get_client("s2"), Some(&20));
    assert_eq!(muxer.resolve("s2"), Resolution::Ready);
}

#[test]
fn session_identifiers_are_opaque() {
    let mut muxer: OutboundMultiplexer<u32> = OutboundMultiplexer::new();
    muxer.add_client(String::from("abc"), 1);
    muxer.add_client(String::from("ABC"), 2);
    muxer.add_client(String::from(" abc"), 3);
    muxer.add_client(String::new(), 4);
    assert_eq!(muxer.session_count(), 4);
    assert_eq!(muxer.get_client("abc"), Some(&1));
    assert_eq!(muxer.get_client("ABC"), Some(&2));
    assert_eq!(muxer.get_client(" abc"), Some(&3));
    assert_eq!(muxer.get_client(""), Some(&4));
}

#[test]
fn registering_again_replaces_the_connection() {
    let mut muxer: OutboundMultiplexer<u32> = OutboundMultiplexer::new();
    muxer.add_client(String::from("abc"), 1);
    muxer.add_client(String::from("abc"), 2);
    assert_eq!(muxer.session_count(), 1);
    assert_eq!(muxer.get_client("abc"), Some(&2));
}
