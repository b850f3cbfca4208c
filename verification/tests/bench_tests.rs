use grpc_mem_bench::bench::Bench;
use grpc_mem_bench::bench::StreamEvent;

fn fresh() -> Bench {
    Bench::new(String::from("http://127.0.0.1:50051"))
}

#[test]
fn new_starts_clean() {
    let b = fresh();
    assert_eq!(b.number_of_streams, 0);
    assert_eq!(b.connections_since_last_report, 0);
    assert_eq!(b.connection_time_since_last_report, 0);
    assert_eq!(b.pongs_received_since_last_report, 0);
    assert!(!b.is_shutting_down);
    assert!(b.failure_reason.is_none());
    assert_eq!(b.address, "http://127.0.0.1:50051");
}

#[test]
fn add_pong_counts_messages() {
    let mut b = fresh();
    b.add_pong();
    b.add_pong();
    b.add_pong();
    assert_eq!(b.pongs_received_since_last_report, 3);
    assert_eq!(b.number_of_streams, 0);
    assert_eq!(b.connections_since_last_report, 0);
}

#[test]
fn add_connection_records_all_three_counters() {
    let mut b = fresh();
    b.add_connection(10);
    b.add_connection(20);
    assert_eq!(b.connection_time_since_last_report, 30);
    assert_eq!(b.connections_since_last_report, 2);
    assert_eq!(b.number_of_streams, 2);
    assert_eq!(b.pongs_received_since_last_report, 0);
}

#[test]
fn report_with_zero_connections_has_zero_average() {
    let mut b = fresh();
    b.add_pong();
    let r = b.report_and_reset();
    assert_eq!(r.connections, 0);
    assert_eq!(r.avg_connection_time, 0);
    assert_eq!(r.pongs_received, 1);
}

#[test]
fn report_resets_window_and_keeps_streams() {
    let mut b = fresh();
    b.add_connection(10);
    b.add_connection(20);
    b.add_pong();
    let r = b.report_and_reset();
    assert_eq!(r.number_of_streams, 2);
    assert_eq!(r.connections, 2);
    assert_eq!(r.pongs_received, 1);
    assert_eq!(b.pongs_received_since_last_report, 0);
    assert_eq!(b.connections_since_last_report, 0);
    assert_eq!(b.connection_time_since_last_report, 0);
    assert_eq!(b.number_of_streams, 2);
    let r2 = b.report_and_reset();
    assert_eq!(r2.number_of_streams, 2);
    assert_eq!(r2.connections, 0);
    assert_eq!(r2.pongs_received, 0);
}

#[test]
fn report_average_is_total_time_over_connections() {
    let mut b = fresh();
    b.add_connection(10);
    b.add_connection(20);
    b.add_connection(30);
    let r = b.report_and_reset();
    assert_eq!(r.avg_connection_time, 20);
    assert_eq!(r.connections, 3);
}

#[test]
fn fail_fires_exactly_once() {
    let mut b = fresh();
    assert!(b.fail("stream-1"));
    assert!(b.is_shutting_down);
    assert!(!b.fail("stream-2"));
    assert!(!b.fail("stream-3"));
    assert_eq!(b.failure_reason.as_deref(), Some("stream-1"));
}

#[test]
fn fail_keeps_the_metrics() {
    let mut b = fresh();
    b.add_connection(7);
    b.add_pong();
    b.fail("stream-0");
    assert_eq!(b.connection_time_since_last_report, 7);
    assert_eq!(b.connections_since_last_report, 1);
    assert_eq!(b.number_of_streams, 1);
    assert_eq!(b.pongs_received_since_last_report, 1);
}

#[test]
fn stream_event_message_is_counted() {
    let mut b = fresh();
    let wins = b.on_stream_event(StreamEvent::Message, "stream-0");
    assert!(wins.is_none());
    assert_eq!(b.pongs_received_since_last_report, 1);
    assert!(!b.is_shutting_down);
}

#[test]
fn stream_event_failure_trips_the_latch() {
    let mut b = fresh();
    assert_eq!(b.on_stream_event(StreamEvent::Failed, "stream-4"), Some(true));
    assert_eq!(b.on_stream_event(StreamEvent::Closed, "stream-5"), Some(false));
    assert_eq!(b.failure_reason.as_deref(), Some("stream-4"));
}

#[test]
fn setup_failure_reason_identifies_the_attempt() {
    let mut b = fresh();
    let wins = b.connection_loop_turn(3, false, 12);
    assert_eq!(wins, Some(true));
    assert_eq!(b.failure_reason.as_deref(), Some("stream-3"));
    // The attempt is still recorded, and a sibling worker's turn goes on.
    assert_eq!(b.connections_since_last_report, 1);
    assert_eq!(b.connection_time_since_last_report, 12);
    let wins2 = b.connection_loop_turn(9, false, 5);
    assert_eq!(wins2, Some(false));
    assert_eq!(b.failure_reason.as_deref(), Some("stream-3"));
    assert_eq!(b.connections_since_last_report, 2);
}

#[test]
fn counters_wrap_like_a_fetch_and_add() {
    let mut b = fresh();
    b.pongs_received_since_last_report = u64::MAX;
    b.add_pong();
    assert_eq!(b.pongs_received_since_last_report, 0);
    b.connection_time_since_last_report = u64::MAX - 5;
    b.add_connection(10);
    assert_eq!(b.connection_time_since_last_report, 4);
    assert_eq!(b.connections_since_last_report, 1);
}

#[test]
fn successful_setup_records_and_keeps_running() {
    let mut b = fresh();
    let wins = b.connection_loop_turn(0, true, 4);
    assert!(wins.is_none());
    assert!(!b.is_shutting_down);
    assert_eq!(b.number_of_streams, 1);
    assert_eq!(b.connection_time_since_last_report, 4);
}
