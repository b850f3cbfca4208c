use grpc_mem_bench::args::Args;
use grpc_mem_bench::text::format_address;
use grpc_mem_bench::text::stream_label;
use grpc_mem_bench::text::u64_to_string;
use grpc_mem_bench::utils::host_port_candidate;
use grpc_mem_bench::utils::resolve_ports;

#[test]
fn decimal_rendering_is_exact() {
    assert_eq!(u64_to_string(0), "0");
    assert_eq!(u64_to_string(7), "7");
    assert_eq!(u64_to_string(50051), "50051");
    assert_eq!(u64_to_string(u64::MAX), "18446744073709551615");
}

#[test]
fn stream_labels_name_the_attempt() {
    assert_eq!(stream_label(0), "stream-0");
    assert_eq!(stream_label(7), "stream-7");
    assert_eq!(stream_label(12345), "stream-12345");
}

#[test]
fn addresses_are_formatted() {
    assert_eq!(format_address("127.0.0.1", 50051), "http://127.0.0.1:50051");
    assert_eq!(format_address("172.17.0.2", 80), "http://172.17.0.2:80");
}

#[test]
fn drawn_ports_stay_in_the_dynamic_range() {
    for _ in 0..100 {
        let p = host_port_candidate();
        assert!((49152..=65535).contains(&p));
    }
}

#[test]
fn exposing_maps_the_configured_port_to_the_drawn_one() {
    let (expose, server_port) = resolve_ports(true, 50051, 61234);
    assert_eq!(expose, Some((50051, 61234)));
    assert_eq!(server_port, 61234);
}

#[test]
fn without_exposing_the_configured_port_is_used_directly() {
    let (expose, server_port) = resolve_ports(false, 50051, 61234);
    assert_eq!(expose, None);
    assert_eq!(server_port, 50051);
}

#[test]
fn the_wait_follows_the_configured_durations() {
    let args = Args {
        image: String::from("example:latest"),
        memory: String::from("512M"),
        port: 50051,
        expose_port: false,
        docker: String::from("unix:///var/run/docker.sock"),
        startup_check_interval: 1000,
        startup_check_timeout: 10000,
    };
    let g = args.health_gate();
    assert_eq!(g.poll_interval_millis, 1000);
    assert_eq!(g.timeout_millis, 10000);
}
