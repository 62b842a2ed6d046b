use probe::{
    aggregate, classify_response, per_second, sleep_after, Config, ConfigError, InterfaceCounters,
    NetworkUsage, Span, SubmitOutcome, NANOS_PER_SEC,
};

fn iface(received: u64, transmitted: u64, total_received: u64, total_transmitted: u64) -> InterfaceCounters {
    InterfaceCounters { received, transmitted, total_received, total_transmitted }
}

fn millis(ms: u64) -> Span {
    Span { secs: ms / 1000, nanos: ((ms % 1000) * 1_000_000) as u32 }
}

fn span_nanos(s: Span) -> u128 {
    s.secs as u128 * NANOS_PER_SEC as u128 + s.nanos as u128
}

#[test]
fn speed_of_500_bytes_over_5_seconds() {
    assert_eq!(per_second(500, 5), 100);
    let u = aggregate(&vec![iface(300, 0, 1000, 0), iface(200, 0, 2000, 0)], 5);
    assert_eq!(u.received, 500);
    assert_eq!(u.received_speed, 100);
}

#[test]
fn speed_rounds_down() {
    assert_eq!(per_second(7, 2), 3);
    assert_eq!(per_second(4, 5), 0);
    let u = aggregate(&vec![iface(10, 29, 0, 0), iface(1, 1, 0, 0)], 3);
    assert_eq!(u.received, 11);
    assert_eq!(u.received_speed, 3);
    assert_eq!(u.transmitted, 30);
    assert_eq!(u.transmitted_speed, 10);
}

#[test]
fn speed_with_zero_interval_is_zero() {
    assert_eq!(per_second(500, 0), 0);
    let u = aggregate(&vec![iface(500, 400, 9, 9)], 0);
    assert_eq!(u.received, 500);
    assert_eq!(u.received_speed, 0);
    assert_eq!(u.transmitted_speed, 0);
}

#[test]
fn no_interfaces_gives_zero_traffic() {
    let zero = NetworkUsage {
        received: 0,
        transmitted: 0,
        received_speed: 0,
        transmitted_speed: 0,
        total_received: 0,
        total_transmitted: 0,
    };
    assert_eq!(aggregate(&vec![], 5), zero);
    assert_eq!(aggregate(&vec![], 1), zero);
    assert_eq!(aggregate(&vec![], 0), zero);
}

#[test]
fn counters_are_summed_over_interfaces() {
    let u = aggregate(&vec![iface(1, 2, 30, 40), iface(5, 6, 70, 80), iface(0, 0, 0, 0)], 1);
    assert_eq!(
        u,
        NetworkUsage {
            received: 6,
            transmitted: 8,
            received_speed: 6,
            transmitted_speed: 8,
            total_received: 100,
            total_transmitted: 120,
        }
    );
}

#[test]
fn sums_stay_at_the_largest_u64() {
    let u = aggregate(&vec![iface(u64::MAX, 1, u64::MAX - 1, 3), iface(5, 2, 7, 4)], 1);
    assert_eq!(u.received, u64::MAX);
    assert_eq!(u.transmitted, 3);
    assert_eq!(u.total_received, u64::MAX);
    assert_eq!(u.total_transmitted, 7);
}

#[test]
fn sleep_fills_the_rest_of_the_interval() {
    assert_eq!(sleep_after(1, millis(300)), millis(700));
    assert_eq!(sleep_after(2, millis(300)), Span { secs: 1, nanos: 700_000_000 });
    assert_eq!(sleep_after(1, millis(0)), Span { secs: 1, nanos: 0 });
    assert_eq!(sleep_after(3, millis(1000)), Span { secs: 2, nanos: 0 });
}

#[test]
fn ten_cycles_take_ten_intervals() {
    let mut total: u128 = 0;
    for _ in 0..10 {
        let work = millis(300);
        total += span_nanos(work) + span_nanos(sleep_after(1, work));
    }
    assert_eq!(total, 10 * NANOS_PER_SEC as u128);
}

#[test]
fn overrun_sleeps_zero() {
    let zero = Span { secs: 0, nanos: 0 };
    assert_eq!(sleep_after(1, millis(1500)), zero);
    assert_eq!(sleep_after(1, millis(1000)), zero);
    assert_eq!(sleep_after(0, millis(1)), zero);
    assert_eq!(sleep_after(1, Span { secs: u64::MAX, nanos: 999_999_999 }), zero);
}

#[test]
fn sleep_of_a_long_interval() {
    let s = sleep_after(u64::MAX, Span { secs: 0, nanos: 1 });
    assert_eq!(s, Span { secs: u64::MAX - 1, nanos: 999_999_999 });
}

#[test]
fn success_status_is_accepted() {
    assert!(matches!(classify_response(200, String::new()), SubmitOutcome::Accepted(200)));
    assert!(matches!(classify_response(299, String::from("x")), SubmitOutcome::Accepted(299)));
    assert!(!classify_response(204, String::new()).is_failure());
}

#[test]
fn other_status_is_rejected_with_its_body() {
    match classify_response(503, String::from("overloaded")) {
        SubmitOutcome::Rejected(503, body) => assert_eq!(body, "overloaded"),
        other => panic!("unexpected outcome {:?}", other),
    }
    assert!(matches!(classify_response(300, String::new()), SubmitOutcome::Rejected(300, _)));
    assert!(matches!(classify_response(199, String::new()), SubmitOutcome::Rejected(199, _)));
    assert!(classify_response(404, String::new()).is_failure());
}

#[test]
fn transport_failure_is_a_failure() {
    assert!(SubmitOutcome::TransportFailure(String::from("connection refused")).is_failure());
}

#[test]
fn zero_interval_is_refused() {
    let r = Config::new(String::from("node"), String::from("http://h"), String::from("t"), 0);
    assert!(matches!(r, Err(ConfigError::ZeroInterval)));
}

#[test]
fn missing_values_are_refused_in_order() {
    let s = |x: &str| String::from(x);
    assert!(matches!(Config::new(s(""), s(""), s(""), 0), Err(ConfigError::EmptyNodeName)));
    assert!(matches!(Config::new(s("n"), s(""), s(""), 0), Err(ConfigError::EmptyApiHost)));
    assert!(matches!(Config::new(s("n"), s("h"), s(""), 0), Err(ConfigError::EmptyToken)));
}

#[test]
fn valid_config_is_kept_and_gives_the_submit_url() {
    let c = Config::new(
        String::from("node-1"),
        String::from("http://collector:8080"),
        String::from("tok-42"),
        5,
    )
    .unwrap();
    assert_eq!(c.node_name, "node-1");
    assert_eq!(c.api_host, "http://collector:8080");
    assert_eq!(c.token, "tok-42");
    assert_eq!(c.interval_seconds, 5);
    assert_eq!(c.submit_url(), "http://collector:8080/submit");
}
