use proxynet::logger::RequestLog;

fn sample() -> RequestLog {
    RequestLog::new("a.test".to_string(), "/hello".to_string(), "GET".to_string(), 200, 12, 1_700_000_000)
}

#[test]
fn new_record_knows_nothing_of_the_client() {
    let log = sample();
    assert_eq!(log.domain, "a.test");
    assert_eq!(log.path, "/hello");
    assert_eq!(log.method, "GET");
    assert_eq!(log.status, 200);
    assert_eq!(log.response_time_ms, 12);
    assert_eq!(log.bytes_sent, 0);
    assert_eq!(log.ip_address, None);
    assert_eq!(log.user_agent, None);
    assert_eq!(log.referer, None);
    assert_eq!(log.timestamp, 1_700_000_000);
}

#[test]
fn builders_set_one_field_each() {
    let log = sample().with_ip("10.0.0.1".to_string());
    assert_eq!(log.ip_address, Some("10.0.0.1".to_string()));
    assert_eq!(log.user_agent, None);
    let log = log.with_user_agent("curl/8".to_string());
    assert_eq!(log.user_agent, Some("curl/8".to_string()));
    assert_eq!(log.referer, None);
    let log = log.with_referer("http://ref.test/".to_string());
    assert_eq!(log.referer, Some("http://ref.test/".to_string()));
    assert_eq!(log.bytes_sent, 0);
    let log = log.with_bytes(1_234);
    assert_eq!(log.bytes_sent, 1_234);
    assert_eq!(log.ip_address, Some("10.0.0.1".to_string()));
    assert_eq!(log.domain, "a.test");
    assert_eq!(log.path, "/hello");
    assert_eq!(log.method, "GET");
    assert_eq!(log.status, 200);
    assert_eq!(log.response_time_ms, 12);
    assert_eq!(log.timestamp, 1_700_000_000);
}

#[test]
fn builders_replace_what_was_set() {
    let log = sample().with_ip("a".to_string()).with_ip("b".to_string()).with_bytes(1).with_bytes(2);
    assert_eq!(log.ip_address, Some("b".to_string()));
    assert_eq!(log.bytes_sent, 2);
}

#[test]
fn log_line_of_a_bare_record() {
    assert_eq!(sample().log(), "logs: GET a.test /hello - 200 in 12ms | IP: unknown | UA: unknown");
}

#[test]
fn log_line_with_client() {
    let log = sample().with_ip("10.0.0.1".to_string()).with_user_agent("curl/8".to_string());
    assert_eq!(log.log(), "logs: GET a.test /hello - 200 in 12ms | IP: 10.0.0.1 | UA: curl/8");
}

#[test]
fn log_line_leaves_out_referer_and_bytes() {
    let log = sample().with_referer("http://ref.test/".to_string()).with_bytes(99);
    assert_eq!(log.log(), "logs: GET a.test /hello - 200 in 12ms | IP: unknown | UA: unknown");
}

#[test]
fn log_line_of_extreme_values() {
    let log = RequestLog::new(String::new(), String::new(), String::new(), 0, 0, 0);
    assert_eq!(log.log(), "logs:    - 0 in 0ms | IP: unknown | UA: unknown");
    let log = RequestLog::new("d".to_string(), "/".to_string(), "PUT".to_string(), u16::MAX, u128::MAX, i64::MIN);
    assert_eq!(
        log.log(),
        "logs: PUT d / - 65535 in 340282366920938463463374607431768211455ms | IP: unknown | UA: unknown"
    );
}

#[test]
fn log_does_not_change_the_record() {
    let log = sample().with_ip("10.0.0.1".to_string());
    let first = log.log();
    let second = log.log();
    assert_eq!(first, second);
    assert_eq!(log.ip_address, Some("10.0.0.1".to_string()));
}
