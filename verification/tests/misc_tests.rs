use realtime_notifs::configs::{ConfigFile, EnvSnapshot};
use realtime_notifs::envvars_loader::{
    get_var_bool_optional, get_var_string_required, get_var_u16_optional, get_var_u16_required,
};
use realtime_notifs::lib_http::{
    build_http_response, respond_http_file, respond_http_json, respond_http_json_bytes,
    respond_http_plain_text, HttpRequest,
};
use realtime_notifs::lib_http::{find_eoh, HttpeRequest};
use realtime_notifs::lib_log::AppLog;
use realtime_notifs::numparse::{parse_i16_str, parse_i64_str, parse_u16_str};
use realtime_notifs::send_queue::{
    delivery_next_step, should_enqueue_notif_change, update_batch_is_fatal, DeliveryDecision,
};

#[test]
fn numeric_string_parsing() {
    assert_eq!(parse_i64_str("0"), Some(0));
    assert_eq!(parse_i64_str("-42"), Some(-42));
    assert_eq!(parse_i64_str("+42"), Some(42));
    assert_eq!(parse_i64_str("9223372036854775807"), Some(i64::MAX));
    assert_eq!(parse_i64_str("-9223372036854775808"), Some(i64::MIN));
    assert_eq!(parse_i64_str("9223372036854775808"), None);
    assert_eq!(parse_i64_str(""), None);
    assert_eq!(parse_i64_str("12a"), None);
    assert_eq!(parse_i16_str("32767"), Some(i16::MAX));
    assert_eq!(parse_i16_str("32768"), None);
    assert_eq!(parse_u16_str("65535"), Some(u16::MAX));
    assert_eq!(parse_u16_str("65536"), None);
    assert_eq!(parse_u16_str("-1"), None);
    assert_eq!(parse_u16_str("0007"), Some(7));
}

#[test]
fn env_settings() {
    assert_eq!(
        get_var_string_required("x", Some("value".to_string())).unwrap(),
        "value"
    );
    assert!(get_var_string_required("x", Some("".to_string())).is_err());
    assert!(get_var_string_required("x", None).is_err());
    assert_eq!(get_var_u16_optional("x", None).unwrap(), None);
    assert_eq!(get_var_u16_optional("x", Some("8080".to_string())).unwrap(), Some(8080));
    assert!(get_var_u16_optional("x", Some("80000".to_string())).is_err());
    assert_eq!(get_var_u16_required("x", Some("1883".to_string())).unwrap(), 1883);
    assert_eq!(get_var_bool_optional("x", Some("1".to_string())).unwrap(), Some(true));
    assert_eq!(get_var_bool_optional("x", Some("FALSE".to_string())).unwrap(), Some(false));
    assert!(get_var_bool_optional("x", Some("yes".to_string())).is_err());
}

#[test]
fn config_from_env() {
    let env = EnvSnapshot {
        broker_host: Some("broker.local".to_string()),
        broker_port: Some("1883".to_string()),
        broker_username: Some("user".to_string()),
        broker_password: Some("SECRET-REDACTED".to_string()),
        listen_http_api: Some("0.0.0.0:46136".to_string()),
        apiserver_internal_api: Some("http://api.local".to_string()),
    };
    let cfg = ConfigFile::from_env(&env).unwrap();
    assert_eq!(cfg.broker_config.host, "broker.local");
    assert_eq!(cfg.broker_config.port, 1883);
    assert!(!cfg.broker_config.use_tls);
    let mut missing = env.clone();
    missing.broker_port = None;
    assert!(ConfigFile::from_env(&missing).is_err());
    let mut bad = env.clone();
    bad.broker_port = Some("not-a-port".to_string());
    assert!(ConfigFile::from_env(&bad).is_err());
}

#[test]
fn http_response_builders() {
    let r = build_http_response(200, b"hello".to_vec(), "text/plain");
    assert_eq!(r.status_code, 200);
    assert_eq!(r.status_desc, "OK");
    assert_eq!(r.headers[0], ("Content-Type".to_string(), "text/plain".to_string()));
    assert_eq!(r.headers[1], ("Content-Length".to_string(), "5".to_string()));
    let r = respond_http_plain_text(404, "nope");
    assert_eq!(r.status_desc, "Not Found");
    assert_eq!(r.content, b"nope".to_vec());
    let r = respond_http_json(501, "{}");
    assert_eq!(r.status_desc, "Not Implemented");
    assert_eq!(r.headers[0].1, "application/json; charset=UTF-8");
    let r = respond_http_json_bytes(400, b"{}".to_vec());
    assert_eq!(r.status_desc, "Bad Request");
    let r = respond_http_file(200, b"x".to_vec(), "json");
    assert_eq!(r.headers[0].1, "application/json");
    let r = respond_http_file(200, b"x".to_vec(), "weird");
    assert_eq!(r.headers[0].1, "unknown");
    let r = build_http_response(599, Vec::new(), "text/plain");
    assert_eq!(r.status_desc, "Unknown");
}

#[test]
fn http_request_constructors() {
    let get = HttpRequest::new_get("/health".to_string());
    assert_eq!(get.method, "GET");
    assert_eq!(get.path, "/health");
    assert!(get.content.is_empty());
    let post = HttpRequest::new_post("/data".to_string(), b"{}".to_vec());
    assert_eq!(post.method, "POST");
    assert_eq!(post.content, b"{}".to_vec());
}

#[test]
fn log_file_names() {
    let log = AppLog { app_name: "realtime" };
    assert_eq!(log.log_file_name_for_day("2024-01-01"), "./log/realtime_2024-01-01.txt");
    assert_eq!(
        log.stats_file_name_for_day("2024-01-01"),
        "./log/stats_realtime_2024-01-01.txt"
    );
}

#[test]
fn delivery_retry_policy() {
    assert_eq!(delivery_next_step(1, true), DeliveryDecision::Done);
    assert_eq!(delivery_next_step(1, false), DeliveryDecision::RetryAfterWait);
    assert_eq!(delivery_next_step(2, false), DeliveryDecision::RetryAfterWait);
    assert_eq!(delivery_next_step(3, false), DeliveryDecision::DropItem);
}

#[test]
fn change_queue_policies() {
    assert!(should_enqueue_notif_change(5));
    assert!(!should_enqueue_notif_change(0));
    assert!(update_batch_is_fatal(0));
    assert!(!update_batch_is_fatal(3));
}

#[test]
fn raw_request_span_accessors() {
    let data = b"GET /health HTTP/1.1\r\nhost: local\r\n\r\nbody".to_vec();
    let req = HttpeRequest {
        data,
        // "host" at 22..26, "local" at 28..33.
        headers_i: vec![(22, 26, 28, 33)],
        method_i: Some((0, 3)),
        path_i: Some((4, 11)),
        content_i: Some((37, 41)),
    };
    assert_eq!(req.get_method(), "GET");
    assert_eq!(req.get_path(), "/health");
    assert_eq!(req.get_header("host"), Some("local"));
    assert_eq!(req.get_header("accept"), None);
    let (body, len) = req.get_content();
    assert_eq!(body, b"body");
    assert_eq!(len, 4);
}

#[test]
fn header_block_end_detection() {
    let buf = b"GET / HTTP/1.1\r\nhost: x\r\n\r\ncontent";
    assert_eq!(find_eoh(buf, buf.len()), Some((23, 4)));
    let buf = b"GET / HTTP/1.1\n\ncontent";
    assert_eq!(find_eoh(buf, buf.len()), Some((14, 2)));
    let buf = b"GET / HTTP/1.1\r\nhost: x";
    assert_eq!(find_eoh(buf, buf.len()), None);
    assert_eq!(find_eoh(b"", 0), None);
}
