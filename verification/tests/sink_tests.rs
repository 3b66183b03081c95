use http_sink::params::{enrich, Parameter};
use http_sink::sink::{classify_send, Disposition, HttpSink, SendOutcome};
use http_sink::template::{parse_method, ConfigError, HttpConfig};

fn base_config() -> HttpConfig {
    HttpConfig {
        endpoint: "http://localhost:8080".to_string(),
        user_agent: "fluvio/http-sink 0.1.0".to_string(),
        method: "POST".to_string(),
        headers: vec!["Content-Type: text/html".to_string()],
        http_connect_timeout_ms: 1000,
        http_request_timeout_ms: 15000,
        url_parameters: vec![],
    }
}

#[test]
fn builds_http_client_from_config() {
    let sink = HttpSink::new(base_config()).unwrap();
    let t = sink.template();
    assert_eq!(t.header_value("Content-Type").unwrap().as_str(), "text/html");
    assert_eq!(
        t.header_value("User-Agent").unwrap().as_str(),
        "fluvio/http-sink 0.1.0"
    );
    assert_eq!(t.method().name(), "POST");
    assert_eq!(t.url().as_str(), "http://localhost:8080/");
}

#[test]
fn template_keeps_timeouts() {
    let sink = HttpSink::new(base_config()).unwrap();
    assert_eq!(sink.template().connect_timeout_ms(), 1000);
    assert_eq!(sink.template().request_timeout_ms(), 15000);
}

#[test]
fn headers_without_colon_are_skipped() {
    let mut config = base_config();
    config.headers = vec!["X-One:  spaced  ".to_string(), "nocolon".to_string()];
    let sink = HttpSink::new(config).unwrap();
    let t = sink.template();
    assert_eq!(t.header_value("X-One").unwrap().as_str(), "spaced");
    assert_eq!(t.headers().len(), 2);
    assert_eq!(t.headers()[0].0.as_str(), "User-Agent");
}

#[test]
fn enrich_renames_and_prefixes() {
    let params = vec![Parameter::new(
        "id".to_string(),
        Some("uid".to_string()),
        Some("u-".to_string()),
        None,
    )];
    let augs = enrich("{\"id\": 42}", &params);
    assert_eq!(augs, vec![("uid".to_string(), "u-42".to_string())]);
}

#[test]
fn augmentations_follow_parameter_order() {
    let params = vec![
        Parameter::new("b".to_string(), None, None, Some("!".to_string())),
        Parameter::new(
            "a".to_string(),
            Some("alpha".to_string()),
            Some("<".to_string()),
            Some(">".to_string()),
        ),
    ];
    let augs = enrich("{\"a\": \"x\", \"b\": 7}", &params);
    assert_eq!(
        augs,
        vec![
            ("b".to_string(), "7!".to_string()),
            ("alpha".to_string(), "<\"x\">".to_string()),
        ]
    );
}

#[test]
fn duplicate_url_keys_both_emitted() {
    let params = vec![
        Parameter::new("a".to_string(), Some("k".to_string()), None, None),
        Parameter::new("b".to_string(), Some("k".to_string()), None, None),
    ];
    let augs = enrich("{\"a\": 1, \"b\": 2}", &params);
    assert_eq!(
        augs,
        vec![
            ("k".to_string(), "1".to_string()),
            ("k".to_string(), "2".to_string()),
        ]
    );
}

#[test]
fn absent_key_contributes_nothing() {
    let params = vec![Parameter::new("missing".to_string(), None, None, None)];
    let augs = enrich("{\"id\": 1}", &params);
    assert!(augs.is_empty());
}

#[test]
fn empty_params_skip_parsing() {
    let augs = enrich("this is not json at all", &vec![]);
    assert!(augs.is_empty());
}

#[test]
fn query_keys_are_percent_encoded() {
    let params = vec![Parameter::new(
        "v".to_string(),
        Some("a b".to_string()),
        None,
        None,
    )];
    let augs = enrich("{\"v\": 1}", &params);
    assert_eq!(augs, vec![("a%20b".to_string(), "1".to_string())]);
}

#[test]
fn unparseable_record_sends_raw_body() {
    let mut config = base_config();
    config.url_parameters = vec![Parameter::new("id".to_string(), None, None, None)];
    let sink = HttpSink::new(config).unwrap();
    let (req, _sink) = sink.step("not json".to_string());
    assert!(req.query.is_empty());
    assert_eq!(req.body.as_str(), "not json");
}

#[test]
fn repeat_dispatch_is_identical() {
    let mut config = base_config();
    config.url_parameters = vec![Parameter::new(
        "id".to_string(),
        Some("uid".to_string()),
        Some("u-".to_string()),
        None,
    )];
    let sink = HttpSink::new(config).unwrap();
    let (first, sink) = sink.step("{\"id\": 42}".to_string());
    let (second, _sink) = sink.step("{\"id\": 42}".to_string());
    assert_eq!(first, second);
    assert_eq!(
        first.query,
        vec![("uid".to_string(), "u-42".to_string())]
    );
    assert_eq!(first.body.as_str(), "{\"id\": 42}");
}

#[test]
fn materialized_request_carries_template_shape() {
    let sink = HttpSink::new(base_config()).unwrap();
    let (req, _sink) = sink.step("payload".to_string());
    assert_eq!(req.url.as_str(), "http://localhost:8080/");
    assert_eq!(req.method.name(), "POST");
    assert_eq!(req.headers[0].1.as_str(), "fluvio/http-sink 0.1.0");
    assert_eq!(req.connect_timeout_ms, 1000);
    assert_eq!(req.request_timeout_ms, 15000);
}

#[test]
fn non_success_status_does_not_fail_stream() {
    let sink = HttpSink::new(base_config()).unwrap();
    let (_req, sink) = sink.step("first".to_string());
    assert_eq!(
        classify_send(&SendOutcome::Status(500)),
        Disposition::LogWarningAndContinue
    );
    let (req2, _sink) = sink.step("second".to_string());
    assert_eq!(req2.body.as_str(), "second");
}

#[test]
fn status_classification_ranges() {
    assert_eq!(
        classify_send(&SendOutcome::Status(200)),
        Disposition::LogDebugAndContinue
    );
    assert_eq!(
        classify_send(&SendOutcome::Status(204)),
        Disposition::LogDebugAndContinue
    );
    assert_eq!(
        classify_send(&SendOutcome::Status(299)),
        Disposition::LogDebugAndContinue
    );
    assert_eq!(
        classify_send(&SendOutcome::Status(199)),
        Disposition::LogWarningAndContinue
    );
    assert_eq!(
        classify_send(&SendOutcome::Status(300)),
        Disposition::LogWarningAndContinue
    );
    assert_eq!(
        classify_send(&SendOutcome::TransportFailure),
        Disposition::FailStream
    );
}

#[test]
fn bad_method_is_rejected() {
    let mut config = base_config();
    config.method = "FROBNICATE".to_string();
    assert_eq!(HttpSink::new(config).unwrap_err(), ConfigError::InvalidMethod);
}

#[test]
fn lowercase_method_is_rejected() {
    let mut config = base_config();
    config.method = "post".to_string();
    assert_eq!(HttpSink::new(config).unwrap_err(), ConfigError::InvalidMethod);
}

#[test]
fn bad_endpoint_is_rejected() {
    let mut config = base_config();
    config.endpoint = "not a url".to_string();
    assert_eq!(HttpSink::new(config).unwrap_err(), ConfigError::InvalidEndpoint);
}

#[test]
fn every_verb_parses_to_its_spelling() {
    for verb in [
        "GET", "HEAD", "POST", "PUT", "DELETE", "CONNECT", "OPTIONS", "TRACE", "PATCH",
    ] {
        assert_eq!(parse_method(verb).unwrap().name(), verb);
    }
    assert!(parse_method("SPLICE").is_none());
}
