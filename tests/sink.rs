use servesink::ack::{failure_message, Ack, Status};
use servesink::config::{SinkConfig, DEFAULT_CALLBACK_URL_HEADER, DEFAULT_MESSAGE_ID_HEADER};
use servesink::headers::{lookup, resolve, Header, ResolveError};
use servesink::request::{build_request, OutboundRequest};
use servesink::sink::{ForwardingSink, InboundRecord};

fn header(name: &str, value: &str) -> Header {
    Header::new(name.to_string(), value.to_string())
}

fn record(id: &str, headers: Vec<Header>, value: &[u8]) -> InboundRecord {
    InboundRecord::new(id.to_string(), headers, value.to_vec())
}

fn default_sink() -> ForwardingSink {
    ForwardingSink::new(SinkConfig::new(None, None))
}

fn header_pairs(req: &OutboundRequest) -> Vec<(String, String)> {
    req.headers.iter().map(|h| (h.name.clone(), h.value.clone())).collect()
}

fn failure_text(ack: &Ack) -> Option<String> {
    match &ack.status {
        Status::Success => None,
        Status::Failure(m) => Some(m.clone()),
    }
}

#[test]
fn both_headers_forward_to_save_endpoint() {
    let mut sink = default_sink();
    let rec = record(
        "r1",
        vec![
            header("X-Numaflow-Callback-Url", "http://cb"),
            header("X-Numaflow-Id", "m1"),
        ],
        b"payload",
    );
    let req = sink.on_record(rec).expect("a request is owed");
    assert_eq!(req.url, "http://cb_save");
    assert_eq!(
        header_pairs(&req),
        vec![
            ("X-Numaflow-Id".to_string(), "m1".to_string()),
            ("id".to_string(), "m1".to_string()),
        ]
    );
    assert_eq!(req.body, b"payload".to_vec());
    assert!(sink.awaiting_outcome());
    sink.on_outcome(Ok(()));
    let acks = sink.finish();
    assert_eq!(acks.len(), 1);
    assert_eq!(acks[0].id, "r1");
    assert!(acks[0].is_success());
}

#[test]
fn no_headers_acknowledged_without_request() {
    let mut sink = default_sink();
    let req = sink.on_record(record("r2", vec![], b""));
    assert!(req.is_none());
    assert!(!sink.awaiting_outcome());
    let acks = sink.finish();
    assert_eq!(acks.len(), 1);
    assert_eq!(acks[0].id, "r2");
    assert!(acks[0].is_success());
}

#[test]
fn missing_correlation_id_acknowledged_without_request() {
    let mut sink = default_sink();
    let req = sink.on_record(record(
        "r3",
        vec![header("X-Numaflow-Callback-Url", "http://cb")],
        b"x",
    ));
    assert!(req.is_none());
    let acks = sink.finish();
    assert_eq!(acks[0].id, "r3");
    assert!(acks[0].is_success());
}

#[test]
fn transport_error_gives_failure_with_message() {
    let mut sink = default_sink();
    let rec = record(
        "r4",
        vec![
            header("X-Numaflow-Callback-Url", "http://down"),
            header("X-Numaflow-Id", "m4"),
        ],
        b"p",
    );
    assert!(sink.on_record(rec).is_some());
    sink.on_outcome(Err("connection refused".to_string()));
    let acks = sink.finish();
    assert_eq!(acks.len(), 1);
    assert_eq!(acks[0].id, "r4");
    assert!(!acks[0].is_success());
    assert_eq!(
        failure_text(&acks[0]),
        Some("Failed to send: connection refused".to_string())
    );
}

#[test]
fn one_ack_per_record_in_order() {
    let mut sink = default_sink();
    let full = |id: &str| {
        record(
            id,
            vec![
                header("X-Numaflow-Callback-Url", "http://cb"),
                header("X-Numaflow-Id", "m"),
            ],
            b"v",
        )
    };
    assert!(sink.on_record(full("a")).is_some());
    sink.on_outcome(Ok(()));
    assert!(sink.on_record(record("b", vec![], b"")).is_none());
    assert!(sink.on_record(full("c")).is_some());
    sink.on_outcome(Err("timeout".to_string()));
    assert!(sink.on_record(full("d")).is_some());
    sink.on_outcome(Ok(()));
    let acks = sink.finish();
    let ids: Vec<&str> = acks.iter().map(|a| a.id.as_str()).collect();
    assert_eq!(ids, vec!["a", "b", "c", "d"]);
    let ok: Vec<bool> = acks.iter().map(|a| a.is_success()).collect();
    assert_eq!(ok, vec![true, true, false, true]);
}

#[test]
fn empty_stream_gives_no_acks() {
    let sink = default_sink();
    assert!(sink.finish().is_empty());
}

#[test]
fn configured_keys_replace_defaults() {
    let cfg = SinkConfig::new(Some("cb-key".to_string()), Some("id-key".to_string()));
    assert_eq!(cfg.callback_url_key, "cb-key");
    assert_eq!(cfg.message_id_key, "id-key");
    let mut sink = ForwardingSink::new(cfg);
    // the default names are not read once other keys are configured
    let ignored = record(
        "r5",
        vec![
            header("X-Numaflow-Callback-Url", "http://cb"),
            header("X-Numaflow-Id", "m"),
        ],
        b"",
    );
    assert!(sink.on_record(ignored).is_none());
    let used = record(
        "r6",
        vec![header("cb-key", "https://host/x"), header("id-key", "m6")],
        b"body",
    );
    let req = sink.on_record(used).expect("a request is owed");
    assert_eq!(req.url, "https://host/x_save");
    assert_eq!(
        header_pairs(&req),
        vec![
            ("id-key".to_string(), "m6".to_string()),
            ("id".to_string(), "m6".to_string()),
        ]
    );
}

#[test]
fn default_keys() {
    let cfg = SinkConfig::new(None, None);
    assert_eq!(cfg.callback_url_key, DEFAULT_CALLBACK_URL_HEADER);
    assert_eq!(cfg.message_id_key, DEFAULT_MESSAGE_ID_HEADER);
    assert_eq!(DEFAULT_CALLBACK_URL_HEADER, "X-Numaflow-Callback-Url");
    assert_eq!(DEFAULT_MESSAGE_ID_HEADER, "X-Numaflow-Id");
    let mixed = SinkConfig::new(None, Some("k".to_string()));
    assert_eq!(mixed.callback_url_key, "X-Numaflow-Callback-Url");
    assert_eq!(mixed.message_id_key, "k");
}

#[test]
fn lookup_is_case_sensitive_and_takes_first() {
    let hs = vec![header("a", "1"), header("B", "2"), header("a", "3")];
    assert_eq!(lookup(&hs, &"a".to_string()), Some("1".to_string()));
    assert_eq!(lookup(&hs, &"B".to_string()), Some("2".to_string()));
    assert_eq!(lookup(&hs, &"b".to_string()), None);
    assert_eq!(lookup(&vec![], &"a".to_string()), None);
}

#[test]
fn resolve_names_the_missing_key() {
    let cb = "cb".to_string();
    let idk = "idk".to_string();
    match resolve(&vec![header("idk", "m")], &cb, &idk) {
        Err(ResolveError::MissingField(k)) => assert_eq!(k, "cb"),
        Ok(_) => panic!("callback key is missing"),
    }
    match resolve(&vec![header("cb", "u")], &cb, &idk) {
        Err(ResolveError::MissingField(k)) => assert_eq!(k, "idk"),
        Ok(_) => panic!("id key is missing"),
    }
    match resolve(&vec![], &cb, &idk) {
        Err(ResolveError::MissingField(k)) => assert_eq!(k, "cb"),
        Ok(_) => panic!("both keys are missing"),
    }
    let r = resolve(&vec![header("idk", "m"), header("cb", "u")], &cb, &idk);
    assert!(matches!(r, Ok((ref u, ref m)) if u == "u" && m == "m"));
}

#[test]
fn build_request_appends_suffix() {
    let req = build_request(
        &"http://x".to_string(),
        &"k".to_string(),
        &"c".to_string(),
        vec![1, 2, 3],
    );
    assert_eq!(req.url, "http://x_save");
    assert_eq!(
        header_pairs(&req),
        vec![("k".to_string(), "c".to_string()), ("id".to_string(), "c".to_string())]
    );
    assert_eq!(req.body, vec![1, 2, 3]);
}

#[test]
fn failure_message_prefixes_error() {
    assert_eq!(failure_message("boom"), "Failed to send: boom");
    assert_eq!(failure_message(""), "Failed to send: ");
}

#[test]
fn ack_constructors() {
    let a = Ack::ok("x".to_string());
    assert!(a.is_success());
    let f = Ack::failure("y".to_string(), "bad".to_string());
    assert!(!f.is_success());
    assert_eq!(f.id, "y");
    assert_eq!(failure_text(&f), Some("bad".to_string()));
}
