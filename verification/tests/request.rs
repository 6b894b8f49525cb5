use agent::config::Config;
use agent::inventory::Snapshot;
use agent::request::{probe_request, status_request, Header, Method};

fn header(name: &str, value: &str) -> Header {
    Header { name: name.to_string(), value: value.to_string() }
}

#[test]
fn status_request_is_a_post_to_the_status_endpoint() {
    let snapshot = Snapshot::new(Vec::new(), Vec::new(), Vec::new());
    let request = status_request(&Config::inventory(), &snapshot);
    assert_eq!(request.method, Method::Post);
    assert_eq!(request.url, "http://localhost:3000/api/v1/agent/status");
}

#[test]
fn status_request_is_marked_as_json_and_carries_the_token() {
    let snapshot = Snapshot::new(Vec::new(), Vec::new(), Vec::new());
    let request = status_request(&Config::inventory(), &snapshot);
    assert_eq!(
        request.headers,
        vec![
            header("Content-Type", "application/json"),
            header("x-agent-token", "10dbcfc6-9e9b-478f-be81-bbd8b1df176e"),
        ]
    );
}

#[test]
fn status_request_body_is_the_payload() {
    let snapshot = Snapshot::new(
        vec!["{\"Id\":\"c1\"}".to_string(), "{\"Id\":\"c2\"}".to_string()],
        vec!["{\"Id\":\"i1\"}".to_string()],
        Vec::new(),
    );
    let request = status_request(&Config::inventory(), &snapshot);
    assert_eq!(request.body, Some(snapshot.payload()));
    assert_eq!(
        request.body.unwrap(),
        "{\"containers\":[{\"Id\":\"c1\"},{\"Id\":\"c2\"}],\"images\":[{\"Id\":\"i1\"}],\"networks\":[]}"
    );
}

#[test]
fn status_request_follows_the_settings() {
    let mut config = Config::inventory();
    config.url = "http://collector.test/ingest".to_string();
    config.token = "t0ken".to_string();
    let request = status_request(&config, &Snapshot::new(Vec::new(), Vec::new(), Vec::new()));
    assert_eq!(request.url, "http://collector.test/ingest");
    assert_eq!(request.headers[1], header("x-agent-token", "t0ken"));
    assert_eq!(request.headers.len(), 2);
}

#[test]
fn probe_request_is_a_bare_get() {
    let request = probe_request(&Config::probe());
    assert_eq!(request.method, Method::Get);
    assert_eq!(request.url, "https://example.com/api");
    assert_eq!(request.headers, Vec::new());
    assert_eq!(request.body, None);
}
