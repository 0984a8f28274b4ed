use kluster::auth::KlusterAuth;
use kluster::client::Kluster;
use kluster::client::Transport;
use kluster::error::ConfigFault;
use kluster::error::KubeError;
use kluster::objects::Metadata;
use kluster::objects::Pod;
use kluster::objects::PodList;
use kluster::objects::PodStatus;
use kluster::wire::Method;
use kluster::wire::Request;
use kluster::wire::Response;
use hyper::Url;
use rustls::Certificate;
use rustls::PrivateKey;
use serde_json::Value;
use std::time::Duration;

const CA: &str = "-----BEGIN CERTIFICATE-----
MIIBijCCATCgAwIBAgITWoyC3vFYtgpyUwD7LqzbuP0rQDAKBggqhkjOPQQDAjAa
MRgwFgYDVQQDDA90ZXN0LWNsdXN0ZXItY2EwIBcNMjYxMDI4MDIxNzQ2WhgPMjEy
NjEwMDQwMjE3NDZaMBoxGDAWBgNVBAMMD3Rlc3QtY2x1c3Rlci1jYTBZMBMGByqG
SM49AgEGCCqGSM49AwEHA0IABMWv1KXWuz7rwatZsiOzk1ZgZzQJwSpg6vYfvUcl
6Zmetqnqq1LaJCjWBW1ReaJr1a9hcE9obmnkv9ZCJ9iqJzujUzBRMB0GA1UdDgQW
BBQ775TQmfet18+FZ4D0A/M1Tp2V4DAfBgNVHSMEGDAWgBQ775TQmfet18+FZ4D0
A/M1Tp2V4DAPBgNVHRMBAf8EBTADAQH/MAoGCCqGSM49BAMCA0gAMEUCIQCXjZud
wSnF9Fe0hg42bAMmzL0SvLg+38UjyRsp6dXzgAIgMkzG0cARv6MGgkg9JdyZckWB
dvlKaJ3kGOD7roOHGsI=
-----END CERTIFICATE-----
";

const CA_PATH: &str = "/etc/cluster/ca.pem";

fn read_ca(_path: String) -> Option<Vec<u8>> {
    Some(CA.as_bytes().to_vec())
}

fn never_read(path: String) -> Option<Vec<u8>> {
    panic!("{} must not be read", path)
}

fn with_token() -> Kluster {
    Kluster::new(
        "prod",
        CA_PATH,
        "https://kube.example:6443",
        KlusterAuth::with_token("t0k3n"),
        read_ca,
    )
    .unwrap()
}

fn with_certificate() -> Kluster {
    let mut key = vec![
        0x30, 0x2e, 0x02, 0x01, 0x00, 0x30, 0x05, 0x06, 0x03, 0x2b, 0x65, 0x70, 0x04, 0x22, 0x04,
        0x20,
    ];
    for i in 1..=32u8 {
        key.push(i);
    }
    Kluster::new(
        "prod",
        CA_PATH,
        "https://kube.example:6443",
        KlusterAuth::with_cert_and_key(Certificate(vec![0x30, 0x00]), PrivateKey(key)),
        read_ca,
    )
    .unwrap()
}

fn url(text: &str) -> Url {
    Url::parse(text).unwrap()
}

fn status(code: u16) -> impl FnOnce(Request, Transport) -> Result<Response<&'static str>, String> {
    move |_request, _transport| Ok(Response { status: code, body: "the body" })
}

fn never_sent(request: Request, _transport: Transport) -> Result<Response<&'static str>, String> {
    panic!("{} must not be sent", request.url)
}

fn drain(handle: &'static str) -> Result<Vec<u8>, String> {
    Ok(handle.as_bytes().to_vec())
}

fn never_drained(_handle: &'static str) -> Result<Vec<u8>, String> {
    panic!("the body must not be read")
}

fn text(value: &Value) -> Result<String, String> {
    match value {
        Value::String(s) => Ok(s.clone()),
        other => Err(format!("invalid type: {}, expected a string", other)),
    }
}

fn optional_text(value: &Value) -> Result<Option<String>, String> {
    match value {
        Value::Null => Ok(None),
        other => text(other).map(Some),
    }
}

fn pod_list(bytes: Vec<u8>) -> Result<PodList, String> {
    let value: Value = serde_json::from_slice(&bytes).map_err(|e| e.to_string())?;
    let items = value["items"].as_array().ok_or("missing field `items`".to_string())?;
    let mut pods = Vec::new();
    for item in items {
        if !item["metadata"]["creationTimestamp"].is_null() {
            return Err("a timestamp is more than this decoder reads".to_string());
        }
        pods.push(Pod {
            metadata: Metadata {
                name: text(&item["metadata"]["name"])?,
                namespace: optional_text(&item["metadata"]["namespace"])?,
                creation_timestamp: None,
            },
            status: PodStatus { phase: text(&item["status"]["phase"])? },
        });
    }
    Ok(PodList { items: pods })
}

#[test]
fn a_server_that_is_no_url_is_refused_before_anything_is_read() {
    let result = Kluster::new(
        "prod",
        CA_PATH,
        "not a url",
        KlusterAuth::with_token("t0k3n"),
        never_read,
    );
    assert_eq!(result.err(), Some(KubeError::UrlError("not a url".to_string())));
    let empty = Kluster::new("prod", CA_PATH, "", KlusterAuth::with_token("t0k3n"), never_read);
    assert_eq!(empty.err(), Some(KubeError::UrlError("".to_string())));
}

#[test]
fn a_client_needs_its_authority_file() {
    let missing = Kluster::new(
        "prod",
        CA_PATH,
        "https://kube.example:6443",
        KlusterAuth::with_token("t0k3n"),
        |_path: String| None,
    );
    assert_eq!(missing.err(), Some(KubeError::ConfigError(ConfigFault::Unreadable)));
    let empty = Kluster::new(
        "prod",
        CA_PATH,
        "https://kube.example:6443",
        KlusterAuth::with_token("t0k3n"),
        |_path: String| Some(Vec::new()),
    );
    assert_eq!(empty.err(), Some(KubeError::ConfigError(ConfigFault::NoCertificate)));
}

#[test]
fn a_client_keeps_what_it_was_opened_with() {
    let mut asked = Vec::new();
    let client = Kluster::new(
        "prod",
        CA_PATH,
        "https://kube.example:6443",
        KlusterAuth::with_token("t0k3n"),
        |path: String| {
            asked.push(path);
            Some(CA.as_bytes().to_vec())
        },
    )
    .unwrap();
    assert_eq!(asked, vec![CA_PATH.to_string()]);
    assert_eq!(client.name, "prod");
    assert_eq!(client.cert_path(), CA_PATH);
    assert_eq!(client.endpoint().as_str(), "https://kube.example:6443/");
    assert_eq!(client.name(), "prod");
    assert!(matches!(client.auth(), KlusterAuth::Token(token) if token == "t0k3n"));
    assert_eq!(client.tls().added, 1);
    assert_eq!(client.tls().rejected, 0);
    assert_eq!(client.tls().trusted(), 1);
}

#[test]
fn a_client_is_of_one_mode_only() {
    let token = with_token();
    assert!(!token.tls().has_identity());
    assert!(token.request(Method::Get, "/api", None).unwrap().authorization.is_some());
    let certificate = with_certificate();
    assert!(certificate.tls().has_identity());
    assert!(certificate.request(Method::Get, "/api", None).unwrap().authorization.is_none());
}

#[test]
fn a_request_goes_to_the_path_under_the_endpoint() {
    let request = with_token().request(Method::Get, "/api/v1/namespaces/ns/pods", None).unwrap();
    assert_eq!(
        request,
        Request {
            method: Method::Get,
            url: url("https://kube.example:6443/api/v1/namespaces/ns/pods"),
            authorization: Some("Bearer t0k3n".to_string()),
            read_timeout: None,
        }
    );
}

#[test]
fn a_request_is_made_of_what_it_is_given() {
    let token = KlusterAuth::with_token("abc");
    let timeout = Some(Duration::from_millis(1500));
    assert_eq!(
        Request::new(Method::Delete, url("https://h.example/x?y=1"), &token, timeout),
        Request {
            method: Method::Delete,
            url: url("https://h.example/x?y=1"),
            authorization: Some("Bearer abc".to_string()),
            read_timeout: timeout,
        }
    );
    let certificate = KlusterAuth::with_cert_and_key(Certificate(vec![1]), PrivateKey(vec![2]));
    assert_eq!(
        Request::new(Method::Get, url("https://h.example/"), &certificate, None),
        Request {
            method: Method::Get,
            url: url("https://h.example/"),
            authorization: None,
            read_timeout: None,
        }
    );
}

#[test]
fn a_path_is_joined_as_a_reference() {
    let client = Kluster::new(
        "prod",
        CA_PATH,
        "https://kube.example:6443/base/index",
        KlusterAuth::with_token("t0k3n"),
        read_ca,
    )
    .unwrap();
    let relative = client.request(Method::Get, "pods?watch=true", None).unwrap();
    assert_eq!(relative.url.as_str(), "https://kube.example:6443/base/pods?watch=true");
    let absolute = client.request(Method::Get, "/api", None).unwrap();
    assert_eq!(absolute.url.as_str(), "https://kube.example:6443/api");
}

#[test]
fn a_path_that_does_not_join_is_a_url_error() {
    let result = with_token().request(Method::Get, "https://[::1", None);
    assert_eq!(result, Err(KubeError::UrlError("https://[::1".to_string())));
}

#[test]
fn every_request_of_a_token_client_carries_the_token() {
    let client = with_token();
    let second = Duration::from_secs(1);
    for method in [Method::Get, Method::Delete] {
        for timeout in [None, Some(second)] {
            let request = client.request(method, "/api/v1/pods", timeout).unwrap();
            assert_eq!(request.authorization, Some("Bearer t0k3n".to_string()));
            assert_eq!(request.method, method);
            assert_eq!(request.read_timeout, timeout);
        }
    }
}

#[test]
fn no_request_of_a_certificate_client_carries_a_header() {
    let client = with_certificate();
    for method in [Method::Get, Method::Delete] {
        for timeout in [None, Some(Duration::from_millis(5))] {
            let request = client.request(method, "/api/v1/pods", timeout).unwrap();
            assert_eq!(request.authorization, None);
        }
    }
}

#[test]
fn send_req_sends_a_get_over_the_shared_connection() {
    let mut sent = Vec::new();
    let reply = with_token().send_req("/api/v1/nodes", |request: Request, transport: Transport| {
        assert!(matches!(transport, Transport::Shared));
        sent.push(request);
        Ok(Response { status: 404, body: 7u8 })
    });
    assert_eq!(reply, Ok(Response { status: 404, body: 7u8 }));
    assert_eq!(
        sent,
        vec![Request {
            method: Method::Get,
            url: url("https://kube.example:6443/api/v1/nodes"),
            authorization: Some("Bearer t0k3n".to_string()),
            read_timeout: None,
        }]
    );
}

#[test]
fn send_req_sends_nothing_to_a_path_that_does_not_join() {
    let reply = with_token().send_req("https://[::1", never_sent);
    assert_eq!(reply, Err(KubeError::UrlError("https://[::1".to_string())));
}

#[test]
fn check_resp_judges_by_status() {
    let client = with_token();
    assert_eq!(
        client.check_resp(Response { status: 200, body: "b" }),
        Ok(Response { status: 200, body: "b" })
    );
    assert_eq!(client.check_resp(Response { status: 401, body: "b" }), Err(KubeError::Unauthorized));
    assert_eq!(
        client.check_resp(Response { status: 503, body: "b" }),
        Err(KubeError::OtherFailure(503))
    );
    assert_eq!(
        client.check_resp(Response { status: 201, body: "b" }),
        Err(KubeError::OtherFailure(201))
    );
}

#[test]
fn a_read_without_timeout_uses_the_shared_connection() {
    let mut sent = Vec::new();
    let reply = with_token().get_read(
        "/api/v1/namespaces/ns/pods/p/log",
        None,
        never_read,
        |request: Request, transport: Transport| {
            assert!(matches!(transport, Transport::Shared));
            sent.push(request);
            Ok(Response { status: 200, body: "line 1\nline 2\n" })
        },
    );
    assert_eq!(reply, Ok(Response { status: 200, body: "line 1\nline 2\n" }));
    assert_eq!(sent.len(), 1);
    assert_eq!(sent[0].method, Method::Get);
    assert_eq!(sent[0].url.as_str(), "https://kube.example:6443/api/v1/namespaces/ns/pods/p/log");
    assert_eq!(sent[0].authorization, Some("Bearer t0k3n".to_string()));
    assert_eq!(sent[0].read_timeout, None);
}

#[test]
fn a_read_with_timeout_builds_a_transport_of_its_own() {
    let mut asked = Vec::new();
    let mut sent = Vec::new();
    let timeout = Duration::from_secs(30);
    let reply = with_certificate().get_read(
        "/api/v1/namespaces/ns/pods/p/log",
        Some(timeout),
        |path: String| {
            asked.push(path);
            Some(CA.as_bytes().to_vec())
        },
        |request: Request, transport: Transport| {
            match transport {
                Transport::Fresh(tls) => {
                    assert_eq!(tls.added, 1);
                    assert_eq!(tls.trusted(), 1);
                    assert!(tls.has_identity());
                }
                Transport::Shared => panic!("the shared connection has no timeout"),
            }
            sent.push(request);
            Ok(Response { status: 200, body: "line 1\n" })
        },
    );
    assert_eq!(reply, Ok(Response { status: 200, body: "line 1\n" }));
    assert_eq!(asked, vec![CA_PATH.to_string()]);
    assert_eq!(
        sent,
        vec![Request {
            method: Method::Get,
            url: url("https://kube.example:6443/api/v1/namespaces/ns/pods/p/log"),
            authorization: None,
            read_timeout: Some(timeout),
        }]
    );
}

#[test]
fn a_read_with_timeout_carries_the_token_too() {
    let mut sent = Vec::new();
    let reply = with_token().get_read(
        "/logs",
        Some(Duration::from_millis(250)),
        read_ca,
        |request: Request, transport: Transport| {
            match transport {
                Transport::Fresh(tls) => assert!(!tls.has_identity()),
                Transport::Shared => panic!("the shared connection has no timeout"),
            }
            sent.push(request);
            Ok(Response { status: 200, body: () })
        },
    );
    assert_eq!(reply, Ok(Response { status: 200, body: () }));
    assert_eq!(sent[0].authorization, Some("Bearer t0k3n".to_string()));
    assert_eq!(sent[0].read_timeout, Some(Duration::from_millis(250)));
}

#[test]
fn a_read_with_timeout_fails_without_its_authority_file() {
    let client = with_token();
    let gone = client.get_read("/logs", Some(Duration::from_secs(1)), |_p: String| None, never_sent);
    assert_eq!(gone, Err(KubeError::ConfigError(ConfigFault::Unreadable)));
    let emptied = client.get_read(
        "/logs",
        Some(Duration::from_secs(1)),
        |_p: String| Some(b"now empty".to_vec()),
        never_sent,
    );
    assert_eq!(emptied, Err(KubeError::ConfigError(ConfigFault::NoCertificate)));
}

#[test]
fn a_read_of_a_bad_path_touches_nothing() {
    let client = with_token();
    assert_eq!(
        client.get_read("https://[::1", None, never_read, never_sent),
        Err(KubeError::UrlError("https://[::1".to_string()))
    );
    assert_eq!(
        client.get_read("https://[::1", Some(Duration::from_secs(1)), never_read, never_sent),
        Err(KubeError::UrlError("https://[::1".to_string()))
    );
}

#[test]
fn a_read_is_judged_by_its_status() {
    let client = with_token();
    assert_eq!(client.get_read("/x", None, never_read, status(401)), Err(KubeError::Unauthorized));
    assert_eq!(
        client.get_read("/x", None, never_read, status(503)),
        Err(KubeError::OtherFailure(503))
    );
    let second = Some(Duration::from_secs(1));
    assert_eq!(client.get_read("/x", second, read_ca, status(401)), Err(KubeError::Unauthorized));
    assert_eq!(
        client.get_read("/x", second, read_ca, status(500)),
        Err(KubeError::OtherFailure(500))
    );
}

#[test]
fn the_same_reply_reads_the_same_with_and_without_timeout() {
    let client = with_token();
    let mut plain_request = None;
    let plain = client.get_read("/api/v1/pods", None, never_read, |request: Request, _t: Transport| {
        plain_request = Some(request);
        Ok(Response { status: 200, body: "the same body" })
    });
    let mut timed_request = None;
    let timed = client.get_read(
        "/api/v1/pods",
        Some(Duration::from_secs(60)),
        read_ca,
        |request: Request, _t: Transport| {
            timed_request = Some(request);
            Ok(Response { status: 200, body: "the same body" })
        },
    );
    assert_eq!(plain, timed);
    assert_eq!(plain.unwrap().body, "the same body");
    let plain_request = plain_request.unwrap();
    let timed_request = timed_request.unwrap();
    assert_eq!(plain_request.url, timed_request.url);
    assert_eq!(plain_request.method, timed_request.method);
    assert_eq!(plain_request.authorization, timed_request.authorization);
}

#[test]
fn a_read_that_times_out_is_a_transport_error() {
    let mut asked_for = None;
    let reply: Result<Response<()>, KubeError> = with_token().get_read(
        "/slow",
        Some(Duration::from_millis(1)),
        read_ca,
        |request: Request, _t: Transport| {
            asked_for = request.read_timeout;
            Err("timed out".to_string())
        },
    );
    assert_eq!(reply, Err(KubeError::TransportError("timed out".to_string())));
    assert_eq!(asked_for, Some(Duration::from_millis(1)));
}

#[test]
fn a_failure_of_the_transport_is_passed_on() {
    let client = with_token();
    let refused = |_r: Request, _t: Transport| -> Result<Response<&'static str>, String> {
        Err("connection refused".to_string())
    };
    assert_eq!(
        client.get_read("/x", None, never_read, refused),
        Err(KubeError::TransportError("connection refused".to_string()))
    );
    assert_eq!(
        client.delete("/x", refused),
        Err(KubeError::TransportError("connection refused".to_string()))
    );
    assert_eq!(
        client.get_value("/x", refused, never_drained),
        Err(KubeError::TransportError("connection refused".to_string()))
    );
    assert_eq!(
        client.get("/x", refused, never_drained, pod_list),
        Err(KubeError::TransportError("connection refused".to_string()))
    );
}

#[test]
fn delete_does_not_judge_the_status() {
    let client = with_token();
    assert_eq!(client.delete("/api/v1/pods/p", status(403)), Ok(Response { status: 403, body: "the body" }));
    assert_eq!(
        client.get_read("/api/v1/pods/p", None, never_read, status(403)),
        Err(KubeError::OtherFailure(403))
    );
    assert_eq!(client.delete("/api/v1/pods/p", status(401)), Ok(Response { status: 401, body: "the body" }));
    assert_eq!(client.delete("/api/v1/pods/p", status(200)), Ok(Response { status: 200, body: "the body" }));
}

#[test]
fn delete_sends_a_delete_with_the_token() {
    let mut sent = Vec::new();
    let reply = with_token().delete(
        "/api/v1/namespaces/ns/pods/p",
        |request: Request, transport: Transport| {
            assert!(matches!(transport, Transport::Shared));
            sent.push(request);
            Ok(Response { status: 200, body: () })
        },
    );
    assert_eq!(reply, Ok(Response { status: 200, body: () }));
    assert_eq!(
        sent,
        vec![Request {
            method: Method::Delete,
            url: url("https://kube.example:6443/api/v1/namespaces/ns/pods/p"),
            authorization: Some("Bearer t0k3n".to_string()),
            read_timeout: None,
        }]
    );
}

#[test]
fn delete_with_a_certificate_sends_no_header() {
    let mut header = Some("unset".to_string());
    let reply = with_certificate().delete("/x", |request: Request, _t: Transport| {
        header = request.authorization;
        Ok(Response { status: 200, body: () })
    });
    assert!(reply.is_ok());
    assert_eq!(header, None);
}

#[test]
fn delete_of_a_bad_path_sends_nothing() {
    assert_eq!(
        with_token().delete("https://[::1", never_sent),
        Err(KubeError::UrlError("https://[::1".to_string()))
    );
}

#[test]
fn get_value_parses_the_body_of_a_success() {
    let value = with_token()
        .get_value(
            "/api/v1/pods",
            |_r: Request, _t: Transport| Ok(Response { status: 200, body: "{\"items\":[]}" }),
            drain,
        )
        .unwrap();
    assert_eq!(value["items"], Value::Array(Vec::new()));
}

#[test]
fn get_value_reads_no_body_of_a_failure() {
    let client = with_token();
    assert_eq!(client.get_value("/x", status(401), never_drained), Err(KubeError::Unauthorized));
    assert_eq!(
        client.get_value("/x", status(404), never_drained),
        Err(KubeError::OtherFailure(404))
    );
    assert_eq!(
        client.get_value("https://[::1", never_sent, never_drained),
        Err(KubeError::UrlError("https://[::1".to_string()))
    );
}

#[test]
fn get_value_reports_a_body_that_is_not_json() {
    let result = with_token().get_value(
        "/x",
        |_r: Request, _t: Transport| Ok(Response { status: 200, body: "<html></html>" }),
        drain,
    );
    assert_eq!(
        result,
        Err(KubeError::DeserializeError("expected value at line 1 column 1".to_string()))
    );
}

#[test]
fn get_value_reports_a_body_that_breaks_off() {
    let result = with_token().get_value("/x", status(200), |_h: &str| {
        Err("connection reset".to_string())
    });
    assert_eq!(result, Err(KubeError::TransportError("connection reset".to_string())));
}

#[test]
fn get_decodes_a_pod_list() {
    let body = "{\"items\":[{\"metadata\":{\"name\":\"a\",\"namespace\":null,\"creationTimestamp\":null},\"status\":{\"phase\":\"Running\"}}]}";
    let mut sent = Vec::new();
    let pods: PodList = with_token()
        .get(
            "/api/v1/pods",
            |request: Request, _t: Transport| {
                sent.push(request);
                Ok(Response { status: 200, body })
            },
            drain,
            pod_list,
        )
        .unwrap();
    assert_eq!(pods.items.len(), 1);
    assert_eq!(pods.items[0].metadata.name, "a");
    assert_eq!(pods.items[0].metadata.namespace, None);
    assert_eq!(pods.items[0].metadata.creation_timestamp, None);
    assert_eq!(pods.items[0].status.phase, "Running");
    assert_eq!(sent[0].url.as_str(), "https://kube.example:6443/api/v1/pods");
    assert_eq!(sent[0].method, Method::Get);
}

#[test]
fn get_reports_what_the_decoder_says() {
    let result = with_token().get(
        "/api/v1/pods",
        |_r: Request, _t: Transport| Ok(Response { status: 200, body: "{\"items\":7}" }),
        drain,
        pod_list,
    );
    assert_eq!(result, Err(KubeError::DeserializeError("missing field `items`".to_string())));
}

#[test]
fn get_decodes_nothing_of_a_failure() {
    let client = with_token();
    let never_decoded = |_bytes: Vec<u8>| -> Result<PodList, String> {
        panic!("the body must not be decoded")
    };
    assert_eq!(
        client.get("/x", status(401), never_drained, never_decoded),
        Err(KubeError::Unauthorized)
    );
    assert_eq!(
        client.get("/x", status(503), never_drained, never_decoded),
        Err(KubeError::OtherFailure(503))
    );
    assert_eq!(
        client.get("/x", status(200), |_h: &str| Err("reset".to_string()), never_decoded),
        Err(KubeError::TransportError("reset".to_string()))
    );
}
