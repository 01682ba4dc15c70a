use pygrab_ll::error::{ConfigurationError, SessionError};
use pygrab_ll::method::Method;
use pygrab_ll::plan::{Outcome, Payload, RawResponse};
use pygrab_ll::strmap::StrMap;
use pygrab_ll::{AsyncSessionRs, ThreadSessionRs};

fn headers(pairs: &[(&str, &str)]) -> StrMap<String> {
    let mut m: StrMap<String> = StrMap::new();
    for (k, v) in pairs {
        m.insert(k.to_string(), v.to_string());
    }
    m
}

fn seconds(s: f64) -> u64 {
    s.to_bits()
}

fn response(status: u16, body: &[u8]) -> Outcome {
    Outcome::Response(RawResponse {
        status_code: status,
        headers: vec![("Content-Type".to_string(), "text/plain".to_string())],
        body: Some(body.to_vec()),
    })
}

#[test]
fn a_new_session_holds_its_configuration() {
    let s = ThreadSessionRs::new(
        seconds(3.0),
        &headers(&[("User-Agent", "grab"), ("Accept", "*/*")]),
        Some("http://proxy.example:8080".to_string()),
    )
    .unwrap();
    assert_eq!(s.num_req(), 0);
    assert_eq!(f64::from_bits(s.config().timeout()), 3.0);
    assert_eq!(s.config().headers().len(), 2);
    assert_eq!(s.config().headers().get("user-agent"), Some(&"grab".to_string()));
    assert_eq!(s.config().proxy(), &Some("http://proxy.example:8080".to_string()));
}

#[test]
fn a_faulty_header_fails_construction() {
    let r = ThreadSessionRs::new(seconds(1.0), &headers(&[("bad name", "v")]), None);
    assert_eq!(r.err(), Some(ConfigurationError::HeaderName("bad name".to_string())));
    let r = AsyncSessionRs::new(seconds(1.0), &headers(&[("name", "line\nbreak")]), None);
    assert_eq!(r.err(), Some(ConfigurationError::HeaderValue("name".to_string())));
}

#[test]
fn a_faulty_proxy_fails_construction() {
    let r = AsyncSessionRs::new(seconds(1.0), &headers(&[]), Some("http://[::1".to_string()));
    assert_eq!(r.err(), Some(ConfigurationError::Proxy("http://[::1".to_string())));
}

#[test]
fn requests_after_set_timeout_use_the_new_timeout() {
    let mut s = ThreadSessionRs::new(seconds(1.0), &headers(&[("a", "1")]), None).unwrap();
    assert_eq!(f64::from_bits(s.get("http://a.test/".to_string()).config.timeout()), 1.0);
    s.set_timeout(seconds(7.5));
    let plan = s.get("http://a.test/".to_string());
    assert_eq!(f64::from_bits(plan.config.timeout()), 7.5);
    assert_eq!(plan.config.headers().get("a"), Some(&"1".to_string()));
    assert_eq!(plan.config.proxy(), &None);
    let batch = s.get_batch(vec!["http://a.test/".to_string()], 4, None);
    assert_eq!(f64::from_bits(batch.config().timeout()), 7.5);
}

#[test]
fn requests_after_set_headers_use_the_new_headers() {
    let mut s = AsyncSessionRs::new(seconds(1.0), &headers(&[("Old", "1"), ("Keep", "k")]), None).unwrap();
    assert_eq!(s.set_headers(&headers(&[("New", "2")])), Ok(()));
    let plan = s.post("http://a.test/".to_string(), vec![1, 2, 3]);
    assert_eq!(plan.config.headers().len(), 1);
    assert_eq!(plan.config.headers().get("new"), Some(&"2".to_string()));
    assert_eq!(plan.config.headers().get("old"), None);
    let batch = s.get_batch(vec!["http://a.test/".to_string()], None);
    assert_eq!(batch.config().headers().get("new"), Some(&"2".to_string()));
}

#[test]
fn update_headers_lays_headers_over_the_old_ones() {
    let mut s = ThreadSessionRs::new(seconds(1.0), &headers(&[("Accept", "a"), ("Keep", "k")]), None).unwrap();
    assert_eq!(s.update_headers(&headers(&[("ACCEPT", "b"), ("Extra", "e")])), Ok(()));
    let plan = s.head("http://a.test/".to_string());
    assert_eq!(plan.config.headers().len(), 3);
    assert_eq!(plan.config.headers().get("accept"), Some(&"b".to_string()));
    assert_eq!(plan.config.headers().get("keep"), Some(&"k".to_string()));
    assert_eq!(plan.config.headers().get("extra"), Some(&"e".to_string()));
    assert_eq!(plan.config.headers().key_at(0), "accept");
}

#[test]
fn requests_after_set_proxy_use_the_new_proxy() {
    let mut s = ThreadSessionRs::new(seconds(1.0), &headers(&[]), None).unwrap();
    assert_eq!(s.set_proxy("http://one.example".to_string()), Ok(()));
    assert_eq!(s.get("u".to_string()).config.proxy(), &Some("http://one.example".to_string()));
    assert_eq!(s.set_proxy("socks5://two.example:9".to_string()), Ok(()));
    assert_eq!(s.get("u".to_string()).config.proxy(), &Some("socks5://two.example:9".to_string()));
    s.remove_proxy();
    assert_eq!(s.get("u".to_string()).config.proxy(), &None);
}

#[test]
fn a_failed_change_leaves_the_session_as_it_was() {
    let mut s = AsyncSessionRs::new(
        seconds(2.0),
        &headers(&[("a", "1")]),
        Some("http://good.example".to_string()),
    )
    .unwrap();
    assert_eq!(
        s.set_proxy("http://[bad".to_string()),
        Err(ConfigurationError::Proxy("http://[bad".to_string()))
    );
    assert_eq!(
        s.set_headers(&headers(&[("ok", "v"), ("not ok", "v")])),
        Err(ConfigurationError::HeaderName("not ok".to_string()))
    );
    assert_eq!(
        s.update_headers(&headers(&[("b", "2"), ("c", "\u{0}")])),
        Err(ConfigurationError::HeaderValue("c".to_string()))
    );
    let plan = s.get("u".to_string());
    assert_eq!(plan.config.proxy(), &Some("http://good.example".to_string()));
    assert_eq!(plan.config.headers().len(), 1);
    assert_eq!(plan.config.headers().get("a"), Some(&"1".to_string()));
    assert_eq!(f64::from_bits(plan.config.timeout()), 2.0);
}

#[test]
fn verbs_plan_their_methods_and_payloads() {
    let s = ThreadSessionRs::new(seconds(1.0), &headers(&[]), None).unwrap();
    let url = || "http://a.test/x".to_string();
    let get = s.get(url());
    assert_eq!(get.method, Method::Get);
    assert_eq!(get.url, "http://a.test/x");
    assert!(matches!(get.payload, Payload::Empty));
    assert_eq!(get.destination, None);
    let post = s.post(url(), vec![9, 8]);
    assert_eq!(post.method, Method::Post);
    assert!(matches!(post.payload, Payload::Bytes(ref b) if b == &vec![9, 8]));
    let post_json = s.post_json(url(), headers(&[("k", "v")]));
    assert_eq!(post_json.method, Method::Post);
    assert!(matches!(post_json.payload, Payload::JsonMap(ref m) if m.get("k") == Some(&"v".to_string())));
    let put = s.put(url(), "body".to_string());
    assert_eq!(put.method, Method::Put);
    assert!(matches!(put.payload, Payload::Text(ref t) if t == "body"));
    assert_eq!(s.delete(url()).method, Method::Delete);
    assert!(matches!(s.delete(url()).payload, Payload::Empty));
    assert_eq!(s.head(url()).method, Method::Head);
    assert_eq!(s.options(url()).method, Method::Options);
    assert_eq!(s.trace(url()).method, Method::Trace);
    assert_eq!(s.connect(url()).method, Method::Connect);
    let download = s.download(url(), "out.bin".to_string());
    assert_eq!(download.method, Method::Get);
    assert_eq!(download.destination, Some("out.bin".to_string()));
}

#[test]
fn send_request_reads_the_method_string() {
    let s = AsyncSessionRs::new(seconds(1.0), &headers(&[]), None).unwrap();
    let patch = s.send_request("u".to_string(), "b".to_string(), "patch").unwrap();
    assert_eq!(patch.method, Method::Patch);
    assert!(matches!(patch.payload, Payload::Text(ref t) if t == "b"));
    let delete = s.send_request("u".to_string(), "ignored".to_string(), "Delete").unwrap();
    assert_eq!(delete.method, Method::Delete);
    assert!(matches!(delete.payload, Payload::Empty));
}

#[test]
fn an_unsupported_method_string_is_a_value_error_and_plans_nothing() {
    let s = ThreadSessionRs::new(seconds(1.0), &headers(&[]), None).unwrap();
    let r = s.send_request("http://a.test/".to_string(), String::new(), "FOO");
    assert_eq!(r.err(), Some(SessionError::InvalidMethod));
    let r = s.send_request("http://a.test/".to_string(), String::new(), "GET");
    assert_eq!(r.err(), Some(SessionError::InvalidMethod));
    assert_eq!(s.num_req(), 0);
}

#[test]
fn a_completed_request_is_counted_and_wrapped() {
    let mut s = ThreadSessionRs::new(seconds(1.0), &headers(&[]), None).unwrap();
    let plan = s.get("http://a.test/".to_string());
    let r = s.complete(plan.method, response(201, b"made")).unwrap().unwrap();
    assert_eq!(s.num_req(), 1);
    assert_eq!(r.get_status_code(), 201);
    assert_eq!(r.raw_content(), &b"made".to_vec());
    assert_eq!(r.get_headers().get("content-type"), Some(&"text/plain".to_string()));
    let r = s.complete(Method::Get, Outcome::Written).unwrap();
    assert!(r.is_none());
    assert_eq!(s.num_req(), 2);
}

#[test]
fn a_failed_request_is_an_error_and_is_not_counted() {
    let mut s = AsyncSessionRs::new(seconds(1.0), &headers(&[]), None).unwrap();
    let r = s.complete(Method::Head, Outcome::FetchFailed("connection refused".to_string()));
    assert_eq!(
        r.err(),
        Some(SessionError::Request("HEAD".to_string(), "connection refused".to_string()))
    );
    let r = s.complete(Method::Get, Outcome::ReadFailed("reset".to_string()));
    assert_eq!(r.err(), Some(SessionError::Request("GET".to_string(), "reset".to_string())));
    let r = s.complete(Method::Get, Outcome::WriteFailed("disk full".to_string()));
    assert_eq!(r.err(), Some(SessionError::Io("disk full".to_string())));
    assert_eq!(s.num_req(), 0);
}

#[test]
fn mismatched_lists_are_refused_before_anything_is_planned() {
    let mut s = ThreadSessionRs::new(seconds(1.0), &headers(&[]), None).unwrap();
    let urls = || vec!["http://a.test/1".to_string(), "http://a.test/2".to_string()];
    assert_eq!(s.post_batch(urls(), vec![vec![1]], 2, None).err(), Some(SessionError::LengthMismatch));
    assert_eq!(
        s.post_batch(urls(), vec![vec![1], vec![2], vec![3]], 2, None).err(),
        Some(SessionError::LengthMismatch)
    );
    assert_eq!(
        s.post_json_batch(urls(), vec![headers(&[])], 2, None).err(),
        Some(SessionError::LengthMismatch)
    );
    assert_eq!(
        s.download_batch(urls(), vec![], 2, Some(false)).err(),
        Some(SessionError::LengthMismatch)
    );
    assert_eq!(s.num_req(), 0);
    let a = AsyncSessionRs::new(seconds(1.0), &headers(&[]), None).unwrap();
    assert_eq!(a.post_batch(urls(), vec![], None).err(), Some(SessionError::LengthMismatch));
    assert_eq!(a.post_json_batch(urls(), vec![], None).err(), Some(SessionError::LengthMismatch));
    assert_eq!(
        a.download_batch(urls(), vec!["only".to_string()], None).err(),
        Some(SessionError::LengthMismatch)
    );
    let ok = s.post_batch(urls(), vec![vec![1], vec![2]], 2, None).unwrap();
    assert_eq!(ok.len(), 2);
    assert_eq!(ok.body(1), Some(&vec![2u8]));
    assert_eq!(s.finish_batch(ok).counted, 0);
}
