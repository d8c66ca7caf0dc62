use flipt::api::ApiClient;
use flipt::dispatch::{Dispatcher, Endpoint, HttpMethod, DEFAULT_USER_AGENT};
use flipt::error::Error;
use flipt::{AuthScheme, Config};

fn pair(a: &str, b: &str) -> (String, String) {
    (a.to_string(), b.to_string())
}

fn local() -> Endpoint {
    Endpoint::parse("http://localhost:8080").expect("endpoint")
}

#[test]
fn endpoint_parse_normalizes() {
    let e = Endpoint::parse("http://localhost:8080").expect("endpoint");
    let d = Dispatcher::new(Config::new(e, AuthScheme::NoAuth));
    assert_eq!(d.build_url("").unwrap(), "http://localhost:8080/");
}

#[test]
fn endpoint_parse_rejects_relative_text() {
    let r = Endpoint::parse("not a url");
    assert!(matches!(r, Err(Error::Internal(_))));
}

#[test]
fn empty_endpoint_is_refused() {
    let r = Config::from_values("", None, None);
    assert!(matches!(r, Err(Error::Internal(_))));
}

#[test]
fn build_url_joins_path() {
    let d = Dispatcher::new(Config::new(local(), AuthScheme::NoAuth));
    assert_eq!(
        d.build_url("/api/v1/namespaces/default/flags").unwrap(),
        "http://localhost:8080/api/v1/namespaces/default/flags"
    );
}

#[test]
fn build_url_invalid_path_is_internal_error() {
    let d = Dispatcher::new(Config::new(local(), AuthScheme::NoAuth));
    let r = d.build_url("http://[::1");
    match r {
        Err(Error::Internal(m)) => assert!(!m.is_empty()),
        other => panic!("unexpected {:?}", other),
    }
}

#[test]
fn invalid_path_fails_every_verb() {
    let d = Dispatcher::new(Config::new(local(), AuthScheme::NoAuth));
    assert!(matches!(d.get("http://[::1", None), Err(Error::Internal(_))));
    assert!(matches!(d.post("http://[::1", Some("{}".to_string())), Err(Error::Internal(_))));
    assert!(matches!(d.put("http://[::1", None), Err(Error::Internal(_))));
    assert!(matches!(d.delete("http://[::1", None), Err(Error::Internal(_))));
}

#[test]
fn get_without_auth_sends_user_agent_only() {
    let d = Dispatcher::new(Config::new(local(), AuthScheme::NoAuth));
    let r = d.get("/meta/info", None).unwrap();
    assert_eq!(r.method, HttpMethod::Get);
    assert_eq!(r.url, "http://localhost:8080/meta/info");
    assert_eq!(r.headers, vec![pair("User-Agent", DEFAULT_USER_AGENT)]);
    assert!(r.query.is_empty());
    assert_eq!(r.body, None);
}

#[test]
fn bearer_token_adds_authorization() {
    let c = Config::new(local(), AuthScheme::BearerToken("abc".to_string())).set_user_agent("me/1");
    let d = Dispatcher::new(c);
    let r = d.post("/x", Some("{}".to_string())).unwrap();
    assert_eq!(r.method, HttpMethod::Post);
    assert_eq!(
        r.headers,
        vec![
            pair("User-Agent", "me/1"),
            pair("Authorization", "Bearer abc"),
            pair("Content-Type", "application/json"),
        ]
    );
    assert_eq!(r.body, Some("{}".to_string()));
}

#[test]
fn put_without_body_has_no_content_type() {
    let d = Dispatcher::new(Config::new(local(), AuthScheme::NoAuth));
    let r = d.put("/x", None).unwrap();
    assert_eq!(r.method, HttpMethod::Put);
    assert_eq!(r.headers, vec![pair("User-Agent", DEFAULT_USER_AGENT)]);
    assert_eq!(r.body, None);
}

#[test]
fn delete_carries_query() {
    let d = Dispatcher::new(Config::new(local(), AuthScheme::NoAuth));
    let r = d.delete("/x", Some(vec![pair("a", "1")])).unwrap();
    assert_eq!(r.method, HttpMethod::Delete);
    assert_eq!(r.query, vec![pair("a", "1")]);
}

#[test]
fn from_values_reads_settings() {
    let c = Config::from_values("http://example.com:9000", Some("tok".to_string()), Some("ua/2".to_string()))
        .unwrap();
    let d = Dispatcher::new(c);
    let r = d.get("/a", None).unwrap();
    assert_eq!(r.url, "http://example.com:9000/a");
    assert_eq!(r.headers, vec![pair("User-Agent", "ua/2"), pair("Authorization", "Bearer tok")]);
}

#[test]
fn from_values_empty_token_means_no_auth() {
    let c = Config::from_values("http://example.com", Some(String::new()), None).unwrap();
    let d = Dispatcher::new(c);
    let r = d.get("/a", None).unwrap();
    assert_eq!(r.headers, vec![pair("User-Agent", DEFAULT_USER_AGENT)]);
}

#[test]
fn auth_scheme_from_token() {
    assert!(matches!(AuthScheme::from_token(String::new()), AuthScheme::NoAuth));
    match AuthScheme::from_token("t".to_string()) {
        AuthScheme::BearerToken(t) => assert_eq!(t, "t"),
        AuthScheme::NoAuth => panic!("expected a token"),
    }
    assert!(matches!(AuthScheme::default(), AuthScheme::NoAuth));
}

#[test]
fn default_config_targets_local_service() {
    let client = ApiClient::new(Config::default());
    let r = client.dispatcher.get("/api/v1/namespaces", None).unwrap();
    assert_eq!(r.url, "http://localhost:8080/api/v1/namespaces");
    assert_eq!(r.headers, vec![pair("User-Agent", "flipt-rust/0.1.0")]);
}
