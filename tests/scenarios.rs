use flipt::api::evaluation::{EvaluateRequest, Reason};
use flipt::api::flag::{FlagCreateRequest, FlagDeleteRequest, FlagGetRequest};
use flipt::api::ApiClient;
use flipt::context::Context;
use flipt::dispatch::{Endpoint, HttpMethod};
use flipt::error::{settle, Decoded, Error, UpstreamError};
use flipt::{AuthScheme, Config};

fn client() -> ApiClient {
    ApiClient::new(Config::new(Endpoint::parse("http://localhost:8080").unwrap(), AuthScheme::NoAuth))
}

/// A flag as the service would describe it in reply.
#[derive(Debug, Clone, PartialEq)]
struct FlagReply {
    key: String,
    name: String,
    description: String,
    enabled: bool,
}

#[test]
fn create_then_get_flag() {
    let c = client();
    let create = FlagCreateRequest {
        key: "flag-a".to_string(),
        name: "Flag".to_string(),
        enabled: true,
        ..Default::default()
    };
    let p = c.flags().create(&create).unwrap();
    assert_eq!(p.method, HttpMethod::Post);
    assert_eq!(p.url, "http://localhost:8080/api/v1/namespaces/default/flags");
    assert_eq!(
        p.body.unwrap(),
        r#"{"key":"flag-a","name":"Flag","description":"","enabled":true}"#
    );
    let g = c.flags().get(&FlagGetRequest { key: "flag-a".to_string(), ..Default::default() }).unwrap();
    assert_eq!(g.method, HttpMethod::Get);
    assert_eq!(g.url, "http://localhost:8080/api/v1/namespaces/default/flags/flag-a");
    assert_eq!(g.body, None);
    let reply = FlagReply {
        key: "flag-a".to_string(),
        name: "Flag".to_string(),
        description: String::new(),
        enabled: true,
    };
    let flag = settle(200, Decoded::Value(reply)).unwrap();
    assert_eq!(flag.key, "flag-a");
    assert_eq!(flag.name, "Flag");
    assert_eq!(flag.description, "");
    assert!(flag.enabled);
}

#[test]
fn evaluate_flag_with_matching_context() {
    let c = client();
    let eval = EvaluateRequest {
        entity_id: "abc".to_string(),
        context: {
            let mut c = Context::new();
            c.insert("name".to_string(), "brett".to_string());
            c
        },
        flag_key: "flag-a".to_string(),
        ..Default::default()
    };
    let p = c.evaluation().evaluate(&eval).unwrap();
    assert_eq!(p.url, "http://localhost:8080/api/v1/namespaces/default/evaluate");
    assert_eq!(
        p.body.unwrap(),
        r#"{"context":{"name":"brett"},"entityId":"abc","flagKey":"flag-a","requestId":""}"#
    );
    assert_eq!(Reason::Match.wire_text(), "MATCH_EVALUATION_REASON");
    let reason = settle(200, Decoded::Value(Reason::Match)).unwrap();
    assert_eq!(reason, Reason::Match);
}

#[test]
fn delete_missing_flag_is_upstream_error() {
    let c = client();
    let p = c.flags().delete(&FlagDeleteRequest { key: "missing".to_string(), ..Default::default() }).unwrap();
    assert_eq!(p.method, HttpMethod::Delete);
    assert_eq!(p.url, "http://localhost:8080/api/v1/namespaces/default/flags/missing");
    let body = UpstreamError { code: 5, message: "flag \"default/missing\" not found".to_string(), details: Some(vec![]) };
    let r: Result<(), Error> = settle(404, Decoded::Upstream(body));
    match r {
        Err(Error::Upstream(e)) => {
            assert_ne!(e.code, 0);
            assert_eq!(e.to_text(), "flag \"default/missing\" not found");
        },
        other => panic!("expected an upstream error, got {:?}", other),
    }
}
