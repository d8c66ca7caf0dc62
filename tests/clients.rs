use flipt::api::constraint::{
    ComparisonType, ConstraintCreateRequest, ConstraintDeleteRequest, ConstraintUpdateRequest, Operator,
};
use flipt::api::distribution::{distributions_path_text, DistributionDeleteRequest};
use flipt::api::evaluation::{BatchEvaluateRequest, BatchRequest, EvaluateRequest, EvaluateV2Request};
use flipt::api::flag::{FlagListRequest, FlagType, FlagUpdateRequest};
use flipt::api::namespace::{
    NamespaceCreateRequest, NamespaceGetRequest, NamespaceListRequest, NamespaceUpdateRequest,
};
use flipt::api::rollout::{
    RolloutDeleteRequest, RolloutGetRequest, RolloutOrderRequest, RolloutSegment, RolloutType,
    RolloutUpdateRequest, SegmentOperator,
};
use flipt::api::rule::{RuleCreateRequest, RuleGetRequest, RuleListRequest, RuleUpdateRequest};
use flipt::api::segment::{Match, SegmentCreateRequest, SegmentListRequest, SegmentUpdateRequest};
use flipt::api::variant::{VariantCreateRequest, VariantDeleteRequest, VariantUpdateRequest};
use flipt::api::{ApiClient, DEFAULT_LIMIT};
use flipt::auth::token::{TokenCreateRequest, TokenListRequest};
use flipt::auth::AuthClient;
use flipt::dispatch::{Endpoint, HttpMethod};
use flipt::evaluation::{
    BatchEvaluateRequest as V2BatchEvaluateRequest, EvaluateRequest as V2EvaluateRequest,
    EvaluationClient as V2EvaluationClient,
};
use flipt::meta::MetaClient;
use flipt::context::Context;
use flipt::timestamp::Timestamp;
use flipt::{AuthScheme, Config};

const BASE: &str = "http://localhost:8080";

fn config() -> Config {
    Config::new(Endpoint::parse(BASE).unwrap(), AuthScheme::NoAuth)
}

fn pair(a: &str, b: &str) -> (String, String) {
    (a.to_string(), b.to_string())
}

fn brett() -> Context {
    let mut c = Context::new();
    c.insert("name".to_string(), "brett".to_string());
    c
}

fn url(path: &str) -> String {
    format!("{BASE}{path}")
}

#[test]
fn list_requests_default_to_first_page() {
    let f = FlagListRequest::new();
    assert_eq!((f.namespace_key, f.offset, f.limit, f.page_token.as_str()), (None, 0, 100, ""));
    let d = FlagListRequest::default();
    assert_eq!((d.offset, d.limit), (0, DEFAULT_LIMIT));
    let n = NamespaceListRequest::new();
    assert_eq!((n.offset, n.limit, n.page_token.as_str()), (0, 100, ""));
    let s = SegmentListRequest::new();
    assert_eq!((s.namespace_key, s.offset, s.limit), (None, 0, 100));
    let r = RuleListRequest::new();
    assert_eq!((r.flag_key.as_str(), r.offset, r.limit), ("", 0, 100));
    let t = TokenListRequest::default();
    assert_eq!((t.offset, t.limit, t.page_token.as_str()), (0, 100, ""));
}

#[test]
fn flag_list_query() {
    let c = ApiClient::new(config());
    let mut l = FlagListRequest::new();
    l.namespace_key = Some("ns".to_string());
    l.offset = 20;
    l.page_token = "tok".to_string();
    let r = c.flags().list(&l).unwrap();
    assert_eq!(r.method, HttpMethod::Get);
    assert_eq!(r.url, url("/api/v1/namespaces/ns/flags"));
    assert_eq!(r.query, vec![pair("offset", "20"), pair("limit", "100"), pair("pageToken", "tok")]);
    assert_eq!(r.body, None);
}

#[test]
fn flag_update_body_leaves_out_path_fields() {
    let c = ApiClient::new(config());
    let u = FlagUpdateRequest {
        namespace_key: Some("ns".to_string()),
        key: "k".to_string(),
        name: "N".to_string(),
        description: "d".to_string(),
        enabled: false,
    };
    let r = c.flags().update(&u).unwrap();
    assert_eq!(r.method, HttpMethod::Put);
    assert_eq!(r.url, url("/api/v1/namespaces/ns/flags/k"));
    assert_eq!(r.body.unwrap(), r#"{"name":"N","description":"d","enabled":false}"#);
}

#[test]
fn flag_type_wire_names() {
    assert_eq!(FlagType::Variant.wire_text(), "VARIANT_FLAG_TYPE");
    assert_eq!(FlagType::Boolean.wire_text(), "BOOLEAN_FLAG_TYPE");
    assert_eq!(FlagType::default(), FlagType::Variant);
}

#[test]
fn namespace_requests() {
    let c = ApiClient::new(config());
    let r = c.namespaces().list(&NamespaceListRequest::default()).unwrap();
    assert_eq!(r.url, url("/api/v1/namespaces"));
    assert_eq!(r.query, vec![pair("offset", "0"), pair("limit", "100"), pair("pageToken", "")]);
    let g = c.namespaces().get(&NamespaceGetRequest { key: "a".to_string() }).unwrap();
    assert_eq!(g.url, url("/api/v1/namespaces/a"));
    let create = NamespaceCreateRequest { key: "namespace-a".to_string(), name: "Namespace".to_string(), ..Default::default() };
    let p = c.namespaces().create(&create).unwrap();
    assert_eq!(p.method, HttpMethod::Post);
    assert_eq!(p.url, url("/api/v1/namespaces"));
    assert_eq!(p.body.unwrap(), r#"{"key":"namespace-a","name":"Namespace","description":""}"#);
    let u = NamespaceUpdateRequest { key: "a".to_string(), name: "b".to_string(), description: "c".to_string() };
    let p = c.namespaces().update(&u).unwrap();
    assert_eq!(p.url, url("/api/v1/namespaces/a"));
    assert_eq!(p.body.unwrap(), r#"{"name":"b","description":"c"}"#);
}

#[test]
fn segment_requests() {
    let c = ApiClient::new(config());
    let create = SegmentCreateRequest { key: "segment-a".to_string(), name: "Segment".to_string(), ..Default::default() };
    let p = c.segments().create(&create).unwrap();
    assert_eq!(p.url, url("/api/v1/namespaces/default/segments"));
    assert_eq!(
        p.body.unwrap(),
        r#"{"key":"segment-a","matchType":"ALL_MATCH_TYPE","name":"Segment","description":""}"#
    );
    let u = SegmentUpdateRequest { key: "s".to_string(), match_type: Match::Any, ..Default::default() };
    let p = c.segments().update(&u).unwrap();
    assert_eq!(p.url, url("/api/v1/namespaces/default/segments/s"));
    assert_eq!(p.body.unwrap(), r#"{"matchType":"ANY_MATCH_TYPE","name":"","description":""}"#);
    let l = c.segments().list(&SegmentListRequest::new()).unwrap();
    assert_eq!(l.url, url("/api/v1/namespaces/default/segments"));
}

#[test]
fn constraint_requests() {
    let c = ApiClient::new(config());
    let create = ConstraintCreateRequest {
        segment_key: "segment-a".to_string(),
        property: "name".to_string(),
        value: "brett".to_string(),
        operator: Operator::Eq,
        comparison_type: ComparisonType::String,
        ..Default::default()
    };
    let p = c.constraints().create(&create).unwrap();
    assert_eq!(p.url, url("/api/v1/namespaces/default/segments/segment-a/constraints"));
    assert_eq!(
        p.body.unwrap(),
        r#"{"operator":"eq","property":"name","type":"STRING_COMPARISON_TYPE","value":"brett"}"#
    );
    let u = ConstraintUpdateRequest { segment_key: "s".to_string(), id: "1".to_string(), operator: Operator::NotPresent, ..Default::default() };
    let p = c.constraints().update(&u).unwrap();
    assert_eq!(p.method, HttpMethod::Put);
    assert_eq!(p.url, url("/api/v1/namespaces/default/segments/s/constraints/1"));
    assert_eq!(
        p.body.unwrap(),
        r#"{"operator":"notpresent","property":"","type":"UNKNOWN_COMPARISON_TYPE","value":""}"#
    );
    let d = ConstraintDeleteRequest { segment_key: "s".to_string(), id: "1".to_string(), ..Default::default() };
    let p = c.constraints().delete(&d).unwrap();
    assert_eq!(p.method, HttpMethod::Delete);
    assert_eq!(p.url, url("/api/v1/namespaces/default/segments/s/constraints/1"));
}

#[test]
fn variant_requests() {
    let c = ApiClient::new(config());
    let create = VariantCreateRequest { flag_key: "flag-a".to_string(), key: "variant-a".to_string(), name: "Variant".to_string(), ..Default::default() };
    let p = c.variants().create(&create).unwrap();
    assert_eq!(p.url, url("/api/v1/namespaces/default/flags/flag-a/variants"));
    assert_eq!(
        p.body.unwrap(),
        r#"{"key":"variant-a","name":"Variant","description":"","attachment":""}"#
    );
    let u = VariantUpdateRequest { flag_key: "f".to_string(), id: "v1".to_string(), ..Default::default() };
    assert_eq!(c.variants().update(&u).unwrap().url, url("/api/v1/namespaces/default/flags/f/variants/v1"));
    let d = VariantDeleteRequest { namespace_key: Some("n".to_string()), flag_key: "f".to_string(), id: "v1".to_string() };
    assert_eq!(c.variants().delete(&d).unwrap().url, url("/api/v1/namespaces/n/flags/f/variants/v1"));
}

#[test]
fn rule_requests() {
    let c = ApiClient::new(config());
    let create = RuleCreateRequest { rank: 1, flag_key: "flag-a".to_string(), segment_key: Some("segment-a".to_string()), ..Default::default() };
    let p = c.rules().create(&create).unwrap();
    assert_eq!(p.url, url("/api/v1/namespaces/default/flags/flag-a/rules"));
    assert_eq!(p.body.unwrap(), r#"{"segmentKey":"segment-a","rank":1}"#);
    let u = RuleUpdateRequest {
        flag_key: "f".to_string(),
        id: "r".to_string(),
        segment_keys: Some(vec!["a".to_string(), "b".to_string()]),
        segment_operator: Some(SegmentOperator::And),
        rank: 3,
        ..Default::default()
    };
    let p = c.rules().update(&u).unwrap();
    assert_eq!(p.url, url("/api/v1/namespaces/default/flags/f/rules/r"));
    assert_eq!(
        p.body.unwrap(),
        r#"{"segmentKeys":["a","b"],"segmentOperator":"AND_SEGMENT_OPERATOR","rank":3}"#
    );
    let mut l = RuleListRequest::default();
    l.flag_key = "f".to_string();
    let p = c.rules().list(&l).unwrap();
    assert_eq!(p.url, url("/api/v1/namespaces/default/flags/f/rules"));
    assert_eq!(
        p.query,
        vec![pair("offset", "0"), pair("limit", "100"), pair("pageToken", "")]
    );
    let g = RuleGetRequest { flag_key: "f".to_string(), id: "r".to_string(), ..Default::default() };
    assert_eq!(c.rules().get(&g).unwrap().url, url("/api/v1/namespaces/default/flags/f/rules/r"));
}

#[test]
fn distribution_paths() {
    let c = ApiClient::new(config());
    let d = DistributionDeleteRequest { flag_key: "f".to_string(), rule_id: "r".to_string(), id: "d".to_string(), ..Default::default() };
    let p = c.distributions().delete(&d).unwrap();
    assert_eq!(p.method, HttpMethod::Delete);
    assert_eq!(p.url, url("/api/v1/namespaces/default/flags/f/rules/r/distributions/d"));
    assert_eq!(distributions_path_text("default", "f", "r"), "/api/v1/namespaces/default/flags/f/rules/r/distributions");
}

#[test]
fn rollout_requests() {
    let c = ApiClient::new(config());
    let g = RolloutGetRequest { id: "1".to_string(), flag_key: "flag-boolean".to_string(), ..Default::default() };
    assert_eq!(c.rollouts().get(&g).unwrap().url, url("/api/v1/namespaces/default/flags/flag-boolean/rollouts/1"));
    let u = RolloutUpdateRequest { id: "1".to_string(), flag_key: "f".to_string(), rank: 2, description: "d".to_string(), ..Default::default() };
    let p = c.rollouts().update(&u).unwrap();
    assert_eq!(p.body.unwrap(), r#"{"rank":2,"description":"d"}"#);
    let o = RolloutOrderRequest { flag_key: "f".to_string(), namespace_key: None, rollout_ids: vec!["b".to_string(), "a".to_string()] };
    let p = c.rollouts().order(&o).unwrap();
    assert_eq!(p.method, HttpMethod::Put);
    assert_eq!(p.url, url("/api/v1/namespaces/default/flags/f/rollouts/order"));
    assert_eq!(p.body.unwrap(), r#"{"rolloutIds":["b","a"]}"#);
    let d = RolloutDeleteRequest { flag_key: "f".to_string(), id: "1".to_string(), ..Default::default() };
    assert_eq!(c.rollouts().delete(&d).unwrap().method, HttpMethod::Delete);
    let s = RolloutSegment { segment_key: Some("segment-a".to_string()), value: true, ..Default::default() };
    assert_eq!(s.to_json(), r#"{"segmentKey":"segment-a","value":true}"#);
    assert_eq!(RolloutType::Threshold.wire_text(), "THRESHOLD_ROLLOUT_TYPE");
}

#[test]
fn evaluation_requests() {
    let c = ApiClient::new(config());
    let e = EvaluateRequest { entity_id: "abc".to_string(), flag_key: "f".to_string(), ..Default::default() };
    let b = BatchEvaluateRequest { namespace_key: Some("n".to_string()), requests: vec![e.clone(), e], exclude_not_found: true, request_id: "r".to_string() };
    let p = c.evaluation().evaluate_batch(&b).unwrap();
    assert_eq!(p.url, url("/api/v1/namespaces/n/batch-evaluate"));
    let one = r#"{"context":{},"entityId":"abc","flagKey":"f","requestId":""}"#;
    assert_eq!(p.body.unwrap(), format!(r#"{{"requests":[{one},{one}],"excludeNotFound":true,"requestId":"r"}}"#));
    let v = EvaluateV2Request { namespace_key: "default".to_string(), flag_key: "flag-boolean".to_string(), entity_id: "foo".to_string(), ..Default::default() };
    let p = c.evaluation().boolean(&v).unwrap();
    assert_eq!(p.url, url("/evaluate/v1/boolean"));
    let one = r#"{"context":{},"entityId":"foo","namespaceKey":"default","flagKey":"flag-boolean"}"#;
    assert_eq!(p.body.clone().unwrap(), one);
    assert_eq!(c.evaluation().variant(&v).unwrap().url, url("/evaluate/v1/variant"));
    let p = c.evaluation().batch(&BatchRequest { requests: vec![v] }).unwrap();
    assert_eq!(p.url, url("/evaluate/v1/batch"));
    assert_eq!(p.body.unwrap(), format!(r#"{{"requests":[{one}]}}"#));
}

#[test]
fn newer_evaluation_requests() {
    let c = ApiClient::new(config());
    let e = V2EvaluationClient::new(&c);
    let v = V2EvaluateRequest {
        namespace_key: "default".to_string(),
        flag_key: "flag-a".to_string(),
        entity_id: "foo".to_string(),
        context: brett(),
    };
    let p = e.variant(&v).unwrap();
    assert_eq!(p.url, url("/evaluate/v1/variant"));
    let one = r#"{"context":{"name":"brett"},"entityId":"foo","namespaceKey":"default","flagKey":"flag-a"}"#;
    assert_eq!(p.body.unwrap(), one);
    let p = e.batch(&V2BatchEvaluateRequest { requests: vec![v.clone()] }).unwrap();
    assert_eq!(p.body.unwrap(), format!(r#"{{"requests":[{one}]}}"#));
    assert_eq!(e.boolean(&v).unwrap().url, url("/evaluate/v1/boolean"));
}

#[test]
fn token_requests() {
    let a = AuthClient::new(config());
    let p = a.tokens().list(&TokenListRequest::default()).unwrap();
    assert_eq!(p.url, url("/auth/v1/tokens"));
    assert_eq!(p.query, vec![pair("offset", "0"), pair("limit", "100"), pair("pageToken", "")]);
    let create = TokenCreateRequest { name: "e2e".to_string(), description: "foobar".to_string(), ..Default::default() };
    let p = a.tokens().create(&create).unwrap();
    assert_eq!(p.url, url("/auth/v1/method/token"));
    assert_eq!(p.body.unwrap(), r#"{"name":"e2e","description":"foobar","namespace_key":""}"#);
    let create = TokenCreateRequest { expires_at: Timestamp::new(1_893_456_000, 0), ..Default::default() };
    assert_eq!(
        create.to_json(),
        r#"{"name":"","description":"","expires_at":"2030-01-01T00:00:00Z","namespace_key":""}"#
    );
    assert_eq!(a.tokens().get("x").unwrap().url, url("/auth/v1/tokens/x"));
    assert_eq!(a.tokens().delete("x").unwrap().method, HttpMethod::Delete);
    assert_eq!(a.me().unwrap().url, url("/auth/v1/self"));
}

#[test]
fn meta_info_request() {
    let m = MetaClient::new(config());
    let p = m.info().get().unwrap();
    assert_eq!(p.method, HttpMethod::Get);
    assert_eq!(p.url, url("/meta/info"));
}

#[test]
fn context_keeps_names_distinct() {
    let mut c = Context::new();
    assert_eq!(c.to_json(), "{}");
    c.insert("name".to_string(), "brett".to_string());
    c.insert("plan".to_string(), "pro".to_string());
    c.insert("name".to_string(), "ana".to_string());
    assert_eq!(c.to_json(), r#"{"name":"ana","plan":"pro"}"#);
    let d = c.clone();
    assert_eq!(d.to_json(), r#"{"name":"ana","plan":"pro"}"#);
    assert_eq!(Context::default().to_json(), "{}");
}

#[test]
fn timestamps_as_rfc3339() {
    let t = Timestamp::new(1_893_456_000, 0).unwrap();
    assert_eq!(t.rfc3339_text(), "2030-01-01T00:00:00Z");
    assert_eq!((t.seconds_since_epoch(), t.subsec_nanos()), (1_893_456_000, 0));
    let f = Timestamp::new(0, 500_000_000).unwrap();
    assert_eq!(f.rfc3339_text(), "1970-01-01T00:00:00.500Z");
    assert_eq!(f.clone().rfc3339_text(), "1970-01-01T00:00:00.500Z");
    assert!(Timestamp::new(i64::MAX, 0).is_none());
    assert!(Timestamp::new(0, 2_000_000_000).is_none());
}
