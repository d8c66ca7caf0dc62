use crate::api::{namespace_or_default, namespace_path, namespace_path_text, namespace_text, ApiClient};
use crate::dispatch::{follows_plan, HttpMethod, HttpRequest};
use crate::context::Context;
use crate::error::Error;
use crate::json::{
    array_text, bool_text, json_quoted, member, object_text, raw_array, string_members,
    texts, JsonObject,
};
use vstd::prelude::*;

verus! {

/// Requests that evaluate flags.
pub struct EvaluationClient<'client> {
    pub client: &'client ApiClient,
}

impl<'client> EvaluationClient<'client> {
    pub fn new(client: &'client ApiClient) -> (r: Self)
        ensures
            r.client == client,
    {
        EvaluationClient { client }
    }

    pub fn evaluate(&self, eval: &EvaluateRequest) -> (r: Result<HttpRequest, Error>)
        ensures
            follows_plan(
                r,
                self.client.dispatcher.plan(
                    HttpMethod::Post,
                    namespace_path(namespace_or_default(eval.namespace_key)) + "/evaluate"@,
                    seq![],
                    Some(object_text(eval.members())),
                ),
            ),
    {
        let mut path = namespace_path_text(namespace_text(&eval.namespace_key));
        path.append("/evaluate");
        self.client.dispatcher.post(path.as_str(), Some(eval.to_json()))
    }

    pub fn evaluate_batch(&self, batch: &BatchEvaluateRequest) -> (r: Result<HttpRequest, Error>)
        ensures
            follows_plan(
                r,
                self.client.dispatcher.plan(
                    HttpMethod::Post,
                    namespace_path(namespace_or_default(batch.namespace_key)) + "/batch-evaluate"@,
                    seq![],
                    Some(object_text(batch.members())),
                ),
            ),
    {
        let mut path = namespace_path_text(namespace_text(&batch.namespace_key));
        path.append("/batch-evaluate");
        self.client.dispatcher.post(path.as_str(), Some(batch.to_json()))
    }

    pub fn boolean(&self, eval: &EvaluateV2Request) -> (r: Result<HttpRequest, Error>)
        ensures
            follows_plan(
                r,
                self.client.dispatcher.plan(
                    HttpMethod::Post,
                    "/evaluate/v1/boolean"@,
                    seq![],
                    Some(object_text(eval.members())),
                ),
            ),
    {
        self.client.dispatcher.post("/evaluate/v1/boolean", Some(eval.to_json()))
    }

    pub fn variant(&self, eval: &EvaluateV2Request) -> (r: Result<HttpRequest, Error>)
        ensures
            follows_plan(
                r,
                self.client.dispatcher.plan(
                    HttpMethod::Post,
                    "/evaluate/v1/variant"@,
                    seq![],
                    Some(object_text(eval.members())),
                ),
            ),
    {
        self.client.dispatcher.post("/evaluate/v1/variant", Some(eval.to_json()))
    }

    pub fn batch(&self, batch: &BatchRequest) -> (r: Result<HttpRequest, Error>)
        ensures
            follows_plan(
                r,
                self.client.dispatcher.plan(
                    HttpMethod::Post,
                    "/evaluate/v1/batch"@,
                    seq![],
                    Some(object_text(batch.members())),
                ),
            ),
    {
        self.client.dispatcher.post("/evaluate/v1/batch", Some(batch.to_json()))
    }
}

#[derive(Debug, Default)]
pub struct BatchEvaluateRequest {
    /// Names the path; not sent in the body.
    pub namespace_key: Option<String>,
    pub requests: Vec<EvaluateRequest>,
    pub exclude_not_found: bool,
    pub request_id: String,
}

impl BatchEvaluateRequest {
    /// The JSON texts of the requests.
    pub open spec fn request_texts(&self) -> Seq<Seq<char>> {
        self.requests@.map_values(|e: EvaluateRequest| object_text(e.members()))
    }

    /// The members of the JSON body.
    pub open spec fn members(&self) -> Seq<Seq<char>> {
        seq![
            member("requests"@, array_text(self.request_texts())),
            member("excludeNotFound"@, bool_text(self.exclude_not_found)),
            member("requestId"@, json_quoted(self.request_id@)),
        ]
    }

    pub fn to_json(&self) -> (r: String)
        ensures
            r@ == object_text(self.members()),
    {
        let mut items: Vec<String> = Vec::new();
        let mut i: usize = 0;
        while i < self.requests.len()
            invariant
                i <= self.requests@.len(),
                texts(items@) =~= self.request_texts().take(i as int),
            decreases self.requests@.len() - i,
        {
            let t = self.requests[i].to_json();
            let ghost before = items@;
            items.push(t);
            assert(texts(items@) =~= texts(before).push(t@));
            i = i + 1;
        }
        assert(self.request_texts().take(self.requests@.len() as int) =~= self.request_texts());
        let mut o = JsonObject::new();
        let a = raw_array(&items);
        o.raw("requests", a.as_str());
        o.boolean("excludeNotFound", self.exclude_not_found);
        o.string("requestId", self.request_id.as_str());
        assert(o@ =~= self.members());
        o.finish()
    }
}

/// The evaluation of one flag for one entity.
#[derive(Debug, Default, Clone)]
pub struct EvaluateRequest {
    /// The properties of the entity, sent as a JSON object.
    pub context: Context,
    pub entity_id: String,
    /// Names the path; not sent in the body.
    pub namespace_key: Option<String>,
    pub flag_key: String,
    pub request_id: String,
}

impl EvaluateRequest {
    /// The members of the JSON body.
    pub open spec fn members(&self) -> Seq<Seq<char>> {
        seq![
            member("context"@, object_text(string_members(self.context@))),
            member("entityId"@, json_quoted(self.entity_id@)),
            member("flagKey"@, json_quoted(self.flag_key@)),
            member("requestId"@, json_quoted(self.request_id@)),
        ]
    }

    pub fn to_json(&self) -> (r: String)
        ensures
            r@ == object_text(self.members()),
    {
        let mut o = JsonObject::new();
        let c = self.context.to_json();
        o.raw("context", c.as_str());
        o.string("entityId", self.entity_id.as_str());
        o.string("flagKey", self.flag_key.as_str());
        o.string("requestId", self.request_id.as_str());
        assert(o@ =~= self.members());
        o.finish()
    }
}

#[derive(Debug, Default)]
pub struct BatchRequest {
    pub requests: Vec<EvaluateV2Request>,
}

impl BatchRequest {
    /// The JSON texts of the requests.
    pub open spec fn request_texts(&self) -> Seq<Seq<char>> {
        self.requests@.map_values(|e: EvaluateV2Request| object_text(e.members()))
    }

    /// The members of the JSON body.
    pub open spec fn members(&self) -> Seq<Seq<char>> {
        seq![member("requests"@, array_text(self.request_texts()))]
    }

    pub fn to_json(&self) -> (r: String)
        ensures
            r@ == object_text(self.members()),
    {
        let mut items: Vec<String> = Vec::new();
        let mut i: usize = 0;
        while i < self.requests.len()
            invariant
                i <= self.requests@.len(),
                texts(items@) =~= self.request_texts().take(i as int),
            decreases self.requests@.len() - i,
        {
            let t = self.requests[i].to_json();
            let ghost before = items@;
            items.push(t);
            assert(texts(items@) =~= texts(before).push(t@));
            i = i + 1;
        }
        assert(self.request_texts().take(self.requests@.len() as int) =~= self.request_texts());
        let mut o = JsonObject::new();
        let a = raw_array(&items);
        o.raw("requests", a.as_str());
        assert(o@ =~= self.members());
        o.finish()
    }
}

/// The evaluation of one flag of a namespace for one entity.
#[derive(Debug, Default, Clone)]
pub struct EvaluateV2Request {
    /// The properties of the entity, sent as a JSON object.
    pub context: Context,
    pub entity_id: String,
    pub namespace_key: String,
    pub flag_key: String,
}

impl EvaluateV2Request {
    /// The members of the JSON body.
    pub open spec fn members(&self) -> Seq<Seq<char>> {
        seq![
            member("context"@, object_text(string_members(self.context@))),
            member("entityId"@, json_quoted(self.entity_id@)),
            member("namespaceKey"@, json_quoted(self.namespace_key@)),
            member("flagKey"@, json_quoted(self.flag_key@)),
        ]
    }

    pub fn to_json(&self) -> (r: String)
        ensures
            r@ == object_text(self.members()),
    {
        let mut o = JsonObject::new();
        let c = self.context.to_json();
        o.raw("context", c.as_str());
        o.string("entityId", self.entity_id.as_str());
        o.string("namespaceKey", self.namespace_key.as_str());
        o.string("flagKey", self.flag_key.as_str());
        assert(o@ =~= self.members());
        o.finish()
    }
}

/// The kind of an evaluation response.
#[derive(Debug, Clone, Copy, PartialEq, Eq, Structural)]
pub enum ResponseType {
    Variant,
    Boolean,
}

impl ResponseType {
    /// The name on the wire.
    pub open spec fn wire_name(self) -> Seq<char> {
        match self {
            ResponseType::Variant => "VARIANT_EVALUATION_RESPONSE_TYPE"@,
            ResponseType::Boolean => "BOOLEAN_EVALUATION_RESPONSE_TYPE"@,
        }
    }

    pub fn wire_text(self) -> (r: &'static str)
        ensures
            r@ == self.wire_name(),
    {
        match self {
            ResponseType::Variant => "VARIANT_EVALUATION_RESPONSE_TYPE",
            ResponseType::Boolean => "BOOLEAN_EVALUATION_RESPONSE_TYPE",
        }
    }
}

/// Why an evaluation came out as it did.
#[derive(Debug, Clone, Copy, PartialEq, Eq, Structural)]
pub enum Reason {
    Unknown,
    FlagDisabled,
    FlagNotFound,
    Match,
    Error,
    Default,
}

impl Reason {
    /// The name on the wire.
    pub open spec fn wire_name(self) -> Seq<char> {
        match self {
            Reason::Unknown => "UNKNOWN_EVALUATION_REASON"@,
            Reason::FlagDisabled => "FLAG_DISABLED_EVALUATION_REASON"@,
            Reason::FlagNotFound => "FLAG_NOT_FOUND_EVALUATION_REASON"@,
            Reason::Match => "MATCH_EVALUATION_REASON"@,
            Reason::Error => "ERROR_EVALUATION_REASON"@,
            Reason::Default => "DEFAULT_EVALUATION_REASON"@,
        }
    }

    pub fn wire_text(self) -> (r: &'static str)
        ensures
            r@ == self.wire_name(),
    {
        match self {
            Reason::Unknown => "UNKNOWN_EVALUATION_REASON",
            Reason::FlagDisabled => "FLAG_DISABLED_EVALUATION_REASON",
            Reason::FlagNotFound => "FLAG_NOT_FOUND_EVALUATION_REASON",
            Reason::Match => "MATCH_EVALUATION_REASON",
            Reason::Error => "ERROR_EVALUATION_REASON",
            Reason::Default => "DEFAULT_EVALUATION_REASON",
        }
    }
}

} // verus!
