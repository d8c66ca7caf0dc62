//! The evaluation surface under `/evaluate/v1`, with its own request and
//! response schema.
use crate::api::ApiClient;
use crate::dispatch::{follows_plan, HttpMethod, HttpRequest};
use crate::context::Context;
use crate::error::Error;
use crate::json::{
    array_text, json_quoted, member, object_text, raw_array, string_members, texts,
    JsonObject,
};
use vstd::prelude::*;

verus! {

/// Requests that evaluate flags.
pub struct EvaluationClient<'client> {
    pub client: &'client ApiClient,
}

impl<'client> EvaluationClient<'client> {
    pub fn new(client: &'client ApiClient) -> (r: Self)
        ensures
            r.client == client,
    {
        EvaluationClient { client }
    }

    pub fn boolean(&self, eval: &EvaluateRequest) -> (r: Result<HttpRequest, Error>)
        ensures
            follows_plan(
                r,
                self.client.dispatcher.plan(
                    HttpMethod::Post,
                    "/evaluate/v1/boolean"@,
                    seq![],
                    Some(object_text(eval.members())),
                ),
            ),
    {
        self.client.dispatcher.post("/evaluate/v1/boolean", Some(eval.to_json()))
    }

    pub fn variant(&self, eval: &EvaluateRequest) -> (r: Result<HttpRequest, Error>)
        ensures
            follows_plan(
                r,
                self.client.dispatcher.plan(
                    HttpMethod::Post,
                    "/evaluate/v1/variant"@,
                    seq![],
                    Some(object_text(eval.members())),
                ),
            ),
    {
        self.client.dispatcher.post("/evaluate/v1/variant", Some(eval.to_json()))
    }

    pub fn batch(&self, batch: &BatchEvaluateRequest) -> (r: Result<HttpRequest, Error>)
        ensures
            follows_plan(
                r,
                self.client.dispatcher.plan(
                    HttpMethod::Post,
                    "/evaluate/v1/batch"@,
                    seq![],
                    Some(object_text(batch.members())),
                ),
            ),
    {
        self.client.dispatcher.post("/evaluate/v1/batch", Some(batch.to_json()))
    }
}

#[derive(Debug, Default)]
pub struct BatchEvaluateRequest {
    pub requests: Vec<EvaluateRequest>,
}

impl BatchEvaluateRequest {
    /// The JSON texts of the requests.
    pub open spec fn request_texts(&self) -> Seq<Seq<char>> {
        self.requests@.map_values(|e: EvaluateRequest| object_text(e.members()))
    }

    /// The members of the JSON body.
    pub open spec fn members(&self) -> Seq<Seq<char>> {
        seq![member("requests"@, array_text(self.request_texts()))]
    }

    pub fn to_json(&self) -> (r: String)
        ensures
            r@ == object_text(self.members()),
    {
        let mut items: Vec<String> = Vec::new();
        let mut i: usize = 0;
        while i < self.requests.len()
            invariant
                i <= self.requests@.len(),
                texts(items@) =~= self.request_texts().take(i as int),
            decreases self.requests@.len() - i,
        {
            let t = self.requests[i].to_json();
            let ghost before = items@;
            items.push(t);
            assert(texts(items@) =~= texts(before).push(t@));
            i = i + 1;
        }
        assert(self.request_texts().take(self.requests@.len() as int) =~= self.request_texts());
        let mut o = JsonObject::new();
        let a = raw_array(&items);
        o.raw("requests", a.as_str());
        assert(o@ =~= self.members());
        o.finish()
    }
}

/// The evaluation of one flag of a namespace for one entity.
#[derive(Debug, Default, Clone)]
pub struct EvaluateRequest {
    /// The properties of the entity, sent as a JSON object.
    pub context: Context,
    pub entity_id: String,
    pub namespace_key: String,
    pub flag_key: String,
}

impl EvaluateRequest {
    /// The members of the JSON body.
    pub open spec fn members(&self) -> Seq<Seq<char>> {
        seq![
            member("context"@, object_text(string_members(self.context@))),
            member("entityId"@, json_quoted(self.entity_id@)),
            member("namespaceKey"@, json_quoted(self.namespace_key@)),
            member("flagKey"@, json_quoted(self.flag_key@)),
        ]
    }

    pub fn to_json(&self) -> (r: String)
        ensures
            r@ == object_text(self.members()),
    {
        let mut o = JsonObject::new();
        let c = self.context.to_json();
        o.raw("context", c.as_str());
        o.string("entityId", self.entity_id.as_str());
        o.string("namespaceKey", self.namespace_key.as_str());
        o.string("flagKey", self.flag_key.as_str());
        assert(o@ =~= self.members());
        o.finish()
    }
}

/// The failed evaluation of one flag of a batch.
#[derive(Debug, Clone)]
pub struct ErrorEvaluation {
    pub flag_key: String,
    pub namespace_key: String,
    pub reason: ErrorEvaluationReason,
}

/// The kind of one response of a batch.
#[derive(Debug, Clone, Copy, PartialEq, Eq, Structural)]
pub enum ResponseType {
    Variant,
    Boolean,
    Error,
}

impl ResponseType {
    /// The name on the wire.
    pub open spec fn wire_name(self) -> Seq<char> {
        match self {
            ResponseType::Variant => "VARIANT_EVALUATION_RESPONSE_TYPE"@,
            ResponseType::Boolean => "BOOLEAN_EVALUATION_RESPONSE_TYPE"@,
            ResponseType::Error => "ERROR_EVALUATION_RESPONSE_TYPE"@,
        }
    }

    pub fn wire_text(self) -> (r: &'static str)
        ensures
            r@ == self.wire_name(),
    {
        match self {
            ResponseType::Variant => "VARIANT_EVALUATION_RESPONSE_TYPE",
            ResponseType::Boolean => "BOOLEAN_EVALUATION_RESPONSE_TYPE",
            ResponseType::Error => "ERROR_EVALUATION_RESPONSE_TYPE",
        }
    }
}

/// Why the evaluation of one flag of a batch failed.
#[derive(Debug, Clone, Copy, PartialEq, Eq, Structural)]
pub enum ErrorEvaluationReason {
    Unknown,
    NotFound,
}

impl ErrorEvaluationReason {
    /// The name on the wire.
    pub open spec fn wire_name(self) -> Seq<char> {
        match self {
            ErrorEvaluationReason::Unknown => "UNKNOWN_ERROR_EVALUATION_REASON"@,
            ErrorEvaluationReason::NotFound => "NOT_FOUND_ERROR_EVALUATION_REASON"@,
        }
    }

    pub fn wire_text(self) -> (r: &'static str)
        ensures
            r@ == self.wire_name(),
    {
        match self {
            ErrorEvaluationReason::Unknown => "UNKNOWN_ERROR_EVALUATION_REASON",
            ErrorEvaluationReason::NotFound => "NOT_FOUND_ERROR_EVALUATION_REASON",
        }
    }
}

/// Why an evaluation came out as it did.
#[derive(Debug, Clone, Copy, PartialEq, Eq, Structural)]
pub enum Reason {
    Unknown,
    FlagDisabled,
    Match,
    Default,
}

impl Reason {
    /// The name on the wire.
    pub open spec fn wire_name(self) -> Seq<char> {
        match self {
            Reason::Unknown => "UNKNOWN_EVALUATION_REASON"@,
            Reason::FlagDisabled => "FLAG_DISABLED_EVALUATION_REASON"@,
            Reason::Match => "MATCH_EVALUATION_REASON"@,
            Reason::Default => "DEFAULT_EVALUATION_REASON"@,
        }
    }

    pub fn wire_text(self) -> (r: &'static str)
        ensures
            r@ == self.wire_name(),
    {
        match self {
            Reason::Unknown => "UNKNOWN_EVALUATION_REASON",
            Reason::FlagDisabled => "FLAG_DISABLED_EVALUATION_REASON",
            Reason::Match => "MATCH_EVALUATION_REASON",
            Reason::Default => "DEFAULT_EVALUATION_REASON",
        }
    }
}

} // verus!
