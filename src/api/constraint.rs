use crate::api::namespace_or_default;
use crate::api::namespace_text;
use crate::api::segment::{segment_path, segment_path_text};
use crate::api::ApiClient;
use crate::dispatch::{follows_plan, HttpMethod, HttpRequest};
use crate::error::Error;
use crate::json::{json_quoted, member, object_text, JsonObject};
use vstd::prelude::*;

verus! {

/// `/api/v1/namespaces/{ns}/segments/{segment}/constraints`
pub open spec fn constraints_path(ns: Seq<char>, segment: Seq<char>) -> Seq<char> {
    segment_path(ns, segment) + "/constraints"@
}

/// `/api/v1/namespaces/{ns}/segments/{segment}/constraints/{id}`
pub open spec fn constraint_path(ns: Seq<char>, segment: Seq<char>, id: Seq<char>) -> Seq<char> {
    constraints_path(ns, segment) + "/"@ + id
}

pub fn constraints_path_text(ns: &str, segment: &str) -> (r: String)
    ensures
        r@ == constraints_path(ns@, segment@),
{
    let mut p = segment_path_text(ns, segment);
    p.append("/constraints");
    p
}

pub fn constraint_path_text(ns: &str, segment: &str, id: &str) -> (r: String)
    ensures
        r@ == constraint_path(ns@, segment@, id@),
{
    let mut p = constraints_path_text(ns, segment);
    p.append("/");
    p.append(id);
    p
}

/// Requests on the constraints of a segment.
pub struct ConstraintClient<'client> {
    pub client: &'client ApiClient,
}

impl<'client> ConstraintClient<'client> {
    pub fn new(client: &'client ApiClient) -> (r: Self)
        ensures
            r.client == client,
    {
        ConstraintClient { client }
    }

    pub fn create(&self, create: &ConstraintCreateRequest) -> (r: Result<HttpRequest, Error>)
        ensures
            follows_plan(
                r,
                self.client.dispatcher.plan(
                    HttpMethod::Post,
                    constraints_path(namespace_or_default(create.namespace_key), create.segment_key@),
                    seq![],
                    Some(object_text(create.members())),
                ),
            ),
    {
        let path = constraints_path_text(
            namespace_text(&create.namespace_key),
            create.segment_key.as_str(),
        );
        self.client.dispatcher.post(path.as_str(), Some(create.to_json()))
    }

    pub fn delete(&self, delete: &ConstraintDeleteRequest) -> (r: Result<HttpRequest, Error>)
        ensures
            follows_plan(
                r,
                self.client.dispatcher.plan(
                    HttpMethod::Delete,
                    constraint_path(
                        namespace_or_default(delete.namespace_key),
                        delete.segment_key@,
                        delete.id@,
                    ),
                    seq![],
                    None,
                ),
            ),
    {
        let path = constraint_path_text(
            namespace_text(&delete.namespace_key),
            delete.segment_key.as_str(),
            delete.id.as_str(),
        );
        self.client.dispatcher.delete(path.as_str(), None)
    }

    pub fn update(&self, update: &ConstraintUpdateRequest) -> (r: Result<HttpRequest, Error>)
        ensures
            follows_plan(
                r,
                self.client.dispatcher.plan(
                    HttpMethod::Put,
                    constraint_path(
                        namespace_or_default(update.namespace_key),
                        update.segment_key@,
                        update.id@,
                    ),
                    seq![],
                    Some(object_text(update.members())),
                ),
            ),
    {
        let path = constraint_path_text(
            namespace_text(&update.namespace_key),
            update.segment_key.as_str(),
            update.id.as_str(),
        );
        self.client.dispatcher.put(path.as_str(), Some(update.to_json()))
    }
}

#[derive(Debug, Default)]
pub struct ConstraintCreateRequest {
    /// Names the path; not sent in the body.
    pub namespace_key: Option<String>,
    /// Names the path; not sent in the body.
    pub segment_key: String,
    pub operator: Operator,
    pub property: String,
    /// Sent as `type`.
    pub comparison_type: ComparisonType,
    pub value: String,
}

#[derive(Debug, Default)]
pub struct ConstraintUpdateRequest {
    /// Names the path; not sent in the body.
    pub namespace_key: Option<String>,
    /// Names the path; not sent in the body.
    pub segment_key: String,
    /// Names the path; not sent in the body.
    pub id: String,
    pub operator: Operator,
    pub property: String,
    /// Sent as `type`.
    pub comparison_type: ComparisonType,
    pub value: String,
}

impl ConstraintCreateRequest {
    /// The members of the JSON body.
    pub open spec fn members(&self) -> Seq<Seq<char>> {
        seq![
            member("operator"@, json_quoted(self.operator.wire_name())),
            member("property"@, json_quoted(self.property@)),
            member("type"@, json_quoted(self.comparison_type.wire_name())),
            member("value"@, json_quoted(self.value@)),
        ]
    }

    pub fn to_json(&self) -> (r: String)
        ensures
            r@ == object_text(self.members()),
    {
        let mut o = JsonObject::new();
        o.string("operator", self.operator.wire_text());
        o.string("property", self.property.as_str());
        o.string("type", self.comparison_type.wire_text());
        o.string("value", self.value.as_str());
        assert(o@ =~= self.members());
        o.finish()
    }
}

impl ConstraintUpdateRequest {
    /// The members of the JSON body.
    pub open spec fn members(&self) -> Seq<Seq<char>> {
        seq![
            member("operator"@, json_quoted(self.operator.wire_name())),
            member("property"@, json_quoted(self.property@)),
            member("type"@, json_quoted(self.comparison_type.wire_name())),
            member("value"@, json_quoted(self.value@)),
        ]
    }

    pub fn to_json(&self) -> (r: String)
        ensures
            r@ == object_text(self.members()),
    {
        let mut o = JsonObject::new();
        o.string("operator", self.operator.wire_text());
        o.string("property", self.property.as_str());
        o.string("type", self.comparison_type.wire_text());
        o.string("value", self.value.as_str());
        assert(o@ =~= self.members());
        o.finish()
    }
}

#[derive(Debug, Default)]
pub struct ConstraintDeleteRequest {
    pub namespace_key: Option<String>,
    pub segment_key: String,
    pub id: String,
}

/// The reply to a deletion: an empty record.
#[derive(Debug, Clone)]
pub struct ConstraintDeletion {}

/// How a constraint compares the property with its value.
#[derive(Debug, Default, Clone, Copy, PartialEq, Eq, Structural)]
pub enum Operator {
    #[default]
    Eq,
    NotEq,
    Lt,
    Lte,
    Gt,
    Gte,
    Empty,
    NotEmpty,
    True,
    False,
    Present,
    NotPresent,
    Prefix,
    Suffix,
}

impl Operator {
    /// The name on the wire.
    pub open spec fn wire_name(self) -> Seq<char> {
        match self {
            Operator::Eq => "eq"@,
            Operator::NotEq => "neq"@,
            Operator::Lt => "lt"@,
            Operator::Lte => "lte"@,
            Operator::Gt => "gt"@,
            Operator::Gte => "gte"@,
            Operator::Empty => "empty"@,
            Operator::NotEmpty => "notempty"@,
            Operator::True => "true"@,
            Operator::False => "false"@,
            Operator::Present => "present"@,
            Operator::NotPresent => "notpresent"@,
            Operator::Prefix => "prefix"@,
            Operator::Suffix => "suffix"@,
        }
    }

    pub fn wire_text(self) -> (r: &'static str)
        ensures
            r@ == self.wire_name(),
    {
        match self {
            Operator::Eq => "eq",
            Operator::NotEq => "neq",
            Operator::Lt => "lt",
            Operator::Lte => "lte",
            Operator::Gt => "gt",
            Operator::Gte => "gte",
            Operator::Empty => "empty",
            Operator::NotEmpty => "notempty",
            Operator::True => "true",
            Operator::False => "false",
            Operator::Present => "present",
            Operator::NotPresent => "notpresent",
            Operator::Prefix => "prefix",
            Operator::Suffix => "suffix",
        }
    }
}

/// The type that a constraint compares values as.
#[derive(Debug, Default, Clone, Copy, PartialEq, Eq, Structural)]
pub enum ComparisonType {
    #[default]
    Unknown,
    String,
    Number,
    Boolean,
}

impl ComparisonType {
    /// The name on the wire.
    pub open spec fn wire_name(self) -> Seq<char> {
        match self {
            ComparisonType::Unknown => "UNKNOWN_COMPARISON_TYPE"@,
            ComparisonType::String => "STRING_COMPARISON_TYPE"@,
            ComparisonType::Number => "NUMBER_COMPARISON_TYPE"@,
            ComparisonType::Boolean => "BOOLEAN_COMPARISON_TYPE"@,
        }
    }

    pub fn wire_text(self) -> (r: &'static str)
        ensures
            r@ == self.wire_name(),
    {
        match self {
            ComparisonType::Unknown => "UNKNOWN_COMPARISON_TYPE",
            ComparisonType::String => "STRING_COMPARISON_TYPE",
            ComparisonType::Number => "NUMBER_COMPARISON_TYPE",
            ComparisonType::Boolean => "BOOLEAN_COMPARISON_TYPE",
        }
    }
}

} // verus!
