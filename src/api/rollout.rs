use crate::api::flag::{flag_path, flag_path_text};
pub use crate::api::rule::SegmentOperator;
use crate::api::rule::{add_segment_members, segment_members};
use crate::api::{namespace_or_default, namespace_text, ApiClient};
use crate::dispatch::{follows_plan, HttpMethod, HttpRequest};
use crate::error::Error;
use crate::json::{
    array_text, bool_text, decimal, json_quoted, member, object_text, quoted_all, string_array,
    JsonObject,
};
use vstd::prelude::*;

verus! {

/// `/api/v1/namespaces/{ns}/flags/{flag}/rollouts`
pub open spec fn rollouts_path(ns: Seq<char>, flag: Seq<char>) -> Seq<char> {
    flag_path(ns, flag) + "/rollouts"@
}

/// `/api/v1/namespaces/{ns}/flags/{flag}/rollouts/{id}`
pub open spec fn rollout_path(ns: Seq<char>, flag: Seq<char>, id: Seq<char>) -> Seq<char> {
    rollouts_path(ns, flag) + "/"@ + id
}

/// The path on which rollouts of a flag are created.
pub fn rollouts_path_text(ns: &str, flag: &str) -> (r: String)
    ensures
        r@ == rollouts_path(ns@, flag@),
{
    let mut p = flag_path_text(ns, flag);
    p.append("/rollouts");
    p
}

pub fn rollout_path_text(ns: &str, flag: &str, id: &str) -> (r: String)
    ensures
        r@ == rollout_path(ns@, flag@, id@),
{
    let mut p = rollouts_path_text(ns, flag);
    p.append("/");
    p.append(id);
    p
}

/// Requests on the rollouts of a boolean flag.
pub struct RolloutClient<'client> {
    pub client: &'client ApiClient,
}

impl<'client> RolloutClient<'client> {
    pub fn new(client: &'client ApiClient) -> (r: Self)
        ensures
            r.client == client,
    {
        RolloutClient { client }
    }

    pub fn get(&self, get: &RolloutGetRequest) -> (r: Result<HttpRequest, Error>)
        ensures
            follows_plan(
                r,
                self.client.dispatcher.plan(
                    HttpMethod::Get,
                    rollout_path(namespace_or_default(get.namespace_key), get.flag_key@, get.id@),
                    seq![],
                    None,
                ),
            ),
    {
        let path = rollout_path_text(
            namespace_text(&get.namespace_key),
            get.flag_key.as_str(),
            get.id.as_str(),
        );
        self.client.dispatcher.get(path.as_str(), None)
    }

    pub fn delete(&self, delete: &RolloutDeleteRequest) -> (r: Result<HttpRequest, Error>)
        ensures
            follows_plan(
                r,
                self.client.dispatcher.plan(
                    HttpMethod::Delete,
                    rollout_path(
                        namespace_or_default(delete.namespace_key),
                        delete.flag_key@,
                        delete.id@,
                    ),
                    seq![],
                    None,
                ),
            ),
    {
        let path = rollout_path_text(
            namespace_text(&delete.namespace_key),
            delete.flag_key.as_str(),
            delete.id.as_str(),
        );
        self.client.dispatcher.delete(path.as_str(), None)
    }

    pub fn update(&self, update: &RolloutUpdateRequest) -> (r: Result<HttpRequest, Error>)
        ensures
            follows_plan(
                r,
                self.client.dispatcher.plan(
                    HttpMethod::Put,
                    rollout_path(
                        namespace_or_default(update.namespace_key),
                        update.flag_key@,
                        update.id@,
                    ),
                    seq![],
                    Some(object_text(update.members())),
                ),
            ),
    {
        let path = rollout_path_text(
            namespace_text(&update.namespace_key),
            update.flag_key.as_str(),
            update.id.as_str(),
        );
        self.client.dispatcher.put(path.as_str(), Some(update.to_json()))
    }

    /// Puts the rollouts of the flag in the given order.
    pub fn order(&self, order: &RolloutOrderRequest) -> (r: Result<HttpRequest, Error>)
        ensures
            follows_plan(
                r,
                self.client.dispatcher.plan(
                    HttpMethod::Put,
                    rollouts_path(namespace_or_default(order.namespace_key), order.flag_key@)
                        + "/order"@,
                    seq![],
                    Some(object_text(order.members())),
                ),
            ),
    {
        let mut path = rollouts_path_text(
            namespace_text(&order.namespace_key),
            order.flag_key.as_str(),
        );
        path.append("/order");
        self.client.dispatcher.put(path.as_str(), Some(order.to_json()))
    }
}

/// The reply to a deletion or a reordering: an empty record.
#[derive(Debug, Clone)]
pub struct Empty {}

#[derive(Debug, Clone)]
pub struct RolloutOrderRequest {
    /// Names the path; not sent in the body.
    pub flag_key: String,
    /// Names the path; not sent in the body.
    pub namespace_key: Option<String>,
    pub rollout_ids: Vec<String>,
}

impl RolloutOrderRequest {
    /// The members of the JSON body.
    pub open spec fn members(&self) -> Seq<Seq<char>> {
        seq![member("rolloutIds"@, array_text(quoted_all(self.rollout_ids@)))]
    }

    pub fn to_json(&self) -> (r: String)
        ensures
            r@ == object_text(self.members()),
    {
        let mut o = JsonObject::new();
        let ids = string_array(&self.rollout_ids);
        o.raw("rolloutIds", ids.as_str());
        assert(o@ =~= self.members());
        o.finish()
    }
}

#[derive(Debug, Default)]
pub struct RolloutGetRequest {
    pub id: String,
    pub namespace_key: Option<String>,
    pub flag_key: String,
}

#[derive(Debug, Default)]
pub struct RolloutUpdateRequest {
    /// Names the path; not sent in the body.
    pub id: String,
    /// Names the path; not sent in the body.
    pub namespace_key: Option<String>,
    /// Names the path; not sent in the body.
    pub flag_key: String,
    pub rank: u32,
    pub description: String,
}

impl RolloutUpdateRequest {
    /// The members of the JSON body.
    pub open spec fn members(&self) -> Seq<Seq<char>> {
        seq![
            member("rank"@, decimal(self.rank as nat)),
            member("description"@, json_quoted(self.description@)),
        ]
    }

    pub fn to_json(&self) -> (r: String)
        ensures
            r@ == object_text(self.members()),
    {
        let mut o = JsonObject::new();
        o.number("rank", self.rank as u64);
        o.string("description", self.description.as_str());
        assert(o@ =~= self.members());
        o.finish()
    }
}

#[derive(Debug, Default)]
pub struct RolloutDeleteRequest {
    pub namespace_key: Option<String>,
    pub flag_key: String,
    pub id: String,
}

/// What a rollout targets.
#[derive(Debug, Clone, Copy, PartialEq, Eq, Structural)]
pub enum RolloutType {
    Unknown,
    Segment,
    Threshold,
}

impl RolloutType {
    /// The name of the type on the wire.
    pub open spec fn wire_name(self) -> Seq<char> {
        match self {
            RolloutType::Unknown => "UNKNOWN_ROLLOUT_TYPE"@,
            RolloutType::Segment => "SEGMENT_ROLLOUT_TYPE"@,
            RolloutType::Threshold => "THRESHOLD_ROLLOUT_TYPE"@,
        }
    }

    pub fn wire_text(self) -> (r: &'static str)
        ensures
            r@ == self.wire_name(),
    {
        match self {
            RolloutType::Unknown => "UNKNOWN_ROLLOUT_TYPE",
            RolloutType::Segment => "SEGMENT_ROLLOUT_TYPE",
            RolloutType::Threshold => "THRESHOLD_ROLLOUT_TYPE",
        }
    }
}

/// A rollout step that targets one or more segments.
#[derive(Debug, Default, Clone)]
pub struct RolloutSegment {
    pub segment_key: Option<String>,
    pub segment_keys: Option<Vec<String>>,
    pub segment_operator: Option<SegmentOperator>,
    pub value: bool,
}

impl RolloutSegment {
    /// The members of its JSON object.
    pub open spec fn members(&self) -> Seq<Seq<char>> {
        segment_members(self.segment_key, self.segment_keys, self.segment_operator) + seq![
            member("value"@, bool_text(self.value)),
        ]
    }

    pub fn to_json(&self) -> (r: String)
        ensures
            r@ == object_text(self.members()),
    {
        let mut o = JsonObject::new();
        add_segment_members(&mut o, &self.segment_key, &self.segment_keys, &self.segment_operator);
        o.boolean("value", self.value);
        assert(o@ =~= self.members());
        o.finish()
    }
}

} // verus!
