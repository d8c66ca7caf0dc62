use crate::api::{
    namespace_or_default, namespace_path, namespace_path_text, namespace_text, page_params,
    page_query, ApiClient, DEFAULT_LIMIT,
};
use crate::dispatch::{follows_plan, HttpMethod, HttpRequest};
use crate::error::Error;
use crate::json::{json_quoted, member, object_text, JsonObject};
use vstd::prelude::*;

verus! {

/// `/api/v1/namespaces/{ns}/segments`
pub open spec fn segments_path(ns: Seq<char>) -> Seq<char> {
    namespace_path(ns) + "/segments"@
}

/// `/api/v1/namespaces/{ns}/segments/{key}`
pub open spec fn segment_path(ns: Seq<char>, key: Seq<char>) -> Seq<char> {
    segments_path(ns) + "/"@ + key
}

pub fn segments_path_text(ns: &str) -> (r: String)
    ensures
        r@ == segments_path(ns@),
{
    let mut p = namespace_path_text(ns);
    p.append("/segments");
    p
}

pub fn segment_path_text(ns: &str, key: &str) -> (r: String)
    ensures
        r@ == segment_path(ns@, key@),
{
    let mut p = segments_path_text(ns);
    p.append("/");
    p.append(key);
    p
}

/// Requests on the segments of a namespace.
pub struct SegmentClient<'client> {
    pub client: &'client ApiClient,
}

impl<'client> SegmentClient<'client> {
    pub fn new(client: &'client ApiClient) -> (r: Self)
        ensures
            r.client == client,
    {
        SegmentClient { client }
    }

    /// A page of the segments of the namespace.
    pub fn list(&self, list: &SegmentListRequest) -> (r: Result<HttpRequest, Error>)
        ensures
            follows_plan(
                r,
                self.client.dispatcher.plan(
                    HttpMethod::Get,
                    segments_path(namespace_or_default(list.namespace_key)),
                    page_query(list.offset, list.limit, list.page_token@),
                    None,
                ),
            ),
    {
        let path = segments_path_text(namespace_text(&list.namespace_key));
        let params = page_params(list.offset, list.limit, list.page_token.as_str());
        self.client.dispatcher.get(path.as_str(), Some(params))
    }

    pub fn get(&self, get: &SegmentGetRequest) -> (r: Result<HttpRequest, Error>)
        ensures
            follows_plan(
                r,
                self.client.dispatcher.plan(
                    HttpMethod::Get,
                    segment_path(namespace_or_default(get.namespace_key), get.key@),
                    seq![],
                    None,
                ),
            ),
    {
        let path = segment_path_text(namespace_text(&get.namespace_key), get.key.as_str());
        self.client.dispatcher.get(path.as_str(), None)
    }

    pub fn create(&self, create: &SegmentCreateRequest) -> (r: Result<HttpRequest, Error>)
        ensures
            follows_plan(
                r,
                self.client.dispatcher.plan(
                    HttpMethod::Post,
                    segments_path(namespace_or_default(create.namespace_key)),
                    seq![],
                    Some(object_text(create.members())),
                ),
            ),
    {
        let path = segments_path_text(namespace_text(&create.namespace_key));
        self.client.dispatcher.post(path.as_str(), Some(create.to_json()))
    }

    pub fn delete(&self, delete: &SegmentDeleteRequest) -> (r: Result<HttpRequest, Error>)
        ensures
            follows_plan(
                r,
                self.client.dispatcher.plan(
                    HttpMethod::Delete,
                    segment_path(namespace_or_default(delete.namespace_key), delete.key@),
                    seq![],
                    None,
                ),
            ),
    {
        let path = segment_path_text(namespace_text(&delete.namespace_key), delete.key.as_str());
        self.client.dispatcher.delete(path.as_str(), None)
    }

    pub fn update(&self, update: &SegmentUpdateRequest) -> (r: Result<HttpRequest, Error>)
        ensures
            follows_plan(
                r,
                self.client.dispatcher.plan(
                    HttpMethod::Put,
                    segment_path(namespace_or_default(update.namespace_key), update.key@),
                    seq![],
                    Some(object_text(update.members())),
                ),
            ),
    {
        let path = segment_path_text(namespace_text(&update.namespace_key), update.key.as_str());
        self.client.dispatcher.put(path.as_str(), Some(update.to_json()))
    }
}

/// The reply to a deletion: an empty record.
#[derive(Debug, Clone)]
pub struct SegmentDeletion {}

#[derive(Debug, Default)]
pub struct SegmentGetRequest {
    pub namespace_key: Option<String>,
    pub key: String,
}

#[derive(Debug, Default)]
pub struct SegmentCreateRequest {
    /// Names the path; not sent in the body.
    pub namespace_key: Option<String>,
    pub key: String,
    pub match_type: Match,
    pub name: String,
    pub description: String,
}

impl SegmentCreateRequest {
    /// The members of the JSON body.
    pub open spec fn members(&self) -> Seq<Seq<char>> {
        seq![
            member("key"@, json_quoted(self.key@)),
            member("matchType"@, json_quoted(self.match_type.wire_name())),
            member("name"@, json_quoted(self.name@)),
            member("description"@, json_quoted(self.description@)),
        ]
    }

    pub fn to_json(&self) -> (r: String)
        ensures
            r@ == object_text(self.members()),
    {
        let mut o = JsonObject::new();
        o.string("key", self.key.as_str());
        o.string("matchType", self.match_type.wire_text());
        o.string("name", self.name.as_str());
        o.string("description", self.description.as_str());
        assert(o@ =~= self.members());
        o.finish()
    }
}

#[derive(Debug, Default)]
pub struct SegmentUpdateRequest {
    /// Names the path; not sent in the body.
    pub namespace_key: Option<String>,
    /// Names the path; not sent in the body.
    pub key: String,
    pub match_type: Match,
    pub name: String,
    pub description: String,
}

impl SegmentUpdateRequest {
    /// The members of the JSON body.
    pub open spec fn members(&self) -> Seq<Seq<char>> {
        seq![
            member("matchType"@, json_quoted(self.match_type.wire_name())),
            member("name"@, json_quoted(self.name@)),
            member("description"@, json_quoted(self.description@)),
        ]
    }

    pub fn to_json(&self) -> (r: String)
        ensures
            r@ == object_text(self.members()),
    {
        let mut o = JsonObject::new();
        o.string("matchType", self.match_type.wire_text());
        o.string("name", self.name.as_str());
        o.string("description", self.description.as_str());
        assert(o@ =~= self.members());
        o.finish()
    }
}

#[derive(Debug, Default)]
pub struct SegmentDeleteRequest {
    pub namespace_key: Option<String>,
    pub key: String,
}

/// A page request; the namespace names the path, the rest is the query.
#[derive(Debug)]
pub struct SegmentListRequest {
    pub namespace_key: Option<String>,
    pub offset: usize,
    pub limit: usize,
    pub page_token: String,
}

impl SegmentListRequest {
    /// The first page of the default namespace, of the default size.
    pub fn new() -> (r: Self)
        ensures
            r.namespace_key is None,
            r.offset == 0,
            r.limit == DEFAULT_LIMIT,
            r.page_token@.len() == 0,
    {
        SegmentListRequest {
            namespace_key: None,
            offset: 0,
            limit: DEFAULT_LIMIT,
            page_token: String::new(),
        }
    }
}

impl Default for SegmentListRequest {
    fn default() -> (r: Self)
        ensures
            r.namespace_key is None,
            r.offset == 0,
            r.limit == DEFAULT_LIMIT,
            r.page_token@.len() == 0,
    {
        SegmentListRequest::new()
    }
}

/// Whether a segment needs all of its constraints to hold, or any.
#[derive(Debug, Default, Clone, Copy, PartialEq, Eq, Structural)]
pub enum Match {
    #[default]
    All,
    Any,
}

impl Match {
    /// The name of the match type on the wire.
    pub open spec fn wire_name(self) -> Seq<char> {
        match self {
            Match::All => "ALL_MATCH_TYPE"@,
            Match::Any => "ANY_MATCH_TYPE"@,
        }
    }

    pub fn wire_text(self) -> (r: &'static str)
        ensures
            r@ == self.wire_name(),
    {
        match self {
            Match::All => "ALL_MATCH_TYPE",
            Match::Any => "ANY_MATCH_TYPE",
        }
    }
}

} // verus!
