use crate::api::{namespace_path, namespace_path_text, page_params, page_query, ApiClient, DEFAULT_LIMIT};
use crate::dispatch::{follows_plan, HttpMethod, HttpRequest};
use crate::error::Error;
use crate::json::{json_quoted, member, object_text, JsonObject};
use vstd::prelude::*;

verus! {

/// `/api/v1/namespaces`
pub open spec fn namespaces_path() -> Seq<char> {
    "/api/v1/namespaces"@
}

/// Requests on namespaces.
pub struct NamespaceClient<'client> {
    pub client: &'client ApiClient,
}

impl<'client> NamespaceClient<'client> {
    pub fn new(client: &'client ApiClient) -> (r: Self)
        ensures
            r.client == client,
    {
        NamespaceClient { client }
    }

    /// A page of the namespaces.
    pub fn list(&self, list: &NamespaceListRequest) -> (r: Result<HttpRequest, Error>)
        ensures
            follows_plan(
                r,
                self.client.dispatcher.plan(
                    HttpMethod::Get,
                    namespaces_path(),
                    page_query(list.offset, list.limit, list.page_token@),
                    None,
                ),
            ),
    {
        let params = page_params(list.offset, list.limit, list.page_token.as_str());
        self.client.dispatcher.get("/api/v1/namespaces", Some(params))
    }

    pub fn get(&self, get: &NamespaceGetRequest) -> (r: Result<HttpRequest, Error>)
        ensures
            follows_plan(
                r,
                self.client.dispatcher.plan(HttpMethod::Get, namespace_path(get.key@), seq![], None),
            ),
    {
        let path = namespace_path_text(get.key.as_str());
        self.client.dispatcher.get(path.as_str(), None)
    }

    pub fn create(&self, create: &NamespaceCreateRequest) -> (r: Result<HttpRequest, Error>)
        ensures
            follows_plan(
                r,
                self.client.dispatcher.plan(
                    HttpMethod::Post,
                    namespaces_path(),
                    seq![],
                    Some(object_text(create.members())),
                ),
            ),
    {
        self.client.dispatcher.post("/api/v1/namespaces", Some(create.to_json()))
    }

    pub fn delete(&self, delete: &NamespaceDeleteRequest) -> (r: Result<HttpRequest, Error>)
        ensures
            follows_plan(
                r,
                self.client.dispatcher.plan(
                    HttpMethod::Delete,
                    namespace_path(delete.key@),
                    seq![],
                    None,
                ),
            ),
    {
        let path = namespace_path_text(delete.key.as_str());
        self.client.dispatcher.delete(path.as_str(), None)
    }

    pub fn update(&self, update: &NamespaceUpdateRequest) -> (r: Result<HttpRequest, Error>)
        ensures
            follows_plan(
                r,
                self.client.dispatcher.plan(
                    HttpMethod::Put,
                    namespace_path(update.key@),
                    seq![],
                    Some(object_text(update.members())),
                ),
            ),
    {
        let path = namespace_path_text(update.key.as_str());
        self.client.dispatcher.put(path.as_str(), Some(update.to_json()))
    }
}

/// The reply to a deletion: an empty record.
#[derive(Debug, Clone)]
pub struct NamespaceDeletion {}

#[derive(Debug, Default)]
pub struct NamespaceGetRequest {
    pub key: String,
}

#[derive(Debug, Default)]
pub struct NamespaceCreateRequest {
    pub key: String,
    pub name: String,
    pub description: String,
}

impl NamespaceCreateRequest {
    /// The members of the JSON body.
    pub open spec fn members(&self) -> Seq<Seq<char>> {
        seq![
            member("key"@, json_quoted(self.key@)),
            member("name"@, json_quoted(self.name@)),
            member("description"@, json_quoted(self.description@)),
        ]
    }

    pub fn to_json(&self) -> (r: String)
        ensures
            r@ == object_text(self.members()),
    {
        let mut o = JsonObject::new();
        o.string("key", self.key.as_str());
        o.string("name", self.name.as_str());
        o.string("description", self.description.as_str());
        assert(o@ =~= self.members());
        o.finish()
    }
}

#[derive(Debug, Default)]
pub struct NamespaceUpdateRequest {
    /// Names the path; not sent in the body.
    pub key: String,
    pub name: String,
    pub description: String,
}

impl NamespaceUpdateRequest {
    /// The members of the JSON body.
    pub open spec fn members(&self) -> Seq<Seq<char>> {
        seq![
            member("name"@, json_quoted(self.name@)),
            member("description"@, json_quoted(self.description@)),
        ]
    }

    pub fn to_json(&self) -> (r: String)
        ensures
            r@ == object_text(self.members()),
    {
        let mut o = JsonObject::new();
        o.string("name", self.name.as_str());
        o.string("description", self.description.as_str());
        assert(o@ =~= self.members());
        o.finish()
    }
}

#[derive(Debug, Default)]
pub struct NamespaceDeleteRequest {
    pub key: String,
}

/// A page request, sent as the query.
#[derive(Debug)]
pub struct NamespaceListRequest {
    pub offset: usize,
    pub limit: usize,
    pub page_token: String,
}

impl NamespaceListRequest {
    /// The first page, of the default size.
    pub fn new() -> (r: Self)
        ensures
            r.offset == 0,
            r.limit == DEFAULT_LIMIT,
            r.page_token@.len() == 0,
    {
        NamespaceListRequest { offset: 0, limit: DEFAULT_LIMIT, page_token: String::new() }
    }
}

impl Default for NamespaceListRequest {
    fn default() -> (r: Self)
        ensures
            r.offset == 0,
            r.limit == DEFAULT_LIMIT,
            r.page_token@.len() == 0,
    {
        NamespaceListRequest::new()
    }
}

} // verus!
