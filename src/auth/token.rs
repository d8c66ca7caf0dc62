use crate::api::{page_params, page_query};
use crate::auth::{AuthClient, DEFAULT_LIMIT};
use crate::dispatch::{follows_plan, HttpMethod, HttpRequest};
use crate::error::Error;
use crate::timestamp::Timestamp;
use crate::json::{json_quoted, member, object_text, JsonObject};
use vstd::prelude::*;

verus! {

/// `/auth/v1/tokens/{id}`
pub open spec fn token_path(id: Seq<char>) -> Seq<char> {
    "/auth/v1/tokens/"@ + id
}

pub fn token_path_text(id: &str) -> (r: String)
    ensures
        r@ == token_path(id@),
{
    let mut p = String::from_str("/auth/v1/tokens/");
    p.append(id);
    p
}

/// Requests on static tokens.
pub struct TokenClient<'client> {
    pub client: &'client AuthClient,
}

impl<'client> TokenClient<'client> {
    pub fn new(client: &'client AuthClient) -> (r: Self)
        ensures
            r.client == client,
    {
        TokenClient { client }
    }

    /// A page of the authentications.
    pub fn list(&self, list: &TokenListRequest) -> (r: Result<HttpRequest, Error>)
        ensures
            follows_plan(
                r,
                self.client.dispatcher.plan(
                    HttpMethod::Get,
                    "/auth/v1/tokens"@,
                    page_query(list.offset, list.limit, list.page_token@),
                    None,
                ),
            ),
    {
        let params = page_params(list.offset, list.limit, list.page_token.as_str());
        self.client.dispatcher.get("/auth/v1/tokens", Some(params))
    }

    pub fn get(&self, id: &str) -> (r: Result<HttpRequest, Error>)
        ensures
            follows_plan(
                r,
                self.client.dispatcher.plan(HttpMethod::Get, token_path(id@), seq![], None),
            ),
    {
        let path = token_path_text(id);
        self.client.dispatcher.get(path.as_str(), None)
    }

    pub fn create(&self, create: &TokenCreateRequest) -> (r: Result<HttpRequest, Error>)
        ensures
            follows_plan(
                r,
                self.client.dispatcher.plan(
                    HttpMethod::Post,
                    "/auth/v1/method/token"@,
                    seq![],
                    Some(object_text(create.members())),
                ),
            ),
    {
        self.client.dispatcher.post("/auth/v1/method/token", Some(create.to_json()))
    }

    pub fn delete(&self, id: &str) -> (r: Result<HttpRequest, Error>)
        ensures
            follows_plan(
                r,
                self.client.dispatcher.plan(HttpMethod::Delete, token_path(id@), seq![], None),
            ),
    {
        let path = token_path_text(id);
        self.client.dispatcher.delete(path.as_str(), None)
    }
}

/// The reply to a deletion: an empty record.
#[derive(Debug, Clone)]
pub struct AuthenticationDeletion {}

/// A new static token.
#[derive(Debug, Default)]
pub struct TokenCreateRequest {
    pub name: String,
    pub description: String,
    /// The expiry, sent as RFC 3339 text; left out of the body where
    /// absent.
    pub expires_at: Option<Timestamp>,
    pub namespace_key: String,
}

impl TokenCreateRequest {
    /// The members of the JSON body.
    pub open spec fn members(&self) -> Seq<Seq<char>> {
        seq![
            member("name"@, json_quoted(self.name@)),
            member("description"@, json_quoted(self.description@)),
        ] + (match self.expires_at {
            Some(t) => seq![member("expires_at"@, json_quoted(t.rfc3339()))],
            None => seq![],
        }) + seq![member("namespace_key"@, json_quoted(self.namespace_key@))]
    }

    pub fn to_json(&self) -> (r: String)
        ensures
            r@ == object_text(self.members()),
    {
        let mut o = JsonObject::new();
        o.string("name", self.name.as_str());
        o.string("description", self.description.as_str());
        match &self.expires_at {
            Some(t) => o.string("expires_at", t.rfc3339_text()),
            None => {},
        }
        o.string("namespace_key", self.namespace_key.as_str());
        assert(o@ =~= self.members());
        o.finish()
    }
}

/// A page request, sent as the query.
#[derive(Debug)]
pub struct TokenListRequest {
    pub offset: usize,
    pub limit: usize,
    pub page_token: String,
}

impl Default for TokenListRequest {
    fn default() -> (r: Self)
        ensures
            r.offset == 0,
            r.limit == DEFAULT_LIMIT,
            r.page_token@.len() == 0,
    {
        TokenListRequest { offset: 0, limit: DEFAULT_LIMIT, page_token: String::new() }
    }
}

} // verus!
