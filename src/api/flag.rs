use crate::api::{
    namespace_or_default, namespace_path, namespace_path_text, namespace_text, page_params,
    page_query, ApiClient, DEFAULT_LIMIT,
};
use crate::dispatch::{follows_plan, HttpMethod, HttpRequest};
use crate::error::Error;
use crate::json::{bool_text, json_quoted, member, object_text, JsonObject};
use vstd::prelude::*;

verus! {

/// `/api/v1/namespaces/{ns}/flags`
pub open spec fn flags_path(ns: Seq<char>) -> Seq<char> {
    namespace_path(ns) + "/flags"@
}

/// `/api/v1/namespaces/{ns}/flags/{key}`
pub open spec fn flag_path(ns: Seq<char>, key: Seq<char>) -> Seq<char> {
    flags_path(ns) + "/"@ + key
}

pub fn flags_path_text(ns: &str) -> (r: String)
    ensures
        r@ == flags_path(ns@),
{
    let mut p = namespace_path_text(ns);
    p.append("/flags");
    p
}

pub fn flag_path_text(ns: &str, key: &str) -> (r: String)
    ensures
        r@ == flag_path(ns@, key@),
{
    let mut p = flags_path_text(ns);
    p.append("/");
    p.append(key);
    p
}

/// Requests on the flags of a namespace.
pub struct FlagClient<'client> {
    pub client: &'client ApiClient,
}

impl<'client> FlagClient<'client> {
    pub fn new(client: &'client ApiClient) -> (r: Self)
        ensures
            r.client == client,
    {
        FlagClient { client }
    }

    /// A page of the flags of the namespace.
    pub fn list(&self, list: &FlagListRequest) -> (r: Result<HttpRequest, Error>)
        ensures
            follows_plan(
                r,
                self.client.dispatcher.plan(
                    HttpMethod::Get,
                    flags_path(namespace_or_default(list.namespace_key)),
                    page_query(list.offset, list.limit, list.page_token@),
                    None,
                ),
            ),
    {
        let path = flags_path_text(namespace_text(&list.namespace_key));
        let params = page_params(list.offset, list.limit, list.page_token.as_str());
        self.client.dispatcher.get(path.as_str(), Some(params))
    }

    pub fn get(&self, get: &FlagGetRequest) -> (r: Result<HttpRequest, Error>)
        ensures
            follows_plan(
                r,
                self.client.dispatcher.plan(
                    HttpMethod::Get,
                    flag_path(namespace_or_default(get.namespace_key), get.key@),
                    seq![],
                    None,
                ),
            ),
    {
        let path = flag_path_text(namespace_text(&get.namespace_key), get.key.as_str());
        self.client.dispatcher.get(path.as_str(), None)
    }

    pub fn create(&self, create: &FlagCreateRequest) -> (r: Result<HttpRequest, Error>)
        ensures
            follows_plan(
                r,
                self.client.dispatcher.plan(
                    HttpMethod::Post,
                    flags_path(namespace_or_default(create.namespace_key)),
                    seq![],
                    Some(object_text(create.members())),
                ),
            ),
    {
        let path = flags_path_text(namespace_text(&create.namespace_key));
        self.client.dispatcher.post(path.as_str(), Some(create.to_json()))
    }

    pub fn delete(&self, delete: &FlagDeleteRequest) -> (r: Result<HttpRequest, Error>)
        ensures
            follows_plan(
                r,
                self.client.dispatcher.plan(
                    HttpMethod::Delete,
                    flag_path(namespace_or_default(delete.namespace_key), delete.key@),
                    seq![],
                    None,
                ),
            ),
    {
        let path = flag_path_text(namespace_text(&delete.namespace_key), delete.key.as_str());
        self.client.dispatcher.delete(path.as_str(), None)
    }

    pub fn update(&self, update: &FlagUpdateRequest) -> (r: Result<HttpRequest, Error>)
        ensures
            follows_plan(
                r,
                self.client.dispatcher.plan(
                    HttpMethod::Put,
                    flag_path(namespace_or_default(update.namespace_key), update.key@),
                    seq![],
                    Some(object_text(update.members())),
                ),
            ),
    {
        let path = flag_path_text(namespace_text(&update.namespace_key), update.key.as_str());
        self.client.dispatcher.put(path.as_str(), Some(update.to_json()))
    }
}

/// The reply to a deletion: an empty record.
#[derive(Debug, Clone)]
pub struct FlagDeletion {}

#[derive(Debug, Default)]
pub struct FlagGetRequest {
    pub namespace_key: Option<String>,
    pub key: String,
}

#[derive(Debug, Default)]
pub struct FlagCreateRequest {
    /// Names the path; not sent in the body.
    pub namespace_key: Option<String>,
    pub key: String,
    pub name: String,
    pub description: String,
    pub enabled: bool,
    /// Sent as `type`, and left out where absent.
    pub flag_type: Option<FlagType>,
}

impl FlagCreateRequest {
    /// The members of the JSON body.
    pub open spec fn members(&self) -> Seq<Seq<char>> {
        seq![
            member("key"@, json_quoted(self.key@)),
            member("name"@, json_quoted(self.name@)),
            member("description"@, json_quoted(self.description@)),
            member("enabled"@, bool_text(self.enabled)),
        ] + match self.flag_type {
            Some(t) => seq![member("type"@, json_quoted(t.wire_name()))],
            None => seq![],
        }
    }

    pub fn to_json(&self) -> (r: String)
        ensures
            r@ == object_text(self.members()),
    {
        let mut o = JsonObject::new();
        o.string("key", self.key.as_str());
        o.string("name", self.name.as_str());
        o.string("description", self.description.as_str());
        o.boolean("enabled", self.enabled);
        match self.flag_type {
            Some(t) => o.string("type", t.wire_text()),
            None => {},
        }
        assert(o@ =~= self.members());
        o.finish()
    }
}

#[derive(Debug, Default)]
pub struct FlagUpdateRequest {
    /// Names the path; not sent in the body.
    pub namespace_key: Option<String>,
    /// Names the path; not sent in the body.
    pub key: String,
    pub name: String,
    pub description: String,
    pub enabled: bool,
}

impl FlagUpdateRequest {
    /// The members of the JSON body.
    pub open spec fn members(&self) -> Seq<Seq<char>> {
        seq![
            member("name"@, json_quoted(self.name@)),
            member("description"@, json_quoted(self.description@)),
            member("enabled"@, bool_text(self.enabled)),
        ]
    }

    pub fn to_json(&self) -> (r: String)
        ensures
            r@ == object_text(self.members()),
    {
        let mut o = JsonObject::new();
        o.string("name", self.name.as_str());
        o.string("description", self.description.as_str());
        o.boolean("enabled", self.enabled);
        assert(o@ =~= self.members());
        o.finish()
    }
}

#[derive(Debug, Default)]
pub struct FlagDeleteRequest {
    pub namespace_key: Option<String>,
    pub key: String,
}

/// A page request; the namespace names the path, the rest is the query.
#[derive(Debug)]
pub struct FlagListRequest {
    pub namespace_key: Option<String>,
    pub offset: usize,
    pub limit: usize,
    pub page_token: String,
}

impl FlagListRequest {
    /// The first page of the default namespace, of the default size.
    pub fn new() -> (r: Self)
        ensures
            r.namespace_key is None,
            r.offset == 0,
            r.limit == DEFAULT_LIMIT,
            r.page_token@.len() == 0,
    {
        FlagListRequest { namespace_key: None, offset: 0, limit: DEFAULT_LIMIT, page_token: String::new() }
    }
}

impl Default for FlagListRequest {
    fn default() -> (r: Self)
        ensures
            r.namespace_key is None,
            r.offset == 0,
            r.limit == DEFAULT_LIMIT,
            r.page_token@.len() == 0,
    {
        FlagListRequest::new()
    }
}

#[derive(Debug, Default, Clone, Copy, PartialEq, Eq, Structural)]
pub enum FlagType {
    #[default]
    Variant,
    Boolean,
}

impl FlagType {
    /// The name of the type on the wire.
    pub open spec fn wire_name(self) -> Seq<char> {
        match self {
            FlagType::Variant => "VARIANT_FLAG_TYPE"@,
            FlagType::Boolean => "BOOLEAN_FLAG_TYPE"@,
        }
    }

    pub fn wire_text(self) -> (r: &'static str)
        ensures
            r@ == self.wire_name(),
    {
        match self {
            FlagType::Variant => "VARIANT_FLAG_TYPE",
            FlagType::Boolean => "BOOLEAN_FLAG_TYPE",
        }
    }
}

} // verus!
