use crate::api::flag::{flag_path, flag_path_text};
use crate::api::{namespace_or_default, namespace_text, ApiClient};
use crate::dispatch::{follows_plan, HttpMethod, HttpRequest};
use crate::error::Error;
use crate::json::{json_quoted, member, object_text, JsonObject};
use vstd::prelude::*;

verus! {

/// `/api/v1/namespaces/{ns}/flags/{flag}/variants`
pub open spec fn variants_path(ns: Seq<char>, flag: Seq<char>) -> Seq<char> {
    flag_path(ns, flag) + "/variants"@
}

/// `/api/v1/namespaces/{ns}/flags/{flag}/variants/{id}`
pub open spec fn variant_path(ns: Seq<char>, flag: Seq<char>, id: Seq<char>) -> Seq<char> {
    variants_path(ns, flag) + "/"@ + id
}

pub fn variants_path_text(ns: &str, flag: &str) -> (r: String)
    ensures
        r@ == variants_path(ns@, flag@),
{
    let mut p = flag_path_text(ns, flag);
    p.append("/variants");
    p
}

pub fn variant_path_text(ns: &str, flag: &str, id: &str) -> (r: String)
    ensures
        r@ == variant_path(ns@, flag@, id@),
{
    let mut p = variants_path_text(ns, flag);
    p.append("/");
    p.append(id);
    p
}

/// Requests on the variants of a flag.
pub struct VariantClient<'client> {
    pub client: &'client ApiClient,
}

impl<'client> VariantClient<'client> {
    pub fn new(client: &'client ApiClient) -> (r: Self)
        ensures
            r.client == client,
    {
        VariantClient { client }
    }

    pub fn create(&self, create: &VariantCreateRequest) -> (r: Result<HttpRequest, Error>)
        ensures
            follows_plan(
                r,
                self.client.dispatcher.plan(
                    HttpMethod::Post,
                    variants_path(namespace_or_default(create.namespace_key), create.flag_key@),
                    seq![],
                    Some(object_text(create.members())),
                ),
            ),
    {
        let path = variants_path_text(namespace_text(&create.namespace_key), create.flag_key.as_str());
        self.client.dispatcher.post(path.as_str(), Some(create.to_json()))
    }

    pub fn delete(&self, delete: &VariantDeleteRequest) -> (r: Result<HttpRequest, Error>)
        ensures
            follows_plan(
                r,
                self.client.dispatcher.plan(
                    HttpMethod::Delete,
                    variant_path(
                        namespace_or_default(delete.namespace_key),
                        delete.flag_key@,
                        delete.id@,
                    ),
                    seq![],
                    None,
                ),
            ),
    {
        let path = variant_path_text(
            namespace_text(&delete.namespace_key),
            delete.flag_key.as_str(),
            delete.id.as_str(),
        );
        self.client.dispatcher.delete(path.as_str(), None)
    }

    pub fn update(&self, update: &VariantUpdateRequest) -> (r: Result<HttpRequest, Error>)
        ensures
            follows_plan(
                r,
                self.client.dispatcher.plan(
                    HttpMethod::Put,
                    variant_path(
                        namespace_or_default(update.namespace_key),
                        update.flag_key@,
                        update.id@,
                    ),
                    seq![],
                    Some(object_text(update.members())),
                ),
            ),
    {
        let path = variant_path_text(
            namespace_text(&update.namespace_key),
            update.flag_key.as_str(),
            update.id.as_str(),
        );
        self.client.dispatcher.put(path.as_str(), Some(update.to_json()))
    }
}

#[derive(Debug, Default)]
pub struct VariantCreateRequest {
    /// Names the path; not sent in the body.
    pub namespace_key: Option<String>,
    /// Names the path; not sent in the body.
    pub flag_key: String,
    pub key: String,
    pub name: String,
    pub description: String,
    pub attachment: String,
}

#[derive(Debug, Default)]
pub struct VariantUpdateRequest {
    /// Names the path; not sent in the body.
    pub namespace_key: Option<String>,
    /// Names the path; not sent in the body.
    pub flag_key: String,
    /// Names the path; not sent in the body.
    pub id: String,
    pub key: String,
    pub name: String,
    pub description: String,
    pub attachment: String,
}

impl VariantCreateRequest {
    /// The members of the JSON body.
    pub open spec fn members(&self) -> Seq<Seq<char>> {
        seq![
            member("key"@, json_quoted(self.key@)),
            member("name"@, json_quoted(self.name@)),
            member("description"@, json_quoted(self.description@)),
            member("attachment"@, json_quoted(self.attachment@)),
        ]
    }

    pub fn to_json(&self) -> (r: String)
        ensures
            r@ == object_text(self.members()),
    {
        let mut o = JsonObject::new();
        o.string("key", self.key.as_str());
        o.string("name", self.name.as_str());
        o.string("description", self.description.as_str());
        o.string("attachment", self.attachment.as_str());
        assert(o@ =~= self.members());
        o.finish()
    }
}

impl VariantUpdateRequest {
    /// The members of the JSON body.
    pub open spec fn members(&self) -> Seq<Seq<char>> {
        seq![
            member("key"@, json_quoted(self.key@)),
            member("name"@, json_quoted(self.name@)),
            member("description"@, json_quoted(self.description@)),
            member("attachment"@, json_quoted(self.attachment@)),
        ]
    }

    pub fn to_json(&self) -> (r: String)
        ensures
            r@ == object_text(self.members()),
    {
        let mut o = JsonObject::new();
        o.string("key", self.key.as_str());
        o.string("name", self.name.as_str());
        o.string("description", self.description.as_str());
        o.string("attachment", self.attachment.as_str());
        assert(o@ =~= self.members());
        o.finish()
    }
}

#[derive(Debug, Default)]
pub struct VariantDeleteRequest {
    pub namespace_key: Option<String>,
    pub flag_key: String,
    pub id: String,
}

/// The reply to a deletion: an empty record.
#[derive(Debug, Clone)]
pub struct VariantDeletion {}

} // verus!
