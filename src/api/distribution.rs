use crate::api::rule::{rule_path, rule_path_text};
use crate::api::{namespace_or_default, namespace_text, ApiClient};
use crate::dispatch::{follows_plan, HttpMethod, HttpRequest};
use crate::error::Error;
use vstd::prelude::*;

verus! {

/// `/api/v1/namespaces/{ns}/flags/{flag}/rules/{rule}/distributions`
pub open spec fn distributions_path(ns: Seq<char>, flag: Seq<char>, rule: Seq<char>) -> Seq<char> {
    rule_path(ns, flag, rule) + "/distributions"@
}

/// `/api/v1/namespaces/{ns}/flags/{flag}/rules/{rule}/distributions/{id}`
pub open spec fn distribution_path(
    ns: Seq<char>,
    flag: Seq<char>,
    rule: Seq<char>,
    id: Seq<char>,
) -> Seq<char> {
    distributions_path(ns, flag, rule) + "/"@ + id
}

/// The path on which distributions of a rule are created.
pub fn distributions_path_text(ns: &str, flag: &str, rule: &str) -> (r: String)
    ensures
        r@ == distributions_path(ns@, flag@, rule@),
{
    let mut p = rule_path_text(ns, flag, rule);
    p.append("/distributions");
    p
}

/// The path of one distribution of a rule.
pub fn distribution_path_text(ns: &str, flag: &str, rule: &str, id: &str) -> (r: String)
    ensures
        r@ == distribution_path(ns@, flag@, rule@, id@),
{
    let mut p = distributions_path_text(ns, flag, rule);
    p.append("/");
    p.append(id);
    p
}

/// Requests on the distributions of a rule.
pub struct DistributionClient<'client> {
    pub client: &'client ApiClient,
}

impl<'client> DistributionClient<'client> {
    pub fn new(client: &'client ApiClient) -> (r: Self)
        ensures
            r.client == client,
    {
        DistributionClient { client }
    }

    pub fn delete(&self, delete: &DistributionDeleteRequest) -> (r: Result<HttpRequest, Error>)
        ensures
            follows_plan(
                r,
                self.client.dispatcher.plan(
                    HttpMethod::Delete,
                    distribution_path(
                        namespace_or_default(delete.namespace_key),
                        delete.flag_key@,
                        delete.rule_id@,
                        delete.id@,
                    ),
                    seq![],
                    None,
                ),
            ),
    {
        let path = distribution_path_text(
            namespace_text(&delete.namespace_key),
            delete.flag_key.as_str(),
            delete.rule_id.as_str(),
            delete.id.as_str(),
        );
        self.client.dispatcher.delete(path.as_str(), None)
    }
}

#[derive(Debug, Default)]
pub struct DistributionDeleteRequest {
    pub namespace_key: Option<String>,
    pub flag_key: String,
    pub rule_id: String,
    pub id: String,
}

/// The reply to a deletion: an empty record.
#[derive(Debug, Clone)]
pub struct DistributionDeletion {}

} // verus!
