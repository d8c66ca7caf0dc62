//! The main API surface: flags, variants, segments, constraints, rules,
//! distributions, rollouts, namespaces and evaluation, under `/api/v1`.
pub mod constraint;
pub mod distribution;
pub mod evaluation;
pub mod flag;
pub mod namespace;
pub mod rollout;
pub mod rule;
pub mod segment;
pub mod variant;

use crate::dispatch::{pairs_view, Config, Dispatcher};
use crate::json::{decimal, decimal_text};
use vstd::prelude::*;

verus! {

/// The page size of a list request that names none.
pub const DEFAULT_LIMIT: usize = 100;

/// The namespace of a request that names none.
pub const DEFAULT_NAMESPACE: &'static str = "default";

pub open spec fn namespace_or_default(ns: Option<String>) -> Seq<char> {
    match ns {
        Some(n) => n@,
        None => DEFAULT_NAMESPACE@,
    }
}

/// The namespace that a request names, or the default one.
pub fn namespace_text(ns: &Option<String>) -> (r: &str)
    ensures
        r@ == namespace_or_default(*ns),
{
    match ns {
        Some(n) => n.as_str(),
        None => DEFAULT_NAMESPACE,
    }
}

/// `/api/v1/namespaces/{ns}`
pub open spec fn namespace_path(ns: Seq<char>) -> Seq<char> {
    "/api/v1/namespaces/"@ + ns
}

pub fn namespace_path_text(ns: &str) -> (r: String)
    ensures
        r@ == namespace_path(ns@),
{
    let mut p = String::from_str("/api/v1/namespaces/");
    p.append(ns);
    p
}

/// The query of a page of a list: offset, limit and continuation token.
pub open spec fn page_query(offset: usize, limit: usize, token: Seq<char>) -> Seq<
    (Seq<char>, Seq<char>),
> {
    seq![
        ("offset"@, decimal(offset as nat)),
        ("limit"@, decimal(limit as nat)),
        ("pageToken"@, token),
    ]
}

pub fn page_params(offset: usize, limit: usize, token: &str) -> (r: Vec<(String, String)>)
    ensures
        pairs_view(r@) == page_query(offset, limit, token@),
{
    let mut r: Vec<(String, String)> = Vec::new();
    r.push((String::from_str("offset"), decimal_text(offset as u64)));
    r.push((String::from_str("limit"), decimal_text(limit as u64)));
    r.push((String::from_str("pageToken"), String::from_str(token)));
    assert(pairs_view(r@) =~= page_query(offset, limit, token@));
    r
}

/// Client of the main API surface.
#[derive(Debug)]
pub struct ApiClient {
    pub dispatcher: Dispatcher,
}

impl ApiClient {
    pub fn new(config: Config) -> (r: ApiClient)
        ensures
            r.dispatcher.base() == config.endpoint(),
            r.dispatcher.auth() == config.auth_scheme(),
            r.dispatcher.agent() == config.user_agent(),
    {
        ApiClient { dispatcher: Dispatcher::new(config) }
    }

    pub fn flags(&self) -> (r: flag::FlagClient<'_>)
        ensures
            r.client == self,
    {
        flag::FlagClient::new(self)
    }

    pub fn variants(&self) -> (r: variant::VariantClient<'_>)
        ensures
            r.client == self,
    {
        variant::VariantClient::new(self)
    }

    pub fn segments(&self) -> (r: segment::SegmentClient<'_>)
        ensures
            r.client == self,
    {
        segment::SegmentClient::new(self)
    }

    pub fn constraints(&self) -> (r: constraint::ConstraintClient<'_>)
        ensures
            r.client == self,
    {
        constraint::ConstraintClient::new(self)
    }

    pub fn distributions(&self) -> (r: distribution::DistributionClient<'_>)
        ensures
            r.client == self,
    {
        distribution::DistributionClient::new(self)
    }

    pub fn rollouts(&self) -> (r: rollout::RolloutClient<'_>)
        ensures
            r.client == self,
    {
        rollout::RolloutClient::new(self)
    }

    pub fn rules(&self) -> (r: rule::RuleClient<'_>)
        ensures
            r.client == self,
    {
        rule::RuleClient::new(self)
    }

    pub fn evaluation(&self) -> (r: evaluation::EvaluationClient<'_>)
        ensures
            r.client == self,
    {
        evaluation::EvaluationClient::new(self)
    }

    pub fn namespaces(&self) -> (r: namespace::NamespaceClient<'_>)
        ensures
            r.client == self,
    {
        namespace::NamespaceClient::new(self)
    }
}

} // verus!
