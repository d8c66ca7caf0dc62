use crate::api::flag::{flag_path, flag_path_text};
use crate::api::{
    namespace_or_default, namespace_text, page_params, page_query, ApiClient, DEFAULT_LIMIT,
};
use crate::dispatch::{follows_plan, pairs_view, HttpMethod, HttpRequest};
use crate::error::Error;
use crate::json::{
    array_text, decimal, json_quoted, member, object_text, quoted_all, string_array, JsonObject,
};
use vstd::prelude::*;

verus! {

/// `/api/v1/namespaces/{ns}/flags/{flag}/rules`
pub open spec fn rules_path(ns: Seq<char>, flag: Seq<char>) -> Seq<char> {
    flag_path(ns, flag) + "/rules"@
}

/// `/api/v1/namespaces/{ns}/flags/{flag}/rules/{id}`
pub open spec fn rule_path(ns: Seq<char>, flag: Seq<char>, id: Seq<char>) -> Seq<char> {
    rules_path(ns, flag) + "/"@ + id
}

pub fn rules_path_text(ns: &str, flag: &str) -> (r: String)
    ensures
        r@ == rules_path(ns@, flag@),
{
    let mut p = flag_path_text(ns, flag);
    p.append("/rules");
    p
}

pub fn rule_path_text(ns: &str, flag: &str, id: &str) -> (r: String)
    ensures
        r@ == rule_path(ns@, flag@, id@),
{
    let mut p = rules_path_text(ns, flag);
    p.append("/");
    p.append(id);
    p
}

/// The members that name the segments of a rule or rollout; each is left
/// out where absent.
pub open spec fn segment_members(
    key: Option<String>,
    keys: Option<Vec<String>>,
    operator: Option<SegmentOperator>,
) -> Seq<Seq<char>> {
    (match key {
        Some(k) => seq![member("segmentKey"@, json_quoted(k@))],
        None => seq![],
    }) + (match keys {
        Some(ks) => seq![member("segmentKeys"@, array_text(quoted_all(ks@)))],
        None => seq![],
    }) + (match operator {
        Some(o) => seq![member("segmentOperator"@, json_quoted(o.wire_name()))],
        None => seq![],
    })
}

pub(crate) fn add_segment_members(
    o: &mut JsonObject,
    key: &Option<String>,
    keys: &Option<Vec<String>>,
    operator: &Option<SegmentOperator>,
)
    requires
        old(o).wf(),
    ensures
        final(o).wf(),
        final(o)@ == old(o)@ + segment_members(*key, *keys, *operator),
{
    let ghost start = o@;
    match key {
        Some(k) => o.string("segmentKey", k.as_str()),
        None => {},
    }
    match keys {
        Some(ks) => {
            let t = string_array(ks);
            o.raw("segmentKeys", t.as_str());
        },
        None => {},
    }
    match operator {
        Some(op) => o.string("segmentOperator", op.wire_text()),
        None => {},
    }
    assert(o@ =~= start + segment_members(*key, *keys, *operator));
}

/// Requests on the rules of a flag.
pub struct RuleClient<'client> {
    pub client: &'client ApiClient,
}

impl<'client> RuleClient<'client> {
    pub fn new(client: &'client ApiClient) -> (r: Self)
        ensures
            r.client == client,
    {
        RuleClient { client }
    }

    /// A page of the rules of the flag.
    pub fn list(&self, list: &RuleListRequest) -> (r: Result<HttpRequest, Error>)
        ensures
            follows_plan(
                r,
                self.client.dispatcher.plan(
                    HttpMethod::Get,
                    rules_path(namespace_or_default(list.namespace_key), list.flag_key@),
                    list.query(),
                    None,
                ),
            ),
    {
        let path = rules_path_text(namespace_text(&list.namespace_key), list.flag_key.as_str());
        self.client.dispatcher.get(path.as_str(), Some(list.params()))
    }

    pub fn create(&self, create: &RuleCreateRequest) -> (r: Result<HttpRequest, Error>)
        ensures
            follows_plan(
                r,
                self.client.dispatcher.plan(
                    HttpMethod::Post,
                    rules_path(namespace_or_default(create.namespace_key), create.flag_key@),
                    seq![],
                    Some(object_text(create.members())),
                ),
            ),
    {
        let path = rules_path_text(namespace_text(&create.namespace_key), create.flag_key.as_str());
        self.client.dispatcher.post(path.as_str(), Some(create.to_json()))
    }

    pub fn delete(&self, delete: &RuleDeleteRequest) -> (r: Result<HttpRequest, Error>)
        ensures
            follows_plan(
                r,
                self.client.dispatcher.plan(
                    HttpMethod::Delete,
                    rule_path(namespace_or_default(delete.namespace_key), delete.flag_key@, delete.id@),
                    seq![],
                    None,
                ),
            ),
    {
        let path = rule_path_text(
            namespace_text(&delete.namespace_key),
            delete.flag_key.as_str(),
            delete.id.as_str(),
        );
        self.client.dispatcher.delete(path.as_str(), None)
    }

    pub fn get(&self, get: &RuleGetRequest) -> (r: Result<HttpRequest, Error>)
        ensures
            follows_plan(
                r,
                self.client.dispatcher.plan(
                    HttpMethod::Get,
                    rule_path(namespace_or_default(get.namespace_key), get.flag_key@, get.id@),
                    seq![],
                    None,
                ),
            ),
    {
        let path = rule_path_text(
            namespace_text(&get.namespace_key),
            get.flag_key.as_str(),
            get.id.as_str(),
        );
        self.client.dispatcher.get(path.as_str(), None)
    }

    pub fn update(&self, update: &RuleUpdateRequest) -> (r: Result<HttpRequest, Error>)
        ensures
            follows_plan(
                r,
                self.client.dispatcher.plan(
                    HttpMethod::Put,
                    rule_path(namespace_or_default(update.namespace_key), update.flag_key@, update.id@),
                    seq![],
                    Some(object_text(update.members())),
                ),
            ),
    {
        let path = rule_path_text(
            namespace_text(&update.namespace_key),
            update.flag_key.as_str(),
            update.id.as_str(),
        );
        self.client.dispatcher.put(path.as_str(), Some(update.to_json()))
    }
}

#[derive(Debug, Default)]
pub struct RuleGetRequest {
    pub namespace_key: Option<String>,
    pub flag_key: String,
    pub id: String,
}

#[derive(Debug, Default)]
pub struct RuleCreateRequest {
    /// Names the path; not sent in the body.
    pub namespace_key: Option<String>,
    /// Names the path; not sent in the body.
    pub flag_key: String,
    pub segment_key: Option<String>,
    pub segment_keys: Option<Vec<String>>,
    pub segment_operator: Option<SegmentOperator>,
    pub rank: usize,
}

impl RuleCreateRequest {
    /// The members of the JSON body.
    pub open spec fn members(&self) -> Seq<Seq<char>> {
        segment_members(self.segment_key, self.segment_keys, self.segment_operator) + seq![
            member("rank"@, decimal(self.rank as nat)),
        ]
    }

    pub fn to_json(&self) -> (r: String)
        ensures
            r@ == object_text(self.members()),
    {
        let mut o = JsonObject::new();
        add_segment_members(&mut o, &self.segment_key, &self.segment_keys, &self.segment_operator);
        o.number("rank", self.rank as u64);
        assert(o@ =~= self.members());
        o.finish()
    }
}

/// How the segments of a rule or rollout combine.
#[derive(Debug, Default, Clone, Copy, PartialEq, Eq, Structural)]
pub enum SegmentOperator {
    #[default]
    Or,
    And,
}

impl SegmentOperator {
    /// The name of the operator on the wire.
    pub open spec fn wire_name(self) -> Seq<char> {
        match self {
            SegmentOperator::Or => "OR_SEGMENT_OPERATOR"@,
            SegmentOperator::And => "AND_SEGMENT_OPERATOR"@,
        }
    }

    pub fn wire_text(self) -> (r: &'static str)
        ensures
            r@ == self.wire_name(),
    {
        match self {
            SegmentOperator::Or => "OR_SEGMENT_OPERATOR",
            SegmentOperator::And => "AND_SEGMENT_OPERATOR",
        }
    }
}

#[derive(Debug, Default)]
pub struct RuleUpdateRequest {
    /// Names the path; not sent in the body.
    pub namespace_key: Option<String>,
    /// Names the path; not sent in the body.
    pub flag_key: String,
    /// Names the path; not sent in the body.
    pub id: String,
    pub segment_key: Option<String>,
    pub segment_keys: Option<Vec<String>>,
    pub segment_operator: Option<SegmentOperator>,
    pub rank: u32,
}

impl RuleUpdateRequest {
    /// The members of the JSON body.
    pub open spec fn members(&self) -> Seq<Seq<char>> {
        segment_members(self.segment_key, self.segment_keys, self.segment_operator) + seq![
            member("rank"@, decimal(self.rank as nat)),
        ]
    }

    pub fn to_json(&self) -> (r: String)
        ensures
            r@ == object_text(self.members()),
    {
        let mut o = JsonObject::new();
        add_segment_members(&mut o, &self.segment_key, &self.segment_keys, &self.segment_operator);
        o.number("rank", self.rank as u64);
        assert(o@ =~= self.members());
        o.finish()
    }
}

#[derive(Debug, Default)]
pub struct RuleDeleteRequest {
    pub namespace_key: Option<String>,
    pub flag_key: String,
    pub id: String,
}

/// The reply to a deletion: an empty record.
#[derive(Debug, Clone)]
pub struct RuleDeletion {}

/// A page request; the namespace and the flag name the path, and the
/// offset, limit and token make the query.
#[derive(Debug)]
pub struct RuleListRequest {
    pub namespace_key: Option<String>,
    pub flag_key: String,
    pub offset: usize,
    pub limit: usize,
    pub page_token: String,
}

impl RuleListRequest {
    /// The first page, of the default size, of the default namespace.
    pub fn new() -> (r: Self)
        ensures
            r.namespace_key is None,
            r.flag_key@.len() == 0,
            r.offset == 0,
            r.limit == DEFAULT_LIMIT,
            r.page_token@.len() == 0,
    {
        RuleListRequest {
            namespace_key: None,
            flag_key: String::new(),
            offset: 0,
            limit: DEFAULT_LIMIT,
            page_token: String::new(),
        }
    }

    /// The query of the request.
    pub open spec fn query(&self) -> Seq<(Seq<char>, Seq<char>)> {
        page_query(self.offset, self.limit, self.page_token@)
    }

    pub fn params(&self) -> (r: Vec<(String, String)>)
        ensures
            pairs_view(r@) == self.query(),
    {
        page_params(self.offset, self.limit, self.page_token.as_str())
    }
}

impl Default for RuleListRequest {
    fn default() -> (r: Self)
        ensures
            r.namespace_key is None,
            r.flag_key@.len() == 0,
            r.offset == 0,
            r.limit == DEFAULT_LIMIT,
            r.page_token@.len() == 0,
    {
        RuleListRequest::new()
    }
}

} // verus!
