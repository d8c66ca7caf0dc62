use crate::error::Error;
use vstd::prelude::*;

verus! {

#[verifier::external_type_specification]
#[verifier::external_body]
pub struct ExParseError(url::ParseError);

/// The serialization of the URL that `url::Url::parse` makes of `s`, or
/// `None` where it refuses `s`.
pub uninterp spec fn parsed_url(s: Seq<char>) -> Option<Seq<char>>;

/// The serialization of the URL that `url::Url::join` makes of `path`
/// against the URL parsed from `base`, or `None` where either step fails.
pub uninterp spec fn joined_url(base: Seq<char>, path: Seq<char>) -> Option<Seq<char>>;

/// Relies on url::Url::parse: `Ok` exactly where it accepts `s`, holding the
/// serialization (`String::from`) of the URL it makes.
#[verifier::external_body]
fn parse_url(s: &str) -> (r: Result<String, url::ParseError>)
    ensures
        r is Ok <==> parsed_url(s@) is Some,
        r matches Ok(t) ==> t@ == parsed_url(s@)->0,
{
    url::Url::parse(s).map(String::from)
}

/// Relies on url::Url::join of `path` against `base`, the base first read
/// back into a URL by url::Url::parse: `Ok` exactly where both accept,
/// holding the serialization (`String::from`) of the joined URL.
#[verifier::external_body]
fn join_url(base: &str, path: &str) -> (r: Result<String, url::ParseError>)
    ensures
        r is Ok <==> joined_url(base@, path@) is Some,
        r matches Ok(t) ==> t@ == joined_url(base@, path@)->0,
{
    url::Url::parse(base).and_then(|b| b.join(path)).map(String::from)
}

/// Relies on the `Display` of url::ParseError, for the error's message.
#[verifier::external_body]
fn parse_error_message(e: &url::ParseError) -> String {
    e.to_string()
}

/// An absolute base URL, held as its serialization.
#[derive(Debug, Clone)]
pub struct Endpoint {
    text: String,
}

impl View for Endpoint {
    type V = Seq<char>;

    closed spec fn view(&self) -> Seq<char> {
        self.text@
    }
}

impl Endpoint {
    /// Parses `s` as an absolute URL.
    pub fn parse(s: &str) -> (r: Result<Endpoint, Error>)
        ensures
            r is Ok <==> parsed_url(s@) is Some,
            r matches Ok(e) ==> e@ == parsed_url(s@)->0,
            r matches Err(e) ==> e is Internal,
    {
        match parse_url(s) {
            Ok(t) => Ok(Endpoint { text: t }),
            Err(e) => Err(Error::Internal(parse_error_message(&e))),
        }
    }

    /// Resolves `path` against this endpoint.
    pub fn join(&self, path: &str) -> (r: Result<String, Error>)
        ensures
            r is Ok <==> joined_url(self@, path@) is Some,
            r matches Ok(u) ==> u@ == joined_url(self@, path@)->0,
            r matches Err(e) ==> e is Internal,
    {
        match join_url(self.text.as_str(), path) {
            Ok(u) => Ok(u),
            Err(e) => Err(Error::Internal(parse_error_message(&e))),
        }
    }
}


/// The endpoint of a service on the local machine, as `url` serializes it.
pub const LOCAL_ENDPOINT: &'static str = "http://localhost:8080/";

impl Default for Endpoint {
    /// The service on the local machine, port 8080.
    fn default() -> (r: Endpoint)
        ensures
            r@ == LOCAL_ENDPOINT@,
    {
        Endpoint { text: String::from_str(LOCAL_ENDPOINT) }
    }
}

/// The name the library gives itself in the `User-Agent` header.
pub const DEFAULT_USER_AGENT: &'static str = "flipt-rust/0.1.0";

/// How each request authenticates.
#[derive(Debug, Clone)]
pub enum AuthScheme {
    NoAuth,
    /// Sent as `Authorization: Bearer <token>`.
    BearerToken(String),
}

impl AuthScheme {
    /// The scheme for a configured token: none where the token is empty.
    pub fn from_token(token: String) -> (r: AuthScheme)
        ensures
            token@.len() == 0 ==> r is NoAuth,
            token@.len() > 0 ==> r == AuthScheme::BearerToken(token),
    {
        if token.as_str().is_empty() {
            AuthScheme::NoAuth
        } else {
            AuthScheme::BearerToken(token)
        }
    }
}

impl Default for AuthScheme {
    fn default() -> (r: AuthScheme)
        ensures
            r is NoAuth,
    {
        AuthScheme::NoAuth
    }
}

/// Immutable settings shared by every client: base endpoint, authentication
/// and user agent.
#[derive(Debug, Clone)]
pub struct Config {
    endpoint: Endpoint,
    auth_scheme: AuthScheme,
    user_agent: String,
}

impl Config {
    pub closed spec fn endpoint(&self) -> Seq<char> {
        self.endpoint@
    }

    pub closed spec fn auth_scheme(&self) -> AuthScheme {
        self.auth_scheme
    }

    pub closed spec fn user_agent(&self) -> Seq<char> {
        self.user_agent@
    }

    pub fn new(endpoint: Endpoint, auth_scheme: AuthScheme) -> (r: Config)
        ensures
            r.endpoint() == endpoint@,
            r.auth_scheme() == auth_scheme,
            r.user_agent() == DEFAULT_USER_AGENT@,
    {
        Config { endpoint, auth_scheme, user_agent: String::from_str(DEFAULT_USER_AGENT) }
    }

    /// Settings read from the values of the configuration variables: the
    /// endpoint (absent reads as empty), the token (empty or absent means
    /// no authentication) and the user agent (absent means the default).
    pub fn from_values(endpoint: &str, token: Option<String>, user_agent: Option<String>) -> (r:
        Result<Config, Error>)
        ensures
            r is Ok <==> parsed_url(endpoint@) is Some,
            r matches Err(e) ==> e is Internal,
            r matches Ok(c) ==> {
                &&& c.endpoint() == parsed_url(endpoint@)->0
                &&& c.auth_scheme() == match token {
                    Some(t) => if t@.len() == 0 {
                        AuthScheme::NoAuth
                    } else {
                        AuthScheme::BearerToken(t)
                    },
                    None => AuthScheme::NoAuth,
                }
                &&& c.user_agent() == match user_agent {
                    Some(u) => u@,
                    None => DEFAULT_USER_AGENT@,
                }
            },
    {
        let endpoint = match Endpoint::parse(endpoint) {
            Ok(e) => e,
            Err(e) => return Err(e),
        };
        let auth_scheme = match token {
            Some(t) => AuthScheme::from_token(t),
            None => AuthScheme::NoAuth,
        };
        let user_agent = match user_agent {
            Some(u) => u,
            None => String::from_str(DEFAULT_USER_AGENT),
        };
        Ok(Config { endpoint, auth_scheme, user_agent })
    }

    /// The user agent to send in place of the default.
    pub fn set_user_agent(self, v: &str) -> (r: Config)
        ensures
            r.endpoint() == self.endpoint(),
            r.auth_scheme() == self.auth_scheme(),
            r.user_agent() == v@,
    {
        Config { user_agent: String::from_str(v), ..self }
    }
}


impl Default for Config {
    /// The service on the local machine, without authentication.
    fn default() -> (r: Config)
        ensures
            r.endpoint() == LOCAL_ENDPOINT@,
            r.auth_scheme() is NoAuth,
            r.user_agent() == DEFAULT_USER_AGENT@,
    {
        Config::new(Endpoint::default(), AuthScheme::NoAuth)
    }
}

/// The verb of a request.
#[derive(Clone, Copy, PartialEq, Eq, Debug, Structural)]
pub enum HttpMethod {
    Get,
    Post,
    Put,
    Delete,
}

/// One HTTP request, ready for a transport to send.
#[derive(Debug, Clone)]
pub struct HttpRequest {
    pub method: HttpMethod,
    /// The absolute URL.
    pub url: String,
    /// Header names and values, in order.
    pub headers: Vec<(String, String)>,
    /// Query parameters, in order, not yet percent-encoded.
    pub query: Vec<(String, String)>,
    /// The JSON body, if any.
    pub body: Option<String>,
}

/// What an [`HttpRequest`] holds, as mathematical values.
pub ghost struct RequestView {
    pub method: HttpMethod,
    pub url: Seq<char>,
    pub headers: Seq<(Seq<char>, Seq<char>)>,
    pub query: Seq<(Seq<char>, Seq<char>)>,
    pub body: Option<Seq<char>>,
}

pub open spec fn pair_view(p: (String, String)) -> (Seq<char>, Seq<char>) {
    (p.0@, p.1@)
}

pub open spec fn pairs_view(s: Seq<(String, String)>) -> Seq<(Seq<char>, Seq<char>)> {
    s.map_values(|p: (String, String)| pair_view(p))
}

pub open spec fn text_view(s: Option<String>) -> Option<Seq<char>> {
    match s {
        Some(t) => Some(t@),
        None => None,
    }
}

impl View for HttpRequest {
    type V = RequestView;

    open spec fn view(&self) -> RequestView {
        RequestView {
            method: self.method,
            url: self.url@,
            headers: pairs_view(self.headers@),
            query: pairs_view(self.query@),
            body: text_view(self.body),
        }
    }
}

/// The headers that authenticate a request under `auth`.
pub open spec fn auth_headers(auth: AuthScheme) -> Seq<(Seq<char>, Seq<char>)> {
    match auth {
        AuthScheme::NoAuth => seq![],
        AuthScheme::BearerToken(t) => seq![("Authorization"@, "Bearer "@ + t@)],
    }
}

/// `r` is the request that `plan` describes, or the construction error
/// where `plan` is `None`.
pub open spec fn follows_plan(r: Result<HttpRequest, Error>, plan: Option<RequestView>) -> bool {
    match plan {
        Some(v) => r matches Ok(q) && q@ == v,
        None => r matches Err(Error::Internal(_)),
    }
}

/// Turns a verb, a path and a payload into a request against one base
/// endpoint, with one authentication scheme and one user agent. Every
/// resource client goes through it.
#[derive(Debug)]
pub struct Dispatcher {
    endpoint: Endpoint,
    auth_scheme: AuthScheme,
    user_agent: String,
}

impl Dispatcher {
    pub closed spec fn base(&self) -> Seq<char> {
        self.endpoint@
    }

    pub closed spec fn auth(&self) -> AuthScheme {
        self.auth_scheme
    }

    pub closed spec fn agent(&self) -> Seq<char> {
        self.user_agent@
    }

    pub fn new(config: Config) -> (r: Dispatcher)
        ensures
            r.base() == config.endpoint(),
            r.auth() == config.auth_scheme(),
            r.agent() == config.user_agent(),
    {
        Dispatcher {
            endpoint: config.endpoint,
            auth_scheme: config.auth_scheme,
            user_agent: config.user_agent,
        }
    }

    /// The headers of every request: the user agent, the authentication,
    /// and the content type where a JSON body goes along.
    pub open spec fn headers(&self, json: bool) -> Seq<(Seq<char>, Seq<char>)> {
        seq![("User-Agent"@, self.agent())] + auth_headers(self.auth()) + if json {
            seq![("Content-Type"@, "application/json"@)]
        } else {
            seq![]
        }
    }

    /// The request for `method` on `path`, or `None` where the URL cannot
    /// be built.
    pub open spec fn plan(
        &self,
        method: HttpMethod,
        path: Seq<char>,
        query: Seq<(Seq<char>, Seq<char>)>,
        body: Option<Seq<char>>,
    ) -> Option<RequestView> {
        match joined_url(self.base(), path) {
            Some(url) => Some(
                RequestView { method, url, headers: self.headers(body is Some), query, body },
            ),
            None => None,
        }
    }

    /// Resolves `path` against the base endpoint.
    pub fn build_url(&self, path: &str) -> (r: Result<String, Error>)
        ensures
            r is Ok <==> joined_url(self.base(), path@) is Some,
            r matches Ok(u) ==> u@ == joined_url(self.base(), path@)->0,
            r matches Err(e) ==> e is Internal,
    {
        self.endpoint.join(path)
    }

    fn header_list(&self, json: bool) -> (r: Vec<(String, String)>)
        ensures
            pairs_view(r@) == self.headers(json),
    {
        let mut r: Vec<(String, String)> = Vec::new();
        r.push((String::from_str("User-Agent"), self.user_agent.clone()));
        match &self.auth_scheme {
            AuthScheme::NoAuth => {},
            AuthScheme::BearerToken(t) => {
                let mut v = String::from_str("Bearer ");
                v.append(t.as_str());
                r.push((String::from_str("Authorization"), v));
            },
        }
        if json {
            r.push((String::from_str("Content-Type"), String::from_str("application/json")));
        }
        assert(pairs_view(r@) =~= self.headers(json));
        r
    }

    fn request(
        &self,
        method: HttpMethod,
        path: &str,
        query: Vec<(String, String)>,
        body: Option<String>,
    ) -> (r: Result<HttpRequest, Error>)
        ensures
            follows_plan(r, self.plan(method, path@, pairs_view(query@), text_view(body))),
    {
        let url = match self.build_url(path) {
            Ok(u) => u,
            Err(e) => return Err(e),
        };
        let headers = self.header_list(body.is_some());
        Ok(HttpRequest { method, url, headers, query, body })
    }

    /// A GET request, with `params` as its query.
    pub fn get(&self, path: &str, params: Option<Vec<(String, String)>>) -> (r: Result<
        HttpRequest,
        Error,
    >)
        ensures
            follows_plan(r, self.plan(HttpMethod::Get, path@, query_of(params), None)),
    {
        let query = match params {
            Some(q) => q,
            None => Vec::new(),
        };
        assert(pairs_view(query@) =~= query_of(params));
        self.request(HttpMethod::Get, path, query, None)
    }

    /// A POST request, with `body` as its JSON body.
    pub fn post(&self, path: &str, body: Option<String>) -> (r: Result<HttpRequest, Error>)
        ensures
            follows_plan(r, self.plan(HttpMethod::Post, path@, seq![], text_view(body))),
    {
        let query: Vec<(String, String)> = Vec::new();
        assert(pairs_view(query@) =~= seq![]);
        self.request(HttpMethod::Post, path, query, body)
    }

    /// A PUT request, with `body` as its JSON body.
    pub fn put(&self, path: &str, body: Option<String>) -> (r: Result<HttpRequest, Error>)
        ensures
            follows_plan(r, self.plan(HttpMethod::Put, path@, seq![], text_view(body))),
    {
        let query: Vec<(String, String)> = Vec::new();
        assert(pairs_view(query@) =~= seq![]);
        self.request(HttpMethod::Put, path, query, body)
    }

    /// A DELETE request, with `params` as its query.
    pub fn delete(&self, path: &str, params: Option<Vec<(String, String)>>) -> (r: Result<
        HttpRequest,
        Error,
    >)
        ensures
            follows_plan(r, self.plan(HttpMethod::Delete, path@, query_of(params), None)),
    {
        let query = match params {
            Some(q) => q,
            None => Vec::new(),
        };
        assert(pairs_view(query@) =~= query_of(params));
        self.request(HttpMethod::Delete, path, query, None)
    }
}

/// The query that optional parameters make: none where they are absent.
pub open spec fn query_of(params: Option<Vec<(String, String)>>) -> Seq<(Seq<char>, Seq<char>)> {
    match params {
        Some(v) => pairs_view(v@),
        None => seq![],
    }
}

/// A path that cannot be joined to the base endpoint makes every request on
/// it fail with a construction error, whatever its verb, query and body.
pub proof fn unjoinable_path_is_a_construction_error(
    d: Dispatcher,
    method: HttpMethod,
    path: Seq<char>,
    query: Seq<(Seq<char>, Seq<char>)>,
    body: Option<Seq<char>>,
    r: Result<HttpRequest, Error>,
)
    requires
        joined_url(d.base(), path) is None,
        follows_plan(r, d.plan(method, path, query, body)),
    ensures
        r matches Err(Error::Internal(_)),
{
}

} // verus!
