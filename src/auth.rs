//! The authentication surface under `/auth/v1`.
pub mod token;

use crate::dispatch::{follows_plan, Config, Dispatcher, HttpMethod, HttpRequest};
use crate::error::Error;
use vstd::prelude::*;

verus! {

/// The metadata key that holds a token's name.
pub const METADATA_LABEL_NAME: &'static str = "io.flipt.auth.token.name";

/// The metadata key that holds a token's description.
pub const METADATA_LABEL_DESCRIPTION: &'static str = "io.flipt.auth.token.description";

/// The page size of a list request that names none.
pub const DEFAULT_LIMIT: usize = 100;

/// Client of the authentication surface.
#[derive(Debug)]
pub struct AuthClient {
    pub dispatcher: Dispatcher,
}

impl AuthClient {
    pub fn new(config: Config) -> (r: AuthClient)
        ensures
            r.dispatcher.base() == config.endpoint(),
            r.dispatcher.auth() == config.auth_scheme(),
            r.dispatcher.agent() == config.user_agent(),
    {
        AuthClient { dispatcher: Dispatcher::new(config) }
    }

    /// The authentication of the caller.
    pub fn me(&self) -> (r: Result<HttpRequest, Error>)
        ensures
            follows_plan(r, self.dispatcher.plan(HttpMethod::Get, "/auth/v1/self"@, seq![], None)),
    {
        self.dispatcher.get("/auth/v1/self", None)
    }

    pub fn tokens(&self) -> (r: token::TokenClient<'_>)
        ensures
            r.client == self,
    {
        token::TokenClient::new(self)
    }
}

/// How an authentication was made.
#[derive(Debug, Clone, Copy, PartialEq, Eq, Structural)]
pub enum Method {
    NoMethod,
    Token,
}

impl Method {
    /// The name of the method on the wire.
    pub open spec fn wire_name(self) -> Seq<char> {
        match self {
            Method::NoMethod => "METHOD_NONE"@,
            Method::Token => "METHOD_TOKEN"@,
        }
    }

    pub fn wire_text(self) -> (r: &'static str)
        ensures
            r@ == self.wire_name(),
    {
        match self {
            Method::NoMethod => "METHOD_NONE",
            Method::Token => "METHOD_TOKEN",
        }
    }
}

} // verus!
