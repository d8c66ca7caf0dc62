use crate::dispatch::{follows_plan, HttpMethod, HttpRequest};
use crate::error::Error;
use crate::meta::MetaClient;
use vstd::prelude::*;

verus! {

/// Requests on the service's build information.
pub struct InfoClient<'client> {
    pub client: &'client MetaClient,
}

impl<'client> InfoClient<'client> {
    pub fn new(client: &'client MetaClient) -> (r: Self)
        ensures
            r.client == client,
    {
        InfoClient { client }
    }

    /// The build information; its reply is any JSON document.
    pub fn get(&self) -> (r: Result<HttpRequest, Error>)
        ensures
            follows_plan(r, self.client.dispatcher.plan(HttpMethod::Get, "/meta/info"@, seq![], None)),
    {
        self.client.dispatcher.get("/meta/info", None)
    }
}

} // verus!
