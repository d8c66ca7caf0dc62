//! The meta surface under `/meta`.
pub mod info;

use crate::dispatch::{Config, Dispatcher};
use vstd::prelude::*;

verus! {

/// Client of the meta surface.
#[derive(Debug)]
pub struct MetaClient {
    pub dispatcher: Dispatcher,
}

impl MetaClient {
    pub fn new(config: Config) -> (r: MetaClient)
        ensures
            r.dispatcher.base() == config.endpoint(),
            r.dispatcher.auth() == config.auth_scheme(),
            r.dispatcher.agent() == config.user_agent(),
    {
        MetaClient { dispatcher: Dispatcher::new(config) }
    }

    pub fn info(&self) -> (r: info::InfoClient<'_>)
        ensures
            r.client == self,
    {
        info::InfoClient::new(self)
    }
}

} // verus!
