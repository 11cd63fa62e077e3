//! The secondary-catalog client: base URL, executor description and
//! the API key the transport injects as a query parameter on every
//! request. Assembled by a builder that demands both executor and key.
use crate::request_clients::RateLimitedClient;
use crate::request_clients::external_ids_endpoints::ExternalIdsService;
use vstd::prelude::*;
use vstd::string::StringExecFns;

verus! {

/// Why building a client failed.
#[derive(Debug, Clone, Copy, PartialEq, Eq, Structural)]
pub enum BuildError {
    MissingExecutor,
    MissingApiKey,
}

/// An assembled client: executor description, base URL and API key.
#[derive(Debug, Clone)]
pub struct Client {
    pub executor: RateLimitedClient,
    pub base_url: String,
    pub api_key: String,
}

/// Step-by-step assembly of a [`Client`].
#[derive(Debug, Clone)]
pub struct ClientBuilder {
    pub base_url: String,
    pub executor: Option<RateLimitedClient>,
    pub api_key: Option<String>,
}

impl Default for ClientBuilder {
    /// The secondary catalog's base URL, and neither executor nor key.
    fn default() -> (r: Self)
        ensures
            r.base_url@ == "https://api.themoviedb.org/3"@,
            r.executor is None,
            r.api_key is None,
    {
        ClientBuilder {
            base_url: String::from_str("https://api.themoviedb.org/3"),
            executor: None,
            api_key: None,
        }
    }
}

impl ClientBuilder {
    pub fn with_base_url(self, value: String) -> (r: Self)
        ensures
            r.base_url == value,
            r.executor == self.executor,
            r.api_key == self.api_key,
    {
        ClientBuilder { base_url: value, executor: self.executor, api_key: self.api_key }
    }

    pub fn set_base_url(&mut self, value: String)
        ensures
            final(self).base_url == value,
            final(self).executor == old(self).executor,
            final(self).api_key == old(self).api_key,
    {
        self.base_url = value;
    }

    pub fn with_executor(self, executor: RateLimitedClient) -> (r: Self)
        ensures
            r.base_url == self.base_url,
            r.executor == Some(executor),
            r.api_key == self.api_key,
    {
        ClientBuilder { base_url: self.base_url, executor: Some(executor), api_key: self.api_key }
    }

    pub fn set_executor(&mut self, executor: RateLimitedClient)
        ensures
            final(self).base_url == old(self).base_url,
            final(self).executor == Some(executor),
            final(self).api_key == old(self).api_key,
    {
        self.executor = Some(executor);
    }

    pub fn with_api_key(self, value: String) -> (r: Self)
        ensures
            r.base_url == self.base_url,
            r.executor == self.executor,
            r.api_key == Some(value),
    {
        ClientBuilder { base_url: self.base_url, executor: self.executor, api_key: Some(value) }
    }

    pub fn set_api_key(&mut self, value: String)
        ensures
            final(self).base_url == old(self).base_url,
            final(self).executor == old(self).executor,
            final(self).api_key == Some(value),
    {
        self.api_key = Some(value);
    }

    /// Succeeds exactly when both executor and API key were supplied;
    /// a missing executor is reported first.
    pub fn build(self) -> (r: Result<Client, BuildError>)
        ensures
            match r {
                Ok(c) => self.executor == Some(c.executor) && self.api_key == Some(c.api_key)
                    && c.base_url == self.base_url,
                Err(BuildError::MissingExecutor) => self.executor is None,
                Err(BuildError::MissingApiKey) => self.executor is Some && self.api_key is None,
            },
    {
        let executor = match self.executor {
            Some(e) => e,
            None => {
                return Err(BuildError::MissingExecutor);
            },
        };
        let api_key = match self.api_key {
            Some(k) => k,
            None => {
                return Err(BuildError::MissingApiKey);
            },
        };
        Ok(Client { executor, base_url: self.base_url, api_key })
    }
}

impl Client {
    pub fn builder() -> (r: ClientBuilder)
        ensures
            r.base_url@ == "https://api.themoviedb.org/3"@,
            r.executor is None,
            r.api_key is None,
    {
        ClientBuilder::default()
    }
}

/// The secondary-catalog request client.
#[derive(Debug, Clone)]
pub struct TmdbRequestClient(pub Client);

impl TmdbRequestClient {
    /// The base URL every request path is appended to.
    pub fn base_url(&self) -> (r: &str)
        ensures
            r@ == self.0.base_url@,
    {
        self.0.base_url.as_str()
    }

    /// The full URL of a GET for `path`: the base URL with the path
    /// appended. The transport issues this request after waiting for a
    /// rate-limiter token, with the API key added as a query parameter.
    pub fn request_url(&self, path: &str) -> (r: String)
        ensures
            r@ == self.0.base_url@ + path@,
    {
        let mut url = self.0.base_url.clone();
        url.append(path);
        url
    }

    /// The external-ids endpoints, spoken to through this client.
    pub fn external_ids(&self) -> (r: ExternalIdsService<'_>)
        ensures
            r.client == self,
    {
        ExternalIdsService { client: self }
    }
}

} // verus!
