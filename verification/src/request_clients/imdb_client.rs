//! The primary-catalog client: a base URL and a rate-limited executor
//! description, assembled by a builder. Only GET requests for raw page
//! bodies are supported; the request URL is the base URL with the
//! request path appended.
use crate::request_clients::RateLimitedClient;
use vstd::prelude::*;
use vstd::string::StringExecFns;

verus! {

/// Why building a client failed.
#[derive(Debug, Clone, Copy, PartialEq, Eq, Structural)]
pub enum BuildError {
    MissingExecutor,
}

/// An assembled client: executor description and base URL.
#[derive(Debug, Clone)]
pub struct Client {
    pub executor: RateLimitedClient,
    pub base_url: String,
}

/// Step-by-step assembly of a [`Client`].
#[derive(Debug, Clone)]
pub struct ClientBuilder {
    pub base_url: String,
    pub executor: Option<RateLimitedClient>,
}

impl Default for ClientBuilder {
    /// The primary catalog's base URL, and no executor yet.
    fn default() -> (r: Self)
        ensures
            r.base_url@ == "https://www.imdb.com"@,
            r.executor is None,
    {
        ClientBuilder { base_url: String::from_str("https://www.imdb.com"), executor: None }
    }
}

impl ClientBuilder {
    pub fn with_base_url(self, value: String) -> (r: Self)
        ensures
            r.base_url == value,
            r.executor == self.executor,
    {
        ClientBuilder { base_url: value, executor: self.executor }
    }

    pub fn set_base_url(&mut self, value: String)
        ensures
            final(self).base_url == value,
            final(self).executor == old(self).executor,
    {
        self.base_url = value;
    }

    pub fn with_executor(self, executor: RateLimitedClient) -> (r: Self)
        ensures
            r.base_url == self.base_url,
            r.executor == Some(executor),
    {
        ClientBuilder { base_url: self.base_url, executor: Some(executor) }
    }

    pub fn set_executor(&mut self, executor: RateLimitedClient)
        ensures
            final(self).base_url == old(self).base_url,
            final(self).executor == Some(executor),
    {
        self.executor = Some(executor);
    }

    /// Succeeds exactly when an executor was supplied.
    pub fn build(self) -> (r: Result<Client, BuildError>)
        ensures
            match r {
                Ok(c) => self.executor == Some(c.executor) && c.base_url == self.base_url,
                Err(e) => self.executor is None && e == BuildError::MissingExecutor,
            },
    {
        match self.executor {
            Some(executor) => Ok(Client { executor, base_url: self.base_url }),
            None => Err(BuildError::MissingExecutor),
        }
    }
}

impl Client {
    pub fn builder() -> (r: ClientBuilder)
        ensures
            r.base_url@ == "https://www.imdb.com"@,
            r.executor is None,
    {
        ClientBuilder::default()
    }
}

/// The primary-catalog request client.
#[derive(Debug, Clone)]
pub struct ImdbRequestClient(pub Client);

impl ImdbRequestClient {
    /// The base URL every request path is appended to.
    pub fn base_url(&self) -> (r: &str)
        ensures
            r@ == self.0.base_url@,
    {
        self.0.base_url.as_str()
    }

    /// The full URL of a GET for `path`: the base URL with the path
    /// appended. The transport issues this request after waiting for a
    /// rate-limiter token.
    pub fn request_url(&self, path: &str) -> (r: String)
        ensures
            r@ == self.0.base_url@ + path@,
    {
        let mut url = self.0.base_url.clone();
        url.append(path);
        url
    }
}

} // verus!
