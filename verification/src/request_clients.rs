//! The rate-limited HTTP clients, as validated descriptions: a client
//! is a user agent plus a parsed token-bucket quota, one per remote
//! service, built once at composition time. The transport that issues
//! the requests lives with the caller; everything decided here — the
//! quota grammar, the base URLs, the request paths — is checked.
use crate::configuration::AppConfig;
use crate::quota::QuotaError;
use crate::quota::RateQuota;
use crate::quota::parse_quota;
use crate::quota::parse_quota_spec;
use vstd::prelude::*;
use vstd::utf8::encode_utf8;

pub mod external_ids_endpoints;
pub mod imdb_client;
pub mod tmdb_client;

verus! {

/// One remote service's client description: the user agent every
/// request carries and the service's token-bucket quota.
#[derive(Debug, Clone)]
pub struct RateLimitedClient {
    pub user_agent: String,
    pub quota: RateQuota,
}

impl RateLimitedClient {
    /// Build a client description from configuration strings. Succeeds
    /// exactly when the rate-limit string parses under the quota
    /// grammar, and then carries that quota.
    pub fn from_config(user_agent: &str, rate_limit: &str) -> (r: Result<
        RateLimitedClient,
        QuotaError,
    >)
        ensures
            match r {
                Ok(c) => parse_quota_spec(encode_utf8(rate_limit@)) == Ok::<RateQuota, QuotaError>(
                    c.quota,
                ) && c.user_agent@ == user_agent@,
                Err(e) => parse_quota_spec(encode_utf8(rate_limit@)) == Err::<
                    RateQuota,
                    QuotaError,
                >(e),
            },
    {
        match parse_quota(rate_limit) {
            Ok(q) => Ok(RateLimitedClient { user_agent: user_agent.to_owned(), quota: q }),
            Err(e) => Err(e),
        }
    }
}

/// Why building a client failed: a construction failure that aborts
/// startup.
#[derive(Debug, Clone, Copy, PartialEq, Eq, Structural)]
pub enum ClientInitError {
    /// The service's rate-limit string broke the quota grammar.
    BadQuota(QuotaError),
    /// The secondary catalog is selected but no API key is configured.
    MissingApiKey,
}

/// Build the primary-catalog client from the configuration. Succeeds
/// exactly when the primary rate limit parses.
pub fn initialize_imdb_request_client(config: &AppConfig) -> (r: Result<
    imdb_client::ImdbRequestClient,
    ClientInitError,
>)
    ensures
        match r {
            Ok(c) => parse_quota_spec(encode_utf8(config.imdb_rate_limit@)) == Ok::<
                RateQuota,
                QuotaError,
            >(c.0.executor.quota) && c.0.executor.user_agent@ == config.user_agent@
                && c.0.base_url@ == "https://www.imdb.com"@,
            Err(e) => e matches ClientInitError::BadQuota(q) && parse_quota_spec(
                encode_utf8(config.imdb_rate_limit@),
            ) == Err::<RateQuota, QuotaError>(q),
        },
{
    let executor = match RateLimitedClient::from_config(
        config.user_agent.as_str(),
        config.imdb_rate_limit.as_str(),
    ) {
        Ok(c) => c,
        Err(e) => {
            return Err(ClientInitError::BadQuota(e));
        },
    };
    let builder = imdb_client::ClientBuilder::default().with_executor(executor);
    match builder.build() {
        Ok(inner) => Ok(imdb_client::ImdbRequestClient(inner)),
        Err(_) => Err(ClientInitError::MissingApiKey),  // unreachable: executor was set
    }
}

/// Build the secondary-catalog client from the configuration. Succeeds
/// exactly when the secondary rate limit parses and an API key is
/// present.
pub fn initialize_tmdb_request_client(config: &AppConfig) -> (r: Result<
    tmdb_client::TmdbRequestClient,
    ClientInitError,
>)
    ensures
        match r {
            Ok(c) => parse_quota_spec(encode_utf8(config.tmdb_rate_limit@)) == Ok::<
                RateQuota,
                QuotaError,
            >(c.0.executor.quota) && c.0.executor.user_agent@ == config.user_agent@
                && c.0.base_url@ == "https://api.themoviedb.org/3"@ && (config.tmdb_api_key
                matches Some(k) && c.0.api_key@ == k@),
            Err(ClientInitError::BadQuota(q)) => parse_quota_spec(
                encode_utf8(config.tmdb_rate_limit@),
            ) == Err::<RateQuota, QuotaError>(q),
            Err(ClientInitError::MissingApiKey) => config.tmdb_api_key is None
                && parse_quota_spec(encode_utf8(config.tmdb_rate_limit@)) is Ok,
        },
{
    let executor = match RateLimitedClient::from_config(
        config.user_agent.as_str(),
        config.tmdb_rate_limit.as_str(),
    ) {
        Ok(c) => c,
        Err(e) => {
            return Err(ClientInitError::BadQuota(e));
        },
    };
    let api_key = match &config.tmdb_api_key {
        Some(k) => k.clone(),
        None => {
            return Err(ClientInitError::MissingApiKey);
        },
    };
    let builder = tmdb_client::ClientBuilder::default().with_executor(executor).with_api_key(
        api_key,
    );
    match builder.build() {
        Ok(inner) => Ok(tmdb_client::TmdbRequestClient(inner)),
        Err(_) => Err(ClientInitError::MissingApiKey),  // unreachable: both were set
    }
}

/// Build the clients the configured data source needs: always the
/// primary-catalog client, and the secondary-catalog client exactly
/// when the secondary catalog is selected. Construction fails exactly
/// when a needed rate limit breaks the quota grammar, or the
/// secondary catalog is selected without an API key.
pub fn initialize_request_clients(config: &AppConfig) -> (r: Result<
    (imdb_client::ImdbRequestClient, Option<tmdb_client::TmdbRequestClient>),
    ClientInitError,
>)
    ensures
        (r is Err) <==> parse_quota_spec(encode_utf8(config.imdb_rate_limit@)) is Err || (
        config.data_source == crate::configuration::DataSource::Tmdb && (parse_quota_spec(
            encode_utf8(config.tmdb_rate_limit@),
        ) is Err || config.tmdb_api_key is None)),
        r matches Err(ClientInitError::BadQuota(q)) ==> parse_quota_spec(
            encode_utf8(config.imdb_rate_limit@),
        ) == Err::<RateQuota, QuotaError>(q) || (config.data_source
            == crate::configuration::DataSource::Tmdb && parse_quota_spec(
            encode_utf8(config.tmdb_rate_limit@),
        ) == Err::<RateQuota, QuotaError>(q)),
        r matches Err(ClientInitError::MissingApiKey) ==> config.data_source
            == crate::configuration::DataSource::Tmdb && config.tmdb_api_key is None
            && parse_quota_spec(encode_utf8(config.imdb_rate_limit@)) is Ok && parse_quota_spec(
            encode_utf8(config.tmdb_rate_limit@),
        ) is Ok,
        r matches Ok(pair) ==> (pair.1 is Some <==> config.data_source
            == crate::configuration::DataSource::Tmdb),
        r matches Ok(pair) ==> parse_quota_spec(encode_utf8(config.imdb_rate_limit@)) == Ok::<
            RateQuota,
            QuotaError,
        >(pair.0.0.executor.quota) && pair.0.0.base_url@ == "https://www.imdb.com"@,
        r matches Ok(pair) ==> (pair.1 matches Some(t) ==> parse_quota_spec(
            encode_utf8(config.tmdb_rate_limit@),
        ) == Ok::<RateQuota, QuotaError>(t.0.executor.quota) && t.0.base_url@
            == "https://api.themoviedb.org/3"@ && (config.tmdb_api_key matches Some(k)
            && t.0.api_key@ == k@)),
{
    let imdb = initialize_imdb_request_client(config)?;
    if config.data_source == crate::configuration::DataSource::Tmdb {
        let tmdb = initialize_tmdb_request_client(config)?;
        Ok((imdb, Some(tmdb)))
    } else {
        Ok((imdb, None))
    }
}

} // verus!
