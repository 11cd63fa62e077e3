//! The per-title pipeline and its two strategies.
//!
//! A title directory's name carries an identifier token; the Direct
//! strategy reads the canonical id from it and runs the trailer
//! locator, while the Indirect strategy reads a secondary-catalog id,
//! resolves it through the durable cache (falling back to the remote
//! external-ids lookup), and only then runs the locator. The locator
//! itself is a state machine: freshness check, listing page, detail
//! page, persist — every transition decided here, each fetch and each
//! filesystem touch performed by the caller between steps.
use crate::cache::TmdbToImdbCache;
use crate::cache::cache_view;
use crate::cache::is_cache_error;
use crate::configuration::AppConfig;
use crate::configuration::DataSource;
use crate::dispatch::FolderType;
use crate::error::Error;
use crate::freshness;
use crate::freshness::content_view;
use crate::freshness::strm_expired_spec;
use crate::pattern::IdPattern;
use crate::pattern::regex_first_capture;
use crate::request_clients::external_ids_endpoints::ExternalIds;
use crate::request_clients::external_ids_endpoints::external_imdb_id;
use crate::scrape;
use crate::scrape::detail_url_spec;
use crate::scrape::listing_choice;
use crate::scrape::opt_view;
use vstd::prelude::*;
use vstd::string::StringExecFns;

verus! {

/// Where one title's locator stands: what it waits for next.
#[derive(Debug, Clone)]
pub enum LocatorState {
    /// Waiting for the artifact's content, read from disk.
    AwaitArtifact { imdb_id: String },
    /// Waiting for the listing page.
    AwaitListing { imdb_id: String },
    /// Waiting for the chosen detail page.
    AwaitDetail { page_path: String },
    /// Waiting for the artifact to be written.
    AwaitPersist { url: String },
    /// This title is finished for the cycle.
    Done { outcome: LocatorOutcome },
}

/// How a title's locator ended.
#[derive(Debug, Clone, Copy, PartialEq, Eq, Structural)]
pub enum LocatorOutcome {
    /// The artifact is still fresh: nothing was fetched or written.
    StillFresh,
    /// The artifact was written with a fresh playback URL.
    Persisted,
    /// The listing page did not answer 2xx.
    ListingFailed,
    /// The listing page showed no suitable anchor.
    NoVideoFound,
    /// The detail page did not answer 2xx, or its data block was not
    /// JSON.
    DetailFailed,
    /// The detail page yielded no playback candidate.
    NoPlayback,
    /// Writing the artifact failed.
    PersistFailed,
}

/// What the caller reports back to the locator.
#[derive(Debug, Clone)]
pub enum LocatorEvent {
    /// The artifact's content, or nothing when the file is missing,
    /// with the current Unix time.
    ArtifactRead { content: Option<String>, now: i64 },
    /// The listing page's body, with whether the status was 2xx.
    ListingFetched { ok: bool, body: String },
    /// The detail page's body, with whether the status was 2xx.
    DetailFetched { ok: bool, body: String },
    /// Whether the artifact write succeeded.
    Persisted { ok: bool },
}

/// What the caller must do next for the locator.
#[derive(Debug, Clone)]
pub enum LocatorAction {
    /// Read the artifact file's content.
    ReadArtifact,
    /// GET this path on the primary catalog.
    FetchListing { path: String },
    /// GET this path on the primary catalog.
    FetchDetail { path: String },
    /// Create or truncate the artifact with exactly this content.
    WriteArtifact { url: String },
    /// Nothing: this title is done for the cycle.
    Stop,
}

/// The locator's transition relation: what the next state is for a
/// state and the event it waited for. An event a state does not wait
/// for changes nothing.
pub open spec fn locator_step_rel(s: LocatorState, e: LocatorEvent, r: LocatorState) -> bool {
    match (s, e) {
        (
            LocatorState::AwaitArtifact { imdb_id },
            LocatorEvent::ArtifactRead { content, now },
        ) => {
            if strm_expired_spec(content_view(opt_view(content)), now as int) {
                r matches LocatorState::AwaitListing { imdb_id: id } && id@ == imdb_id@
            } else {
                r == (LocatorState::Done { outcome: LocatorOutcome::StillFresh })
            }
        },
        (LocatorState::AwaitListing { imdb_id: _ }, LocatorEvent::ListingFetched { ok, body }) => {
            if !ok {
                r == (LocatorState::Done { outcome: LocatorOutcome::ListingFailed })
            } else {
                match listing_choice(body@, "a[href*=\"/video/vi\"]"@, "href"@) {
                    Some(h) => r matches LocatorState::AwaitDetail { page_path } && page_path@
                        == h,
                    None => r == (LocatorState::Done { outcome: LocatorOutcome::NoVideoFound }),
                }
            }
        },
        (LocatorState::AwaitDetail { page_path: _ }, LocatorEvent::DetailFetched { ok, body }) => {
            if !ok {
                r == (LocatorState::Done { outcome: LocatorOutcome::DetailFailed })
            } else {
                match detail_url_spec(body@) {
                    Ok(Some(u)) => r matches LocatorState::AwaitPersist { url } && url@ == u,
                    Ok(None) => r == (LocatorState::Done { outcome: LocatorOutcome::NoPlayback }),
                    Err(_) => r == (LocatorState::Done { outcome: LocatorOutcome::DetailFailed }),
                }
            }
        },
        (LocatorState::AwaitPersist { url: _ }, LocatorEvent::Persisted { ok }) => {
            if ok {
                r == (LocatorState::Done { outcome: LocatorOutcome::Persisted })
            } else {
                r == (LocatorState::Done { outcome: LocatorOutcome::PersistFailed })
            }
        },
        (other, _) => r == other,
    }
}

/// Start the locator for a canonical id: the freshness check comes
/// first.
pub fn locator_start(imdb_id: String) -> (r: LocatorState)
    ensures
        r matches LocatorState::AwaitArtifact { imdb_id: id } && id == imdb_id,
{
    LocatorState::AwaitArtifact { imdb_id }
}

/// What the caller must do for `s`. A finished locator asks for
/// nothing — in particular a fresh artifact stops the pipeline before
/// any network call.
pub fn locator_action(s: &LocatorState) -> (r: LocatorAction)
    ensures
        s is AwaitArtifact ==> r == LocatorAction::ReadArtifact,
        s matches LocatorState::AwaitListing { imdb_id } ==> (r matches LocatorAction::FetchListing
            { path } && path@ == "/title/"@ + imdb_id@ + "/videogallery/?sort=date,asc"@),
        s matches LocatorState::AwaitDetail { page_path } ==> (r matches LocatorAction::FetchDetail
            { path } && path@ == page_path@),
        s matches LocatorState::AwaitPersist { url } ==> (r matches LocatorAction::WriteArtifact {
            url: u } && u@ == url@),
        s is Done ==> r == LocatorAction::Stop,
{
    match s {
        LocatorState::AwaitArtifact { imdb_id: _ } => LocatorAction::ReadArtifact,
        LocatorState::AwaitListing { imdb_id } => {
            let mut path = String::from_str("/title/");
            path.append(imdb_id.as_str());
            path.append("/videogallery/?sort=date,asc");
            LocatorAction::FetchListing { path }
        },
        LocatorState::AwaitDetail { page_path } => LocatorAction::FetchDetail {
            path: page_path.clone(),
        },
        LocatorState::AwaitPersist { url } => LocatorAction::WriteArtifact { url: url.clone() },
        LocatorState::Done { outcome: _ } => LocatorAction::Stop,
    }
}

/// Advance the locator by one observed event.
pub fn locator_step(s: LocatorState, e: LocatorEvent) -> (r: LocatorState)
    ensures
        locator_step_rel(s, e, r),
{
    match (s, e) {
        (
            LocatorState::AwaitArtifact { imdb_id },
            LocatorEvent::ArtifactRead { content, now },
        ) => {
            if freshness::is_strm_expired(&content, now) {
                LocatorState::AwaitListing { imdb_id }
            } else {
                LocatorState::Done { outcome: LocatorOutcome::StillFresh }
            }
        },
        (LocatorState::AwaitListing { imdb_id: _ }, LocatorEvent::ListingFetched { ok, body }) => {
            if !ok {
                LocatorState::Done { outcome: LocatorOutcome::ListingFailed }
            } else {
                match scrape::get_trailer_video_page_url(body.as_str()) {
                    Some(h) => LocatorState::AwaitDetail { page_path: h },
                    None => LocatorState::Done { outcome: LocatorOutcome::NoVideoFound },
                }
            }
        },
        (LocatorState::AwaitDetail { page_path: _ }, LocatorEvent::DetailFetched { ok, body }) => {
            if !ok {
                LocatorState::Done { outcome: LocatorOutcome::DetailFailed }
            } else {
                match scrape::get_direct_video_url_from_page(body.as_str()) {
                    Ok(Some(u)) => LocatorState::AwaitPersist { url: u },
                    Ok(None) => LocatorState::Done { outcome: LocatorOutcome::NoPlayback },
                    Err(_) => LocatorState::Done { outcome: LocatorOutcome::DetailFailed },
                }
            }
        },
        (LocatorState::AwaitPersist { url: _ }, LocatorEvent::Persisted { ok }) => {
            if ok {
                LocatorState::Done { outcome: LocatorOutcome::Persisted }
            } else {
                LocatorState::Done { outcome: LocatorOutcome::PersistFailed }
            }
        },
        (other, _) => other,
    }
}

/// The Direct strategy: the title directory's name must itself carry
/// the canonical id.
#[derive(Debug)]
pub struct ImdbTrailerScraper;

impl ImdbTrailerScraper {
    /// The canonical-id token in a directory name, as the configured
    /// pattern's first capture.
    pub fn extract_imdb_id(&self, pattern: &IdPattern, path_str: &str) -> (r: Option<String>)
        ensures
            ({
                let c = regex_first_capture(pattern.pattern_view(), path_str@);
                match r {
                    Some(s) => c matches Some(cs) && s@ == cs,
                    None => c is None,
                }
            }),
    {
        pattern.first_capture(path_str)
    }

    /// Whether the artifact content is expired at `now`; missing or
    /// unparsable content counts as expired.
    pub fn is_strm_expired(&self, content: &Option<String>, now: i64) -> (r: bool)
        ensures
            r == strm_expired_spec(
                content_view(
                    match content {
                        Some(s) => Some(s@),
                        None => None,
                    },
                ),
                now as int,
            ),
    {
        freshness::is_strm_expired(content, now)
    }

    /// Stage one on a 2xx listing body: the chosen detail-page path.
    pub fn get_trailer_video_page_url(&self, body: &str) -> (r: Option<String>)
        ensures
            ({
                let choice = listing_choice(body@, "a[href*=\"/video/vi\"]"@, "href"@);
                match r {
                    Some(h) => choice == Some(h@),
                    None => choice is None,
                }
            }),
    {
        scrape::get_trailer_video_page_url(body)
    }

    /// Stage two on a 2xx detail body: the direct playback URL.
    pub fn get_direct_video_url_from_page(&self, body: &str) -> (r: Result<Option<String>, Error>)
        ensures
            match r {
                Ok(Some(u)) => detail_url_spec(body@) == Ok::<Option<Seq<char>>, ()>(Some(u@)),
                Ok(None) => detail_url_spec(body@) == Ok::<Option<Seq<char>>, ()>(None),
                Err(_) => detail_url_spec(body@) is Err,
            },
    {
        scrape::get_direct_video_url_from_page(body)
    }
}

/// The Indirect strategy: the directory names a secondary-catalog id,
/// resolved to the canonical id through the cache and, on a miss, the
/// remote external-ids lookup.
#[derive(Debug)]
pub struct TmdbTrailerScraper {
    pub imdb_trailer_scraper: ImdbTrailerScraper,
    pub tmdb_to_imdb_cache: TmdbToImdbCache,
}

impl TmdbTrailerScraper {
    /// The secondary-id token in a directory name, as the configured
    /// pattern's first capture.
    pub fn extract_tmdb_id(&self, pattern: &IdPattern, path_str: &str) -> (r: Option<String>)
        ensures
            ({
                let c = regex_first_capture(pattern.pattern_view(), path_str@);
                match r {
                    Some(s) => c matches Some(cs) && s@ == cs,
                    None => c is None,
                }
            }),
    {
        pattern.first_capture(path_str)
    }

    /// Consult the cache first: on a hit the canonical id comes back
    /// with no network call owed; every store failure comes back as a
    /// cache error.
    pub fn try_cached_imdb_id(&self, tmdb_id: &str) -> (r: Result<Option<String>, Error>)
        ensures
            r matches Ok(found) ==> match found {
                Some(id) => cache_view(self.tmdb_to_imdb_cache.redb.db).contains_key(tmdb_id@)
                    && id@ == cache_view(self.tmdb_to_imdb_cache.redb.db)[tmdb_id@],
                None => !cache_view(self.tmdb_to_imdb_cache.redb.db).contains_key(tmdb_id@),
            },
            r matches Err(e) ==> is_cache_error(e),
    {
        self.tmdb_to_imdb_cache.try_get_imdb_id(tmdb_id)
    }

    /// Apply a remote external-ids answer: a canonical id is stored in
    /// the cache before it is returned; an answer without one is a
    /// not-found failure that skips the directory for this cycle and
    /// leaves the cache untouched. A failed store reports a cache
    /// error; its write may or may not have become durable.
    pub fn store_resolved_imdb_id(&mut self, tmdb_id: &str, ids: &ExternalIds) -> (r: Result<
        String,
        Error,
    >)
        ensures
            external_imdb_id(*ids) is None ==> (r matches Err(e) && e matches Error::NotFound { .. }
            ) && cache_view(final(self).tmdb_to_imdb_cache.redb.db) == cache_view(
                old(self).tmdb_to_imdb_cache.redb.db,
            ),
            external_imdb_id(*ids) matches Some(cid) ==> match r {
                Ok(s) => s@ == cid && cache_view(final(self).tmdb_to_imdb_cache.redb.db)
                    == cache_view(old(self).tmdb_to_imdb_cache.redb.db).insert(tmdb_id@, cid),
                Err(e) => is_cache_error(e) && (cache_view(final(self).tmdb_to_imdb_cache.redb.db)
                    == cache_view(old(self).tmdb_to_imdb_cache.redb.db) || cache_view(
                    final(self).tmdb_to_imdb_cache.redb.db,
                ) == cache_view(old(self).tmdb_to_imdb_cache.redb.db).insert(tmdb_id@, cid)),
            },
    {
        let found = match ids.imdb_id() {
            Some(id) => Some(id.clone()),
            None => None,
        };
        match found {
            Some(id) => {
                match self.tmdb_to_imdb_cache.add(tmdb_id, id.as_str()) {
                    Ok(_) => Ok(id),
                    Err(e) => Err(e),
                }
            },
            None => Err(Error::NotFound { secondary_id: tmdb_id.to_owned() }),
        }
    }
}

/// Why one title's pipeline ends before the locator starts.
#[derive(Debug, Clone, Copy, PartialEq, Eq, Structural)]
pub enum SkipReason {
    /// The directory name carries no identifier token.
    NoToken,
    /// The identifier could not be resolved this cycle.
    ResolveFailed,
}

/// Where one title's Indirect pipeline stands. Resolution comes first:
/// the secondary id is read from the directory name and translated —
/// cache, then remote — before any freshness check; the freshness
/// check is the locator's opening step once the canonical id is known.
#[derive(Debug, Clone)]
pub enum IndirectState {
    /// Waiting for the remote external-ids answer for this secondary
    /// id.
    AwaitRemote { tmdb_id: String },
    /// Resolution done: the locator takes over.
    Locate { locator: LocatorState },
    /// The directory is skipped for this cycle.
    Skipped { reason: SkipReason },
}

impl ImdbTrailerScraper {
    /// Begin one title's Direct pipeline on its directory name: the
    /// name must itself carry the canonical-id token; without one the
    /// title is skipped, else the locator takes over, starting with
    /// its freshness check.
    pub fn direct_start(&self, pattern: &IdPattern, path_str: &str) -> (r: Option<LocatorState>)
        ensures
            ({
                let token = regex_first_capture(pattern.pattern_view(), path_str@);
                match token {
                    None => r is None,
                    Some(id) => r matches Some(locator) && (locator matches
                        LocatorState::AwaitArtifact { imdb_id } && imdb_id@ == id),
                }
            }),
    {
        match self.extract_imdb_id(pattern, path_str) {
            Some(imdb_id) => Some(locator_start(imdb_id)),
            None => None,
        }
    }
}

impl TmdbTrailerScraper {
    /// Begin one title's Indirect pipeline on its directory name:
    /// extract the secondary-id token and consult the cache — before
    /// any freshness check, as the preserved ordering demands. A hit
    /// hands straight to the locator; a miss asks the caller for the
    /// remote external-ids answer; a name without a token, or a
    /// failing store, skips the title for this cycle.
    pub fn indirect_start(&self, pattern: &IdPattern, path_str: &str) -> (r: IndirectState)
        ensures
            ({
                let token = regex_first_capture(pattern.pattern_view(), path_str@);
                match token {
                    None => r == (IndirectState::Skipped { reason: SkipReason::NoToken }),
                    Some(id) => match r {
                        IndirectState::Locate { locator } => (locator matches
                            LocatorState::AwaitArtifact { imdb_id } && cache_view(
                            self.tmdb_to_imdb_cache.redb.db,
                        ).contains_key(id) && imdb_id@ == cache_view(
                            self.tmdb_to_imdb_cache.redb.db,
                        )[id]),
                        IndirectState::AwaitRemote { tmdb_id } => tmdb_id@ == id && !cache_view(
                            self.tmdb_to_imdb_cache.redb.db,
                        ).contains_key(id),
                        IndirectState::Skipped { reason } => reason == SkipReason::ResolveFailed,
                    },
                }
            }),
    {
        let tmdb_id = match self.extract_tmdb_id(pattern, path_str) {
            Some(id) => id,
            None => {
                return IndirectState::Skipped { reason: SkipReason::NoToken };
            },
        };
        match self.try_cached_imdb_id(tmdb_id.as_str()) {
            Ok(Some(imdb_id)) => IndirectState::Locate { locator: locator_start(imdb_id) },
            Ok(None) => IndirectState::AwaitRemote { tmdb_id },
            Err(_) => IndirectState::Skipped { reason: SkipReason::ResolveFailed },
        }
    }

    /// Apply the remote external-ids answer to a pipeline waiting for
    /// it: a canonical id is stored and the locator takes over with
    /// it; no canonical id, or a failing store, skips the title. Any
    /// other state is left as it is, with the cache untouched.
    pub fn indirect_on_remote(&mut self, s: IndirectState, ids: &ExternalIds) -> (r:
        IndirectState)
        ensures
            !(s is AwaitRemote) ==> r == s && cache_view(final(self).tmdb_to_imdb_cache.redb.db)
                == cache_view(old(self).tmdb_to_imdb_cache.redb.db),
            s matches IndirectState::AwaitRemote { tmdb_id } ==> match external_imdb_id(*ids) {
                None => r == (IndirectState::Skipped { reason: SkipReason::ResolveFailed })
                    && cache_view(final(self).tmdb_to_imdb_cache.redb.db) == cache_view(
                    old(self).tmdb_to_imdb_cache.redb.db,
                ),
                Some(cid) => match r {
                    IndirectState::Locate { locator } => (locator matches
                        LocatorState::AwaitArtifact { imdb_id } && imdb_id@ == cid) && cache_view(
                        final(self).tmdb_to_imdb_cache.redb.db,
                    ) == cache_view(old(self).tmdb_to_imdb_cache.redb.db).insert(tmdb_id@, cid),
                    IndirectState::Skipped { reason } => reason == SkipReason::ResolveFailed && (
                    cache_view(final(self).tmdb_to_imdb_cache.redb.db) == cache_view(
                        old(self).tmdb_to_imdb_cache.redb.db,
                    ) || cache_view(final(self).tmdb_to_imdb_cache.redb.db) == cache_view(
                        old(self).tmdb_to_imdb_cache.redb.db,
                    ).insert(tmdb_id@, cid)),
                    IndirectState::AwaitRemote { .. } => false,
                },
            },
    {
        match s {
            IndirectState::AwaitRemote { tmdb_id } => {
                match self.store_resolved_imdb_id(tmdb_id.as_str(), ids) {
                    Ok(imdb_id) => IndirectState::Locate { locator: locator_start(imdb_id) },
                    Err(_) => IndirectState::Skipped { reason: SkipReason::ResolveFailed },
                }
            },
            other => other,
        }
    }
}

/// The request path of the external-ids endpoint for a media kind.
pub fn external_ids_path(kind: FolderType, tmdb_id: &str) -> (r: String)
    ensures
        kind == FolderType::Movie ==> r@ == "/movie/"@ + tmdb_id@ + "/external_ids"@,
        kind == FolderType::TvShow ==> r@ == "/tv/"@ + tmdb_id@ + "/external_ids"@,
{
    let mut p = match kind {
        FolderType::Movie => String::from_str("/movie/"),
        FolderType::TvShow => String::from_str("/tv/"),
    };
    p.append(tmdb_id);
    p.append("/external_ids");
    p
}

/// The strategy chosen once at composition time.
#[derive(Debug)]
pub enum ScraperStrategy {
    Direct(ImdbTrailerScraper),
    Indirect(TmdbTrailerScraper),
}

/// Choose the strategy the configured data source calls for: Direct
/// for the primary catalog, Indirect — owning the identifier cache —
/// for the secondary one.
pub fn initialize_scrapers(config: &AppConfig, cache: TmdbToImdbCache) -> (r: ScraperStrategy)
    ensures
        config.data_source == DataSource::Imdb ==> r is Direct,
        config.data_source == DataSource::Tmdb ==> (r matches ScraperStrategy::Indirect(t)
            && t.tmdb_to_imdb_cache == cache),
{
    match config.data_source {
        DataSource::Imdb => ScraperStrategy::Direct(ImdbTrailerScraper {}),
        DataSource::Tmdb => ScraperStrategy::Indirect(
            TmdbTrailerScraper {
                imdb_trailer_scraper: ImdbTrailerScraper {},
                tmdb_to_imdb_cache: cache,
            },
        ),
    }
}

} // verus!
