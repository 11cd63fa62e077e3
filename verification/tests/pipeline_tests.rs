use trailerfin::cache::RedbDatabase;
use trailerfin::cache::TmdbToImdbCache;
use trailerfin::configuration::DataSource;
use trailerfin::dispatch::FolderType;
use trailerfin::pattern::IdPattern;
use trailerfin::request_clients::external_ids_endpoints::ExternalIds;
use trailerfin::request_clients::external_ids_endpoints::MovieExternalIds;
use trailerfin::request_clients::external_ids_endpoints::TvShowExternalIds;
use trailerfin::request_clients::initialize_request_clients;
use trailerfin::request_clients::ClientInitError;
use trailerfin::scrapers::ImdbTrailerScraper;
use trailerfin::scrapers::IndirectState;
use trailerfin::scrapers::LocatorAction;
use trailerfin::scrapers::LocatorEvent;
use trailerfin::scrapers::LocatorOutcome;
use trailerfin::scrapers::LocatorState;
use trailerfin::scrapers::ScraperStrategy;
use trailerfin::scrapers::SkipReason;
use trailerfin::scrapers::TmdbTrailerScraper;
use trailerfin::scrapers::external_ids_path;
use trailerfin::scrapers::initialize_scrapers;
use trailerfin::scrapers::locator_action;
use trailerfin::scrapers::locator_start;
use trailerfin::scrapers::locator_step;

fn fresh_cache() -> TmdbToImdbCache {
    TmdbToImdbCache::new(RedbDatabase::new_in_memory().unwrap()).unwrap()
}

fn listing_html() -> String {
    "<html><body><a href=\"/video/vi100/\">Official Trailer</a></body></html>".to_string()
}

fn detail_html() -> String {
    "<html><head><script id=\"__NEXT_DATA__\" type=\"application/json\">\
{\"props\":{\"pageProps\":{\"videoPlaybackData\":{\"video\":{\"playbackURLs\":[\
{\"videoMimeType\":\"MP4\",\"videoDefinition\":\"1080p\",\"url\":\"https://x/a.mp4\"}\
]}}}}}\
</script></head><body></body></html>"
        .to_string()
}

#[test]
fn test_extract_imdb_id_from_directory_name() {
    let pattern = IdPattern::compile(r"\{imdb-(tt\d+)}").unwrap();
    let scraper = ImdbTrailerScraper {};
    let id = scraper.extract_imdb_id(&pattern, "/scan/Movies/Some Film {imdb-tt1234567}");
    assert_eq!(id, Some("tt1234567".to_string()));
    assert_eq!(scraper.extract_imdb_id(&pattern, "/scan/Movies/No Token Here"), None);
}

#[test]
fn test_locator_end_to_end_refresh() {
    let state = locator_start("tt1234567".to_string());
    assert!(matches!(locator_action(&state), LocatorAction::ReadArtifact));

    let state = locator_step(state, LocatorEvent::ArtifactRead { content: None, now: 0 });
    match locator_action(&state) {
        LocatorAction::FetchListing { path } => {
            assert_eq!(path, "/title/tt1234567/videogallery/?sort=date,asc");
        },
        other => panic!("expected a listing fetch, got {:?}", other),
    }

    let state = locator_step(state, LocatorEvent::ListingFetched { ok: true, body: listing_html() });
    match locator_action(&state) {
        LocatorAction::FetchDetail { path } => assert_eq!(path, "/video/vi100/"),
        other => panic!("expected a detail fetch, got {:?}", other),
    }

    let state = locator_step(state, LocatorEvent::DetailFetched { ok: true, body: detail_html() });
    match locator_action(&state) {
        LocatorAction::WriteArtifact { url } => assert_eq!(url, "https://x/a.mp4#t=8"),
        other => panic!("expected an artifact write, got {:?}", other),
    }

    let state = locator_step(state, LocatorEvent::Persisted { ok: true });
    assert!(matches!(
        state,
        LocatorState::Done { outcome: LocatorOutcome::Persisted }
    ));
    assert!(matches!(locator_action(&state), LocatorAction::Stop));
}

#[test]
fn test_locator_fresh_artifact_stops_before_any_fetch() {
    let state = locator_start("tt1234567".to_string());
    let fresh = Some("https://x/a.mp4?Expires=9999999999".to_string());
    let state = locator_step(state, LocatorEvent::ArtifactRead { content: fresh, now: 100 });
    assert!(matches!(
        state,
        LocatorState::Done { outcome: LocatorOutcome::StillFresh }
    ));
    assert!(matches!(locator_action(&state), LocatorAction::Stop));
}

#[test]
fn test_locator_non_2xx_listing_aborts() {
    let state = locator_start("tt1".to_string());
    let state = locator_step(state, LocatorEvent::ArtifactRead { content: None, now: 0 });
    let state = locator_step(
        state,
        LocatorEvent::ListingFetched { ok: false, body: String::new() },
    );
    assert!(matches!(
        state,
        LocatorState::Done { outcome: LocatorOutcome::ListingFailed }
    ));
}

#[test]
fn test_resolver_stores_before_returning() {
    let mut scraper = TmdbTrailerScraper {
        imdb_trailer_scraper: ImdbTrailerScraper {},
        tmdb_to_imdb_cache: fresh_cache(),
    };
    assert_eq!(scraper.try_cached_imdb_id("603").unwrap(), None);
    let ids = ExternalIds::Movie(MovieExternalIds::from_wire(603, Some("tt0133093".to_string())));
    assert_eq!(
        scraper.store_resolved_imdb_id("603", &ids).unwrap(),
        "tt0133093".to_string()
    );
    assert_eq!(scraper.try_cached_imdb_id("603").unwrap(), Some("tt0133093".to_string()));
}

#[test]
fn test_resolver_without_canonical_id_is_not_found() {
    let mut scraper = TmdbTrailerScraper {
        imdb_trailer_scraper: ImdbTrailerScraper {},
        tmdb_to_imdb_cache: fresh_cache(),
    };
    let ids = ExternalIds::Tv(TvShowExternalIds::from_wire(77, None));
    let err = scraper.store_resolved_imdb_id("77", &ids).unwrap_err();
    assert!(matches!(err, trailerfin::error::Error::NotFound { .. }));
    assert_eq!(scraper.try_cached_imdb_id("77").unwrap(), None);
}

#[test]
fn test_empty_wire_id_counts_as_absent() {
    let m = MovieExternalIds::from_wire(1, Some(String::new()));
    assert_eq!(m.imdb_id, None);
    let ids = ExternalIds::Movie(m);
    assert_eq!(ids.imdb_id(), None);
}

#[test]
fn test_direct_start_needs_a_token() {
    let pattern = IdPattern::compile(r"\{imdb-(tt\d+)}").unwrap();
    let scraper = ImdbTrailerScraper {};
    match scraper.direct_start(&pattern, "/m/Film {imdb-tt42}") {
        Some(LocatorState::AwaitArtifact { imdb_id }) => assert_eq!(imdb_id, "tt42"),
        other => panic!("expected a locator start, got {:?}", other),
    }
    assert!(scraper.direct_start(&pattern, "/m/No Token").is_none());
}

#[test]
fn test_indirect_resolves_before_any_freshness_check() {
    let pattern = IdPattern::compile(r"\{tmdb-(\d+)}").unwrap();
    let mut scraper = TmdbTrailerScraper {
        imdb_trailer_scraper: ImdbTrailerScraper {},
        tmdb_to_imdb_cache: fresh_cache(),
    };

    // No token: the title is skipped outright.
    assert!(matches!(
        scraper.indirect_start(&pattern, "/m/No Token"),
        IndirectState::Skipped { reason: SkipReason::NoToken }
    ));

    // Cache miss: the machine asks for the remote answer first; the
    // freshness check has not happened yet.
    let state = scraper.indirect_start(&pattern, "/m/Film {tmdb-603}");
    match &state {
        IndirectState::AwaitRemote { tmdb_id } => assert_eq!(tmdb_id, "603"),
        other => panic!("expected a remote lookup, got {:?}", other),
    }

    // The remote answer stores the canonical id and hands to the
    // locator, whose first step is the freshness check.
    let ids = ExternalIds::Movie(MovieExternalIds::from_wire(603, Some("tt0133093".to_string())));
    let state = scraper.indirect_on_remote(state, &ids);
    match state {
        IndirectState::Locate { locator: LocatorState::AwaitArtifact { imdb_id } } => {
            assert_eq!(imdb_id, "tt0133093")
        },
        other => panic!("expected a locator handoff, got {:?}", other),
    }
    assert_eq!(scraper.try_cached_imdb_id("603").unwrap(), Some("tt0133093".to_string()));

    // Next cycle: the cache hit hands straight to the locator.
    match scraper.indirect_start(&pattern, "/m/Film {tmdb-603}") {
        IndirectState::Locate { locator: LocatorState::AwaitArtifact { imdb_id } } => {
            assert_eq!(imdb_id, "tt0133093")
        },
        other => panic!("expected a locator handoff, got {:?}", other),
    }
}

#[test]
fn test_indirect_remote_without_canonical_id_skips() {
    let pattern = IdPattern::compile(r"\{tmdb-(\d+)}").unwrap();
    let mut scraper = TmdbTrailerScraper {
        imdb_trailer_scraper: ImdbTrailerScraper {},
        tmdb_to_imdb_cache: fresh_cache(),
    };
    let state = scraper.indirect_start(&pattern, "/m/Film {tmdb-77}");
    let ids = ExternalIds::Tv(TvShowExternalIds::from_wire(77, None));
    assert!(matches!(
        scraper.indirect_on_remote(state, &ids),
        IndirectState::Skipped { reason: SkipReason::ResolveFailed }
    ));
    assert_eq!(scraper.try_cached_imdb_id("77").unwrap(), None);
}

#[test]
fn test_external_ids_paths_by_kind() {
    assert_eq!(external_ids_path(FolderType::Movie, "603"), "/movie/603/external_ids");
    assert_eq!(external_ids_path(FolderType::TvShow, "77"), "/tv/77/external_ids");
}

#[test]
fn test_strategy_selection_follows_data_source() {
    let mut config = base_config();
    config.data_source = DataSource::Imdb;
    assert!(matches!(
        initialize_scrapers(&config, fresh_cache()),
        ScraperStrategy::Direct(_)
    ));
    config.data_source = DataSource::Tmdb;
    assert!(matches!(
        initialize_scrapers(&config, fresh_cache()),
        ScraperStrategy::Indirect(_)
    ));
}

fn base_config() -> trailerfin::configuration::AppConfig {
    trailerfin::configuration::AppConfig {
        scan_path: "/mnt/media".to_string(),
        video_filename: "video1.strm".to_string(),
        should_schedule: false,
        schedule: None,
        user_agent: "TestAgent".to_string(),
        threads: 2,
        cache_path: "/config".to_string(),
        data_source: DataSource::Imdb,
        imdb_rate_limit: "30/minute".to_string(),
        tmdb_rate_limit: "50/second".to_string(),
        tmdb_api_key: Some("ham-and-cheese-sandwich".to_string()),
        imdb_id_regex: r"\{imdb-(tt\d+)}".to_string(),
        tmdb_id_regex: r"\{tmdb-(\d+)}".to_string(),
        tv_folders: vec!["shows".to_string()],
        movie_folders: vec!["movies".to_string()],
    }
}

#[test]
fn test_client_initialization_follows_data_source() {
    let mut config = base_config();
    let (imdb, tmdb) = initialize_request_clients(&config).unwrap();
    assert_eq!(imdb.base_url(), "https://www.imdb.com");
    assert!(tmdb.is_none());
    assert_eq!(
        imdb.request_url("/title/tt1/videogallery/?sort=date,asc"),
        "https://www.imdb.com/title/tt1/videogallery/?sort=date,asc"
    );

    config.data_source = DataSource::Tmdb;
    let (_, tmdb) = initialize_request_clients(&config).unwrap();
    let tmdb = tmdb.unwrap();
    assert_eq!(tmdb.base_url(), "https://api.themoviedb.org/3");

    config.tmdb_api_key = None;
    assert_eq!(
        initialize_request_clients(&config).unwrap_err(),
        ClientInitError::MissingApiKey
    );

    config.tmdb_api_key = Some("ham-and-cheese-sandwich".to_string());
    config.tmdb_rate_limit = "fast".to_string();
    assert!(matches!(
        initialize_request_clients(&config).unwrap_err(),
        ClientInitError::BadQuota(_)
    ));
}
