//! Application configuration and its validation rules. Reading the
//! environment is a caller's concern; validation here decides, for a
//! fully assembled configuration, whether scanning may start, and
//! names the first rule a rejected configuration breaks. Checks that
//! need the filesystem (the scan and cache paths existing) also stay
//! with the caller.
use crate::pattern::IdPattern;
use crate::pattern::regex_compiles;
use crate::text::trim_spec;
use vstd::prelude::*;
use vstd::string::StrSliceExecFns;
use vstd::utf8::encode_utf8;

verus! {

/// Which catalog the title directories name: the primary catalog
/// directly, or the secondary catalog resolved through the cache.
#[derive(Debug, Clone, Copy, PartialEq, Eq, Structural)]
pub enum DataSource {
    Imdb,
    Tmdb,
}

impl Default for DataSource {
    /// The default data source is the primary catalog.
    fn default() -> (r: Self)
        ensures
            r == DataSource::Imdb,
    {
        DataSource::Imdb
    }
}

/// The application configuration, fully assembled.
#[derive(Debug, Clone)]
pub struct AppConfig {
    pub scan_path: String,
    pub video_filename: String,
    pub should_schedule: bool,
    pub schedule: Option<String>,
    pub user_agent: String,
    pub threads: usize,
    pub cache_path: String,
    pub data_source: DataSource,
    pub imdb_rate_limit: String,
    pub tmdb_rate_limit: String,
    pub tmdb_api_key: Option<String>,
    pub imdb_id_regex: String,
    pub tmdb_id_regex: String,
    pub tv_folders: Vec<String>,
    pub movie_folders: Vec<String>,
}

/// The first rule a rejected configuration breaks.
#[derive(Debug, Clone, Copy, PartialEq, Eq, Structural)]
pub enum ConfigError {
    ThreadsTooLow,
    ScanPathEmpty,
    UserAgentEmpty,
    VideoFilenameEmpty,
    ScheduleMissing,
    TmdbApiKeyMissing,
    CachePathEmpty,
    NoFoldersConfigured,
    InvalidImdbIdPattern,
    InvalidTmdbIdPattern,
}

/// The string is empty once surrounding whitespace is removed.
pub open spec fn blank(s: Seq<char>) -> bool {
    trim_spec(encode_utf8(s)).len() == 0
}

/// An optional string that is absent or blank.
pub open spec fn absent_or_blank(s: Option<Seq<char>>) -> bool {
    match s {
        None => true,
        Some(t) => blank(t),
    }
}

/// The first validation rule `c` breaks, in the order the rules are
/// checked, or nothing for an acceptable configuration.
pub open spec fn config_error_spec(c: AppConfig) -> Option<ConfigError> {
    if c.threads < 1 {
        Some(ConfigError::ThreadsTooLow)
    } else if c.scan_path@.len() == 0 {
        Some(ConfigError::ScanPathEmpty)
    } else if blank(c.user_agent@) {
        Some(ConfigError::UserAgentEmpty)
    } else if blank(c.video_filename@) {
        Some(ConfigError::VideoFilenameEmpty)
    } else if c.should_schedule && absent_or_blank(
        match c.schedule {
            None => None,
            Some(s) => Some(s@),
        },
    ) {
        Some(ConfigError::ScheduleMissing)
    } else if c.data_source == DataSource::Tmdb && absent_or_blank(
        match c.tmdb_api_key {
            None => None,
            Some(s) => Some(s@),
        },
    ) {
        Some(ConfigError::TmdbApiKeyMissing)
    } else if blank(c.cache_path@) {
        Some(ConfigError::CachePathEmpty)
    } else if c.tv_folders@.len() == 0 && c.movie_folders@.len() == 0 {
        Some(ConfigError::NoFoldersConfigured)
    } else if !regex_compiles(c.imdb_id_regex@) {
        Some(ConfigError::InvalidImdbIdPattern)
    } else if !regex_compiles(c.tmdb_id_regex@) {
        Some(ConfigError::InvalidTmdbIdPattern)
    } else {
        None
    }
}

/// Whether the string is blank: empty once trimmed.
pub fn is_blank(s: &str) -> (r: bool)
    ensures
        r == blank(s@),
{
    let bytes = s.as_bytes_vec();
    let t = crate::text::trim_bytes(&bytes);
    t.len() == 0
}

/// Loads the configuration: the assembled values pass or fail the
/// validation rules as one unit.
#[derive(Debug)]
pub struct ConfigurationProvider;

impl ConfigurationProvider {
    /// Validate an assembled configuration. Returns it unchanged when
    /// every rule holds; otherwise reports the first rule broken:
    /// threads at least one, a scan path, a non-blank user agent and
    /// video filename, a schedule when scheduling is on, an API key
    /// when the secondary catalog is the source, a cache path, at
    /// least one configured folder list, and two compilable
    /// identifier patterns.
    pub fn load_config(config: AppConfig) -> (r: Result<AppConfig, ConfigError>)
        ensures
            match r {
                Ok(out) => config_error_spec(config) is None && out == config,
                Err(e) => config_error_spec(config) == Some(e),
            },
    {
        if config.threads < 1 {
            return Err(ConfigError::ThreadsTooLow);
        }
        if config.scan_path.as_str().is_empty() {
            return Err(ConfigError::ScanPathEmpty);
        }
        if is_blank(config.user_agent.as_str()) {
            return Err(ConfigError::UserAgentEmpty);
        }
        if is_blank(config.video_filename.as_str()) {
            return Err(ConfigError::VideoFilenameEmpty);
        }
        if config.should_schedule {
            let missing = match &config.schedule {
                None => true,
                Some(s) => is_blank(s.as_str()),
            };
            if missing {
                return Err(ConfigError::ScheduleMissing);
            }
        }
        if config.data_source == DataSource::Tmdb {
            let missing = match &config.tmdb_api_key {
                None => true,
                Some(s) => is_blank(s.as_str()),
            };
            if missing {
                return Err(ConfigError::TmdbApiKeyMissing);
            }
        }
        if is_blank(config.cache_path.as_str()) {
            return Err(ConfigError::CachePathEmpty);
        }
        if config.tv_folders.len() == 0 && config.movie_folders.len() == 0 {
            return Err(ConfigError::NoFoldersConfigured);
        }
        match IdPattern::compile(config.imdb_id_regex.as_str()) {
            Some(_) => {},
            None => {
                return Err(ConfigError::InvalidImdbIdPattern);
            },
        }
        match IdPattern::compile(config.tmdb_id_regex.as_str()) {
            Some(_) => {},
            None => {
                return Err(ConfigError::InvalidTmdbIdPattern);
            },
        }
        Ok(config)
    }
}

} // verus!
