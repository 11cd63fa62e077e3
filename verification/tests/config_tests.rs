use trailerfin::configuration::AppConfig;
use trailerfin::configuration::ConfigError;
use trailerfin::configuration::ConfigurationProvider;
use trailerfin::configuration::DataSource;

fn valid_config() -> AppConfig {
    AppConfig {
        scan_path: "/mnt/media/scan-me".to_string(),
        video_filename: "test.strm".to_string(),
        should_schedule: false,
        schedule: Some("0 0 * * *".to_string()),
        user_agent: "TestAgent/1.0".to_string(),
        threads: 4,
        cache_path: "/config".to_string(),
        data_source: DataSource::Imdb,
        imdb_rate_limit: "30/minute".to_string(),
        tmdb_rate_limit: "50/second".to_string(),
        tmdb_api_key: None,
        imdb_id_regex: r"\{imdb-(tt\d+)}".to_string(),
        tmdb_id_regex: r"\{tmdb-(\d+)}".to_string(),
        tv_folders: vec!["Tv Shows".to_string(), "Kids TV".to_string()],
        movie_folders: vec!["Movies".to_string(), "Kids".to_string()],
    }
}

#[test]
fn test_valid_env_config_loads_successfully() {
    let config = ConfigurationProvider::load_config(valid_config()).expect(
        "Expected config to load",
    );
    assert_eq!(config.video_filename, "test.strm");
    assert_eq!(config.user_agent, "TestAgent/1.0");
    assert_eq!(config.threads, 4);
    assert_eq!(config.tv_folders.len(), 2);
    assert_eq!(config.tv_folders[0], "Tv Shows");
    assert_eq!(config.tv_folders[1], "Kids TV");
    assert_eq!(config.movie_folders.len(), 2);
    assert_eq!(config.movie_folders[0], "Movies");
    assert_eq!(config.movie_folders[1], "Kids");
    assert!(!config.should_schedule);
}

#[test]
fn test_threads_less_than_one_fails() {
    let mut config = valid_config();
    config.threads = 0;
    assert_eq!(
        ConfigurationProvider::load_config(config).unwrap_err(),
        ConfigError::ThreadsTooLow
    );
}

#[test]
fn test_empty_scan_path_fails() {
    let mut config = valid_config();
    config.scan_path = String::new();
    assert_eq!(
        ConfigurationProvider::load_config(config).unwrap_err(),
        ConfigError::ScanPathEmpty
    );
}

#[test]
fn test_empty_video_filename_fails() {
    let mut config = valid_config();
    config.video_filename = String::new();
    assert_eq!(
        ConfigurationProvider::load_config(config).unwrap_err(),
        ConfigError::VideoFilenameEmpty
    );
}

#[test]
fn test_schedule_required_when_enabled() {
    let mut config = valid_config();
    config.should_schedule = true;
    config.schedule = Some("".to_string());
    assert_eq!(
        ConfigurationProvider::load_config(config).unwrap_err(),
        ConfigError::ScheduleMissing
    );
}

#[test]
fn test_api_key_required_for_secondary_catalog() {
    let mut config = valid_config();
    config.data_source = DataSource::Tmdb;
    config.tmdb_api_key = None;
    assert_eq!(
        ConfigurationProvider::load_config(config).unwrap_err(),
        ConfigError::TmdbApiKeyMissing
    );
}

#[test]
fn test_some_folder_list_required() {
    let mut config = valid_config();
    config.tv_folders = Vec::new();
    config.movie_folders = Vec::new();
    assert_eq!(
        ConfigurationProvider::load_config(config).unwrap_err(),
        ConfigError::NoFoldersConfigured
    );
}

#[test]
fn test_invalid_imdb_regex_fails() {
    let mut config = valid_config();
    config.imdb_id_regex = "[invalid regex".to_string();
    assert_eq!(
        ConfigurationProvider::load_config(config).unwrap_err(),
        ConfigError::InvalidImdbIdPattern
    );
}

#[test]
fn test_invalid_tmdb_regex_fails() {
    let mut config = valid_config();
    config.tmdb_id_regex = "[invalid regex".to_string();
    assert_eq!(
        ConfigurationProvider::load_config(config).unwrap_err(),
        ConfigError::InvalidTmdbIdPattern
    );
}

#[test]
fn test_custom_regex_patterns_work() {
    let mut config = valid_config();
    config.imdb_id_regex = r"\[imdb-(tt\d+)\]".to_string();
    config.tmdb_id_regex = r"\[tmdb-(\d+)\]".to_string();
    let config = ConfigurationProvider::load_config(config).unwrap();
    assert_eq!(config.imdb_id_regex, r"\[imdb-(tt\d+)\]");
    assert_eq!(config.tmdb_id_regex, r"\[tmdb-(\d+)\]");
}

#[test]
fn test_reduced_config_validates() {
    let config = trailerfin::config::AppConfig {
        scan_path: "/mnt/media".to_string(),
        video_filename: "video1.strm".to_string(),
        should_schedule: false,
        schedule: None,
        user_agent: "TestAgent".to_string(),
        threads: 1,
    };
    assert!(trailerfin::config::load_config(config).is_ok());
}

#[test]
fn test_reduced_config_rejects_blank_user_agent() {
    let config = trailerfin::config::AppConfig {
        scan_path: "/mnt/media".to_string(),
        video_filename: "video1.strm".to_string(),
        should_schedule: false,
        schedule: None,
        user_agent: "  ".to_string(),
        threads: 1,
    };
    assert_eq!(
        trailerfin::config::load_config(config).unwrap_err(),
        trailerfin::config::ConfigError::UserAgentEmpty
    );
}
