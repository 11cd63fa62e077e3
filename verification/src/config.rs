//! The reduced configuration of the flat, single-catalog pipeline:
//! only a scan path, artifact filename, scheduling switch, user agent
//! and thread budget. Validation mirrors `crate::configuration` but
//! checks this shorter rule list.
use crate::configuration::absent_or_blank;
use crate::configuration::blank;
use crate::configuration::is_blank;
use vstd::prelude::*;

verus! {

/// The reduced configuration.
#[derive(Debug, Clone)]
pub struct AppConfig {
    pub scan_path: String,
    pub video_filename: String,
    pub should_schedule: bool,
    pub schedule: Option<String>,
    pub user_agent: String,
    pub threads: usize,
}

/// The first rule a rejected reduced configuration breaks.
#[derive(Debug, Clone, Copy, PartialEq, Eq, Structural)]
pub enum ConfigError {
    ThreadsTooLow,
    ScanPathEmpty,
    UserAgentEmpty,
    VideoFilenameEmpty,
    ScheduleMissing,
}

/// The first validation rule `c` breaks, or nothing.
pub open spec fn config_error_spec(c: AppConfig) -> Option<ConfigError> {
    if c.threads < 1 {
        Some(ConfigError::ThreadsTooLow)
    } else if c.scan_path@.len() == 0 {
        Some(ConfigError::ScanPathEmpty)
    } else if blank(c.user_agent@) {
        Some(ConfigError::UserAgentEmpty)
    } else if blank(c.video_filename@) {
        Some(ConfigError::VideoFilenameEmpty)
    } else if c.should_schedule && absent_or_blank(
        match c.schedule {
            None => None,
            Some(s) => Some(s@),
        },
    ) {
        Some(ConfigError::ScheduleMissing)
    } else {
        None
    }
}

/// Validate an assembled reduced configuration: threads at least one,
/// a scan path, a non-blank user agent and video filename, and a
/// schedule when scheduling is on. Returns it unchanged when every
/// rule holds, else the first rule broken.
pub fn load_config(config: AppConfig) -> (r: Result<AppConfig, ConfigError>)
    ensures
        match r {
            Ok(out) => config_error_spec(config) is None && out == config,
            Err(e) => config_error_spec(config) == Some(e),
        },
{
    if config.threads < 1 {
        return Err(ConfigError::ThreadsTooLow);
    }
    if config.scan_path.as_str().is_empty() {
        return Err(ConfigError::ScanPathEmpty);
    }
    if is_blank(config.user_agent.as_str()) {
        return Err(ConfigError::UserAgentEmpty);
    }
    if is_blank(config.video_filename.as_str()) {
        return Err(ConfigError::VideoFilenameEmpty);
    }
    if config.should_schedule {
        let missing = match &config.schedule {
            None => true,
            Some(s) => is_blank(s.as_str()),
        };
        if missing {
            return Err(ConfigError::ScheduleMissing);
        }
    }
    Ok(config)
}

} // verus!
