//! An unattended media-library companion's core: scan a directory tree
//! for per-title folders, resolve each title to its canonical catalog
//! id — directly from the folder name, or from a secondary-catalog id
//! through a durable cache — scrape the catalog's pages for a
//! trailer's direct playback URL, and describe the pointer artifact to
//! write. Freshness, anchor choice, quality tie-breaks, the quota
//! grammar, response classification, bounded fan-out and overlap
//! prevention are all decided and verified here; the surrounding
//! process performs the filesystem, network and timer work.
pub mod cache;
pub mod config;
pub mod configuration;
pub mod dispatch;
pub mod error;
pub mod freshness;
pub mod pattern;
pub mod quota;
pub mod request_clients;
pub mod scheduler;
pub mod scrape;
pub mod scrapers;
pub mod text;
