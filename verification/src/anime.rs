//! Data model of the anime-tracking feature. Extraction from live pages
//! is the shell's business; the core only defines the records.

use vstd::prelude::*;

verus! {

/// Tools around anime pages. Stateless.
pub struct AnimeTools;

/// What is known of one series or episode page.
#[derive(Debug, Clone)]
pub struct AnimeInfo {
    pub title: String,
    pub episode: Option<u32>,
    pub source: String,
    pub quality: String,
}

/// Where a viewer stands in a series.
#[derive(Debug, Clone)]
pub struct WatchProgress {
    pub anime: AnimeInfo,
    pub current_episode: u32,
    pub total_episodes: Option<u32>,
    pub last_watched: String,
}

} // verus!
