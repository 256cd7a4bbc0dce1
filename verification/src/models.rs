//! The data that the service's parts hand to each other.
//!
//! Positions, durations and speeds are floating-point numbers on the wire. The
//! rules only carry them along, so the types leave their representation open as
//! `N`.

use vstd::prelude::*;

verus! {

/// What one device of a user is playing.
#[derive(Debug, PartialEq)]
pub struct NowPlayingSnapshot<N> {
    pub device_id: String,
    pub device_name: String,
    pub device_type: String,
    pub episode_id: i32,
    pub is_youtube: bool,
    pub title: String,
    pub artwork_url: String,
    pub position_sec: N,
    pub duration_sec: N,
    pub playing: bool,
    pub speed: N,
    /// Seconds since the epoch, stamped by the server when the snapshot is
    /// stored.
    pub updated_at: i64,
}

/// The answer to a request for a user's devices.
#[derive(Debug, PartialEq)]
pub struct NowPlayingDevicesResponse<N> {
    pub devices: Vec<NowPlayingSnapshot<N>>,
}

/// What a notification says about an episode and its podcast.
#[derive(Debug, PartialEq)]
pub struct EpisodeNotificationInfo {
    pub title: String,
    pub show_name: String,
    /// Length in seconds; zero or less where it is not known.
    pub duration: i32,
    pub episode_id: i32,
    pub episode_description: Option<String>,
    pub episode_url: Option<String>,
    pub episode_artwork: Option<String>,
    pub episode_pub_date: Option<String>,
    pub episode_guid: Option<String>,
    pub is_video: bool,
    pub is_youtube: bool,
    pub podcast_id: i32,
    pub podcast_author: Option<String>,
    pub podcast_artwork: Option<String>,
    pub podcast_feed_url: Option<String>,
    pub podcast_website_url: Option<String>,
    pub podcast_categories: Option<String>,
    pub podcast_explicit: Option<bool>,
}

impl Clone for EpisodeNotificationInfo {
    fn clone(&self) -> (r: Self)
        ensures
            r == *self,
    {
        EpisodeNotificationInfo {
            title: self.title.clone(),
            show_name: self.show_name.clone(),
            duration: self.duration,
            episode_id: self.episode_id,
            episode_description: self.episode_description.clone(),
            episode_url: self.episode_url.clone(),
            episode_artwork: self.episode_artwork.clone(),
            episode_pub_date: self.episode_pub_date.clone(),
            episode_guid: self.episode_guid.clone(),
            is_video: self.is_video,
            is_youtube: self.is_youtube,
            podcast_id: self.podcast_id,
            podcast_author: self.podcast_author.clone(),
            podcast_artwork: self.podcast_artwork.clone(),
            podcast_feed_url: self.podcast_feed_url.clone(),
            podcast_website_url: self.podcast_website_url.clone(),
            podcast_categories: self.podcast_categories.clone(),
            podcast_explicit: self.podcast_explicit,
        }
    }
}

} // verus!
