//! What a media player reports of itself.

use vstd::prelude::*;
use vstd::std_specs::convert::FromSpecImpl;
use crate::text::str_equal;

verus! {

/// Whether a player plays.
#[derive(Debug, Clone, Copy, PartialEq, Eq, Structural)]
pub enum PlaybackStatus {
    Playing,
    Paused,
    Stopped,
}

impl PlaybackStatus {
    /// The status that a player's report names. A report that names none
    /// means that the player has stopped.
    pub open spec fn of(name: Seq<char>) -> PlaybackStatus {
        if name == "Playing"@ {
            PlaybackStatus::Playing
        } else if name == "Paused"@ {
            PlaybackStatus::Paused
        } else {
            PlaybackStatus::Stopped
        }
    }
}

impl<'a> From<&'a str> for PlaybackStatus {
    fn from(s: &'a str) -> (r: PlaybackStatus) {
        if str_equal(s, "Playing") {
            PlaybackStatus::Playing
        } else if str_equal(s, "Paused") {
            PlaybackStatus::Paused
        } else {
            PlaybackStatus::Stopped
        }
    }
}

impl<'a> FromSpecImpl<&'a str> for PlaybackStatus {
    open spec fn obeys_from_spec() -> bool {
        true
    }

    open spec fn from_spec(s: &'a str) -> PlaybackStatus {
        PlaybackStatus::of(s@)
    }
}

/// What is playing.
#[derive(Debug)]
pub struct MediaInfo {
    pub title: String,
    pub artist: String,
    pub album: String,
    pub art_url: Option<String>,
    /// The length of the track in microseconds.
    pub length_us: i64,
    /// The position in the track in microseconds.
    pub position_us: i64,
    pub status: Option<PlaybackStatus>,
    pub player_name: String,
}

impl Default for MediaInfo {
    fn default() -> (r: MediaInfo)
        ensures
            r.title@.len() == 0,
            r.artist@.len() == 0,
            r.album@.len() == 0,
            r.art_url is None,
            r.length_us == 0,
            r.position_us == 0,
            r.status is None,
            r.player_name@.len() == 0,
    {
        MediaInfo {
            title: String::new(),
            artist: String::new(),
            album: String::new(),
            art_url: None,
            length_us: 0,
            position_us: 0,
            status: None,
            player_name: String::new(),
        }
    }
}

} // verus!
