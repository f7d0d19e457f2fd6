//! What the daemon reports to the command line.

use vstd::prelude::*;

verus! {

/// The track being played, and how far into it playback is.
#[derive(Clone, Debug, PartialEq)]
pub struct PlayingTrack {
    pub id: u64,
    pub position_ms: u64,
    pub title: String,
    pub album: String,
    pub artists: String,
    pub length: Option<i64>,
}

/// The state of the daemon: where it is logged in, what it plays, and how
/// its sync went.
#[derive(Clone, Debug, PartialEq)]
pub struct Status {
    pub server_url: String,
    pub user_name: Option<String>,
    pub playing_track: Option<PlayingTrack>,
    pub sync_in_progress: bool,
    pub last_sync_at: Option<u64>,
    pub last_sync_error: Option<String>,
}

} // verus!
