//! The decisions of the daemon's request handlers: who is logged in, whether
//! a sync may start, what a finished sync leaves behind, and the status it
//! reports.

use vstd::prelude::*;
use vstd::string::*;

use crate::api::AuthTokenWithToken;
use crate::communication::{PlayingTrack, Status};

verus! {

/// The login the daemon keeps: the server and the token it was given.
#[derive(Clone, Debug, PartialEq)]
pub struct StoredToken {
    pub server_url: String,
    pub token: AuthTokenWithToken,
}

/// The answer to a request that needs a login when there is none.
pub open spec fn not_logged_in() -> Seq<char> {
    "Not logged in"@
}

/// The server and the secret token of the login, to play or sync with.
pub fn credentials(state: &Option<StoredToken>) -> (r: Result<(String, String), String>)
    ensures
        state is None ==> (r matches Err(e) && e@ == not_logged_in()),
        state matches Some(s) ==> r == Ok::<(String, String), String>((s.server_url, s.token.token)),
{
    match state {
        Some(s) => Ok((s.server_url.clone(), s.token.token.clone())),
        None => Err(String::from_str("Not logged in")),
    }
}

/// The server and the user id of the login, to report the status with.
pub fn session_user(state: &Option<StoredToken>) -> (r: Result<(String, u64), String>)
    ensures
        state is None ==> (r matches Err(e) && e@ == not_logged_in()),
        state matches Some(s) ==> r == Ok::<(String, u64), String>((s.server_url, s.token.user_id)),
{
    match state {
        Some(s) => Ok((s.server_url.clone(), s.token.user_id)),
        None => Err(String::from_str("Not logged in")),
    }
}

/// How the daemon's sync went: whether one runs, when the last one
/// completed (in seconds since the epoch), and why the last one failed.
#[derive(Clone, Debug, PartialEq)]
pub struct SyncState {
    pub in_progress: bool,
    pub last_completed_at: Option<u64>,
    pub last_error: Option<String>,
}

/// The answer to a sync request while a sync runs.
pub open spec fn sync_already_running() -> Seq<char> {
    "Sync already in progress"@
}

/// The state after a sync that finished at `now_ms` with `result`: none
/// runs; a success records the time in seconds and clears the error; a
/// failure records its error and keeps the time of the last success.
pub open spec fn after_sync(s: SyncState, result: Result<(), String>, now_ms: i64) -> SyncState {
    match result {
        Ok(_) => SyncState {
            in_progress: false,
            last_completed_at: Some(((now_ms as u64) / 1000) as u64),
            last_error: None,
        },
        Err(e) => SyncState { in_progress: false, last_completed_at: s.last_completed_at, last_error: Some(e) },
    }
}

impl SyncState {
    /// No sync has run.
    pub fn new() -> (s: SyncState)
        ensures
            !s.in_progress,
            s.last_completed_at is None,
            s.last_error is None,
    {
        SyncState { in_progress: false, last_completed_at: None, last_error: None }
    }

    /// Starts a sync, unless one runs; then the state is left as it is.
    pub fn begin(&mut self) -> (r: Result<(), String>)
        ensures
            old(self).in_progress ==> (r matches Err(e) && e@ == sync_already_running() && *final(self) == *old(self)),
            !old(self).in_progress ==> r is Ok && final(self).in_progress
                && final(self).last_completed_at == old(self).last_completed_at
                && final(self).last_error == old(self).last_error,
    {
        if self.in_progress {
            return Err(String::from_str("Sync already in progress"));
        }
        self.in_progress = true;
        Ok(())
    }

    /// Records how a sync that finished at `now_ms` went.
    pub fn finish(&mut self, result: Result<(), String>, now_ms: i64)
        ensures
            *final(self) == after_sync(*old(self), result, now_ms),
    {
        self.in_progress = false;
        match result {
            Ok(()) => {
                self.last_completed_at = Some((now_ms as u64) / 1000);
                self.last_error = None;
            },
            Err(e) => {
                self.last_error = Some(e);
            },
        }
    }
}

/// A sync request: refused with "Not logged in" when there is no login,
/// refused with "Sync already in progress" while a sync runs (the state is
/// then left as it is); else the sync is marked as running and the server
/// and token to sync with are handed back.
pub fn start_sync(state: &Option<StoredToken>, sync: &mut SyncState) -> (r: Result<(String, String), String>)
    ensures
        state is None ==> (r matches Err(e) && e@ == not_logged_in() && *final(sync) == *old(sync)),
        state is Some && old(sync).in_progress ==> (r matches Err(e) && e@ == sync_already_running()
            && *final(sync) == *old(sync)),
        state matches Some(s) ==> !old(sync).in_progress ==> {
            &&& r == Ok::<(String, String), String>((s.server_url, s.token.token))
            &&& final(sync).in_progress
            &&& final(sync).last_completed_at == old(sync).last_completed_at
            &&& final(sync).last_error == old(sync).last_error
        },
{
    let creds = credentials(state);
    match creds {
        Err(e) => Err(e),
        Ok(c) => match sync.begin() {
            Ok(()) => Ok(c),
            Err(e) => Err(e),
        },
    }
}

/// A sync request while none runs is taken; one while a sync runs is
/// refused and changes nothing; whatever the outcome, a finished sync
/// leaves none running, so the next request is taken again.
pub proof fn lemma_sync_requests(s: SyncState, result: Result<(), String>, now_ms: i64)
    ensures
        !after_sync(s, result, now_ms).in_progress,
        result is Ok ==> after_sync(s, result, now_ms).last_error is None,
        result matches Err(e) ==> after_sync(s, result, now_ms).last_error == Some(e),
{
}

/// The status the daemon reports.
pub fn status_of(
    server_url: String,
    user_name: Option<String>,
    playing_track: Option<PlayingTrack>,
    sync: &SyncState,
) -> (r: Status)
    ensures
        r.server_url == server_url,
        r.user_name == user_name,
        r.playing_track == playing_track,
        r.sync_in_progress == sync.in_progress,
        r.last_sync_at == sync.last_completed_at,
        r.last_sync_error == sync.last_error,
{
    let last_sync_error = match &sync.last_error {
        Some(e) => Some(e.clone()),
        None => None,
    };
    Status {
        server_url,
        user_name,
        playing_track,
        sync_in_progress: sync.in_progress,
        last_sync_at: sync.last_completed_at,
        last_sync_error,
    }
}

} // verus!
