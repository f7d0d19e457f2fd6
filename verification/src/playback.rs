//! The decisions of the audio thread: how it waits for commands, what a
//! play command or a quiet tick does to what it plays, and how a refused
//! play request is answered.

use vstd::prelude::*;
use vstd::string::*;

verus! {

/// How long the audio thread waits for a command while it plays, before it
/// checks whether the track has ended.
pub const POLL_INTERVAL_MS: u64 = 500;

/// How the audio thread waits for its next command.
#[derive(Clone, Copy, Debug, PartialEq, Eq, Structural)]
pub enum WaitMode {
    /// Wait at most this many milliseconds.
    Timeout(u64),
    /// Wait until a command comes or every sender is gone.
    Block,
}

/// What the audio thread plays: whether it plays, and the track it plays.
#[derive(Clone, Copy, Debug, PartialEq, Eq, Structural)]
pub struct PlayerState {
    pub playing: bool,
    pub now_playing: Option<u64>,
}

impl PlayerState {
    /// The thread plays exactly when it holds a track.
    pub open spec fn wf(&self) -> bool {
        self.playing == self.now_playing is Some
    }

    /// Nothing plays.
    pub fn new() -> (s: PlayerState)
        ensures
            s.wf(),
            !s.playing,
            s.now_playing is None,
    {
        PlayerState { playing: false, now_playing: None }
    }

    /// While it plays, the thread waits for a command no longer than the
    /// poll interval; otherwise it waits until one comes.
    pub fn wait_mode(&self) -> (m: WaitMode)
        ensures
            self.playing ==> m == WaitMode::Timeout(POLL_INTERVAL_MS),
            !self.playing ==> m == WaitMode::Block,
    {
        if self.playing {
            WaitMode::Timeout(POLL_INTERVAL_MS)
        } else {
            WaitMode::Block
        }
    }

    /// A command to play `track_id`: the track playing before, if any, is
    /// returned to be stopped; then the new track plays if it could be
    /// started, and nothing plays if it could not.
    pub fn on_play(&mut self, track_id: u64, started: bool) -> (previous: Option<u64>)
        ensures
            previous == old(self).now_playing,
            started ==> final(self).playing && final(self).now_playing == Some(track_id),
            !started ==> !final(self).playing && final(self).now_playing is None,
            final(self).wf(),
    {
        let previous = self.now_playing;
        if started {
            self.now_playing = Some(track_id);
            self.playing = true;
        } else {
            self.now_playing = None;
            self.playing = false;
        }
        previous
    }

    /// No command came within the poll interval: when the track held has
    /// played to its end, the thread lets it go and stops playing;
    /// otherwise nothing changes.
    pub fn on_tick(&mut self, ended: bool)
        requires
            old(self).wf(),
        ensures
            final(self).wf(),
            old(self).now_playing is Some && ended ==> !final(self).playing && final(self).now_playing is None,
            !(old(self).now_playing is Some && ended) ==> *final(self) == *old(self),
    {
        if self.now_playing.is_some() && ended {
            self.now_playing = None;
            self.playing = false;
        }
    }
}

/// However commands and ticks come, the audio thread plays exactly when it
/// holds a track.
pub proof fn lemma_player_invariant(s: PlayerState, track_id: u64, started: bool, ended: bool)
    requires
        s.wf(),
    ensures
        (PlayerState { playing: started, now_playing: if started { Some(track_id) } else { None } }).wf(),
        (if s.now_playing is Some && ended { PlayerState { playing: false, now_playing: None } } else { s }).wf(),
{
}

/// What became of a play request handed to the audio thread.
#[derive(Clone, Copy, Debug, PartialEq, Eq, Structural)]
pub enum Handoff {
    /// The thread took it.
    Sent,
    /// The thread is busy with the request before.
    Full,
    /// The thread is gone.
    Disconnected,
}

/// The answer to a play request, by what became of it.
pub fn handoff_result(h: Handoff) -> (r: Result<(), String>)
    ensures
        h == Handoff::Sent ==> r is Ok,
        h == Handoff::Full ==> (r matches Err(e) && e@ == "playback busy"@),
        h == Handoff::Disconnected ==> (r matches Err(e) && e@ == "audio thread is gone"@),
{
    match h {
        Handoff::Sent => Ok(()),
        Handoff::Full => Err(String::from_str("playback busy")),
        Handoff::Disconnected => Err(String::from_str("audio thread is gone")),
    }
}

} // verus!
