//! The text the command line shows for the daemon's answers.

use vstd::prelude::*;
use vstd::string::*;

use crate::communication::{PlayingTrack, Status};
use crate::text::{all_digits, decimal, lemma_pad2_two_digits, numeral_value, pad2, push_decimal};

verus! {

/// A duration of `secs` seconds as `h:mm:ss`, or `m:ss` under an hour.
pub open spec fn duration_text(secs: nat) -> Seq<char> {
    let h = secs / 3600;
    let m = (secs % 3600) / 60;
    let s = secs % 60;
    if h > 0 {
        decimal(h) + ":"@ + pad2(m) + ":"@ + pad2(s)
    } else {
        decimal(m) + ":"@ + pad2(s)
    }
}

/// Exactly two decimal digits that read as `v`.
pub open spec fn two_digits(p: Seq<char>, v: nat) -> bool {
    p.len() == 2 && all_digits(p) && numeral_value(p) == v
}

/// A duration under an hour reads as the minutes, a colon and the seconds
/// in two digits; from an hour on, as the hours, a colon, the minutes in
/// two digits, a colon and the seconds in two digits.
pub proof fn lemma_duration_text(secs: nat)
    ensures
        secs < 3600 ==> exists|ss: Seq<char>|
            #[trigger] two_digits(ss, secs % 60) && duration_text(secs) == decimal(secs / 60) + ":"@ + ss,
        secs >= 3600 ==> exists|mm: Seq<char>, ss: Seq<char>|
            #[trigger] two_digits(mm, (secs % 3600) / 60) && #[trigger] two_digits(ss, secs % 60)
                && duration_text(secs) == decimal(secs / 3600) + ":"@ + mm + ":"@ + ss,
{
    lemma_pad2_two_digits(secs % 60);
    lemma_pad2_two_digits((secs % 3600) / 60);
    assert(two_digits(pad2(secs % 60), secs % 60));
    assert(two_digits(pad2((secs % 3600) / 60), (secs % 3600) / 60));
    if secs < 3600 {
        assert(secs % 3600 == secs);
        assert(duration_text(secs) == decimal(secs / 60) + ":"@ + pad2(secs % 60));
    }
}

/// Appends `n`, padded with zeros to two digits.
fn push_pad2(s: &mut String, n: u64)
    ensures
        final(s)@ == old(s)@ + pad2(n as nat),
{
    if n < 10 {
        s.push('0');
    }
    push_decimal(s, n);
    assert(s@ =~= old(s)@ + pad2(n as nat));
}

/// A duration of `secs` seconds as `h:mm:ss`, or `m:ss` under an hour.
pub fn format_duration(secs: u64) -> (r: String)
    ensures
        r@ == duration_text(secs as nat),
{
    let hours = secs / 3600;
    let minutes = (secs % 3600) / 60;
    let seconds = secs % 60;
    let mut r = String::new();
    if hours > 0 {
        push_decimal(&mut r, hours);
        r.append(":");
        push_pad2(&mut r, minutes);
        r.append(":");
        push_pad2(&mut r, seconds);
    } else {
        push_decimal(&mut r, minutes);
        r.append(":");
        push_pad2(&mut r, seconds);
    }
    assert(r@ =~= duration_text(secs as nat));
    r
}

/// The length of a track as shown: its duration, or `?:??` when unknown.
pub open spec fn length_text(length: Option<i64>) -> Seq<char> {
    match length {
        Some(s) => duration_text((s as u64) as nat),
        None => "?:??"@,
    }
}

/// The lines that show a playing track: title, artists, album, and how far
/// playback is.
pub open spec fn playing_track_text(pt: PlayingTrack) -> Seq<Seq<char>> {
    seq![
        "Playing: "@ + pt.title@,
        "  by "@ + pt.artists@,
        "  on "@ + pt.album@,
        "  ("@ + duration_text((pt.position_ms / 1000) as nat) + " / "@ + length_text(pt.length) + ")"@,
    ]
}

/// The characters of each of a list of texts.
pub open spec fn texts(v: Seq<String>) -> Seq<Seq<char>> {
    v.map_values(|s: String| s@)
}

/// A new text: `a` followed by `b`.
fn joined(a: &str, b: &str) -> (r: String)
    ensures
        r@ == a@ + b@,
{
    let mut r = String::new();
    r.append(a);
    r.append(b);
    assert(r@ =~= a@ + b@);
    r
}

/// The lines that show a playing track.
pub fn playing_track_lines(pt: &PlayingTrack) -> (r: Vec<String>)
    ensures
        texts(r@) == playing_track_text(*pt),
{
    let mut r: Vec<String> = Vec::new();
    r.push(joined("Playing: ", pt.title.as_str()));
    r.push(joined("  by ", pt.artists.as_str()));
    r.push(joined("  on ", pt.album.as_str()));
    let pos = format_duration(pt.position_ms / 1000);
    let total = match pt.length {
        Some(s) => format_duration(s as u64),
        None => String::from_str("?:??"),
    };
    let mut last = String::new();
    last.append("  (");
    last.append(pos.as_str());
    last.append(" / ");
    last.append(total.as_str());
    last.append(")");
    r.push(last);
    assert(texts(r@) =~= playing_track_text(*pt));
    r
}

/// The line that tells how the sync went.
pub open spec fn sync_text(status: Status) -> Seq<char> {
    if status.sync_in_progress {
        "Sync: in progress"@
    } else if status.last_sync_error is Some {
        "Last sync failed: "@ + (status.last_sync_error->0)@
    } else if status.last_sync_at is Some {
        "Last sync: "@ + decimal((status.last_sync_at->0) as nat)
    } else {
        "Sync: never run"@
    }
}

/// The lines that show the daemon's status: the login, the sync, and the
/// track playing or that none plays.
pub open spec fn status_text(status: Status) -> Seq<Seq<char>> {
    let user = match status.user_name {
        Some(n) => n@,
        None => "unknown"@,
    };
    seq!["Logged in to "@ + status.server_url@ + " as "@ + user, sync_text(status)] + match status.playing_track {
        Some(pt) => playing_track_text(pt),
        None => seq!["Not playing"@],
    }
}

/// The lines that show the daemon's status.
pub fn status_lines(status: &Status) -> (r: Vec<String>)
    ensures
        texts(r@) == status_text(*status),
{
    let mut r: Vec<String> = Vec::new();
    let mut first = String::new();
    first.append("Logged in to ");
    first.append(status.server_url.as_str());
    first.append(" as ");
    match &status.user_name {
        Some(n) => first.append(n.as_str()),
        None => first.append("unknown"),
    }
    r.push(first);
    let sync = if status.sync_in_progress {
        String::from_str("Sync: in progress")
    } else if let Some(err) = &status.last_sync_error {
        joined("Last sync failed: ", err.as_str())
    } else if let Some(ts) = status.last_sync_at {
        let mut s = String::new();
        s.append("Last sync: ");
        push_decimal(&mut s, ts);
        s
    } else {
        String::from_str("Sync: never run")
    };
    r.push(sync);
    let ghost head = r@;
    assert(texts(head) =~= seq![texts(head)[0], texts(head)[1]]);
    match &status.playing_track {
        Some(pt) => {
            let mut lines = playing_track_lines(pt);
            let ghost l = lines@;
            r.append(&mut lines);
            assert(texts(r@) =~= texts(head) + texts(l));
        },
        None => {
            r.push(String::from_str("Not playing"));
        },
    }
    assert(texts(r@) =~= status_text(*status));
    r
}

} // verus!
