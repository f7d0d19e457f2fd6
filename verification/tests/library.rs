use accentor::api::{
    endpoint, page_url, parse_u32, server_error, total_pages, track_audio_url, track_audio_url_text,
    Album, AlbumArtist, AlbumLabel, AuthTokenWithToken, InvalidUrl, MissingTotalPages, Permission,
    PlaylistAccess, PlaylistType, Track, TrackArtist, TrackArtistRole, UnknownVariant, User,
};
use accentor::communication::{PlayingTrack, Status};
use accentor::daemon::{credentials, session_user, start_sync, status_of, StoredToken, SyncState};
use accentor::db::records::{read_user, read_playlist, user_values, RowError};
use accentor::db::sql::{delete_in_statements_exec, insert_statements_exec, SqlValue};
use accentor::db::statements::{
    prune, read_user_name, select_artist, select_playlist_items, select_user_name, upsert_albums,
    upsert_genres, upsert_playlists, upsert_tracks, upsert_users,
};
use accentor::display::{format_duration, playing_track_lines, status_lines};
use accentor::paths::{
    cache_path_from, data_path_from, first_dir, socket_path_from, unix_ms, unix_ms_of, url_to_filename,
};
use std::path::PathBuf;
use accentor::playback::{handoff_result, Handoff, PlayerState, WaitMode, POLL_INTERVAL_MS};
use accentor::sync::{all_resources, PageWalk, Resource, SyncAction};

#[test]
fn durations() {
    assert_eq!(format_duration(0), "0:00");
    assert_eq!(format_duration(5), "0:05");
    assert_eq!(format_duration(65), "1:05");
    assert_eq!(format_duration(600), "10:00");
    assert_eq!(format_duration(3599), "59:59");
    assert_eq!(format_duration(3600), "1:00:00");
    assert_eq!(format_duration(3661), "1:01:01");
    assert_eq!(format_duration(36000 + 59), "10:00:59");
}

#[test]
fn endpoints_drop_trailing_slashes() {
    assert_eq!(endpoint("https://music.example", "tracks"), "https://music.example/api/tracks");
    assert_eq!(endpoint("https://music.example///", "users"), "https://music.example/api/users");
    assert_eq!(endpoint("", "users"), "/api/users");
    assert_eq!(endpoint("///", "x"), "/api/x");
    assert_eq!(page_url("https://m.example/", "albums", 12), "https://m.example/api/albums?page=12");
    assert_eq!(track_audio_url_text("http://h:3000/", 42), "http://h:3000/api/tracks/42/audio");
    assert_eq!(track_audio_url_text("h", 0), "h/api/tracks/0/audio");
    assert_eq!(track_audio_url_text("h", u64::MAX), "h/api/tracks/18446744073709551615/audio");
}

#[test]
fn audio_urls() {
    let url = track_audio_url("http://localhost:3000/", 7).unwrap();
    assert_eq!(url.as_str(), "http://localhost:3000/api/tracks/7/audio");
    let InvalidUrl(message) = track_audio_url("not a url", 7).unwrap_err();
    assert_eq!(message, "relative URL without a base");
}

#[test]
fn page_counts() {
    assert_eq!(parse_u32("12"), Some(12));
    assert_eq!(parse_u32("+12"), Some(12));
    assert_eq!(parse_u32("007"), Some(7));
    assert_eq!(parse_u32("4294967295"), Some(u32::MAX));
    assert_eq!(parse_u32("4294967296"), None);
    assert_eq!(parse_u32("99999999999999999999"), None);
    assert_eq!(parse_u32(""), None);
    assert_eq!(parse_u32("+"), None);
    assert_eq!(parse_u32("-1"), None);
    assert_eq!(parse_u32(" 1"), None);
    assert_eq!(parse_u32("1a"), None);
    for s in ["0", "+0", "123", "4294967295", "4294967296", "", "+", "-0", "x"] {
        assert_eq!(parse_u32(s), s.parse::<u32>().ok(), "{s}");
    }
    assert_eq!(total_pages(Some("3")), Ok(3));
    assert_eq!(total_pages(Some("three")), Err(MissingTotalPages));
    assert_eq!(total_pages(None), Err(MissingTotalPages));
    assert_eq!(server_error("404 Not Found", "nope"), "server returned 404 Not Found: nope");
}

#[test]
fn enum_names() {
    assert_eq!(Permission::Moderator.as_str(), "moderator");
    assert_eq!(Permission::parse("admin"), Ok(Permission::Admin));
    assert_eq!(Permission::parse("Admin"), Err(UnknownVariant));
    assert_eq!(PlaylistAccess::parse("secret"), Ok(PlaylistAccess::Secret));
    assert_eq!(PlaylistAccess::Shared.as_str(), "shared");
    assert_eq!(PlaylistType::parse("album"), Ok(PlaylistType::Album));
    assert_eq!(PlaylistType::parse(""), Err(UnknownVariant));
    assert_eq!(TrackArtistRole::Conductor.as_str(), "conductor");
    for p in [Permission::User, Permission::Moderator, Permission::Admin] {
        assert_eq!(Permission::parse(p.as_str()), Ok(p));
    }
}

#[test]
fn cover_file_names() {
    assert_eq!(url_to_filename("abc-XYZ_0.9"), "abc-XYZ_0.9");
    assert_eq!(url_to_filename("https://a.b/c?d=e"), "https%3A%2F%2Fa.b%2Fc%3Fd%3De");
    assert_eq!(url_to_filename("é"), "%C3%A9");
    assert_eq!(url_to_filename(""), "");
    assert!(!url_to_filename("../../etc/passwd").contains('/'));
}

#[test]
fn clock() {
    assert_eq!(unix_ms_of(Some(1_700_000_000_000)), 1_700_000_000_000);
    assert_eq!(unix_ms_of(None), 0);
    assert_eq!(unix_ms_of(Some(u128::from(u64::MAX) + 2)), 1);
    assert!(unix_ms() > 1_600_000_000_000);
}

#[test]
fn directories() {
    assert_eq!(first_dir(Some("/a".into()), Some("/b".into())), Some("/a".into()));
    assert_eq!(first_dir(None, Some("/b".into())), Some("/b".into()));
    assert_eq!(first_dir(None, None), None);
    let p = |s: &str| Some(PathBuf::from(s));
    assert_eq!(data_path_from(p("/d"), p("/h")), p("/d/accentor"));
    assert_eq!(data_path_from(None, p("/h")), p("/h/.local/share/accentor"));
    assert_eq!(data_path_from(None, None), None);
    assert_eq!(cache_path_from(p("/c"), p("/h")), p("/c/accentor"));
    assert_eq!(cache_path_from(None, p("/h")), p("/h/.cache/accentor"));
    assert_eq!(cache_path_from(None, None), None);
    assert_eq!(socket_path_from(p("/s"), p("/d"), p("/h")), p("/s/accentord.socket"));
    assert_eq!(socket_path_from(None, p("/d"), p("/h")), p("/d/accentord.socket"));
    assert_eq!(socket_path_from(None, None, p("/h")), p("/h/.local/share/accentord.socket"));
    assert_eq!(socket_path_from(None, None, None), None);
    if let Some(p) = accentor::paths::get_data_path() {
        assert!(p.ends_with("accentor"));
    }
    if let Some(p) = accentor::paths::get_cache_path() {
        assert!(p.ends_with("accentor"));
    }
    if let Some(p) = accentor::paths::get_socket_path() {
        assert!(p.ends_with("accentord.socket"));
    }
}

fn user(id: u64, name: &str) -> User {
    User { id, name: name.into(), permission: Permission::User }
}

#[test]
fn bulk_inserts_carry_fifty_rows() {
    let users: Vec<User> = (0..51).map(|i| user(i, "u")).collect();
    let statements = upsert_users(&users, 5);
    assert_eq!(statements.len(), 2);
    assert!(statements[0].sql.starts_with("INSERT INTO users (id, name, permission, loaded_at) VALUES (?, ?, ?, ?), (?, ?, ?, ?)"));
    assert!(statements[0].sql.ends_with(" ON CONFLICT(id) DO UPDATE SET name = excluded.name, permission = excluded.permission, loaded_at = excluded.loaded_at"));
    assert_eq!(statements[0].binds.len(), 50 * 4);
    assert_eq!(statements[1].binds.len(), 4);
    assert_eq!(
        statements[1].sql,
        "INSERT INTO users (id, name, permission, loaded_at) VALUES (?, ?, ?, ?) ON CONFLICT(id) DO UPDATE SET name = excluded.name, permission = excluded.permission, loaded_at = excluded.loaded_at"
    );
    assert_eq!(statements[1].binds[0], SqlValue::Integer(50));
    assert_eq!(statements[1].binds[2], SqlValue::Name("user"));
    assert_eq!(statements[1].binds[3], SqlValue::Integer(5));
    assert!(upsert_users(&[], 5).is_empty());
    assert!(upsert_genres(&[], 5).is_empty());
}

#[test]
fn generic_chunking() {
    let rows: Vec<Vec<SqlValue>> = (0..120).map(|i| vec![SqlValue::Integer(i)]).collect();
    let statements = insert_statements_exec("INSERT INTO t (a) ", "", &rows, 1);
    assert_eq!(statements.len(), 3);
    assert_eq!(statements[2].sql, "INSERT INTO t (a) VALUES (?), (?), (?), (?), (?), (?), (?), (?), (?), (?), (?), (?), (?), (?), (?), (?), (?), (?), (?), (?)");
    let all: Vec<SqlValue> = statements.into_iter().flat_map(|s| s.binds).collect();
    assert_eq!(all, (0..120).map(SqlValue::Integer).collect::<Vec<_>>());
    let ids: Vec<i64> = (0..1001).collect();
    let deletes = delete_in_statements_exec("album_artists", "album_id", &ids);
    assert_eq!(deletes.len(), 3);
    assert_eq!(deletes[0].binds.len(), 500);
    assert_eq!(deletes[2].sql, "DELETE FROM album_artists WHERE album_id IN (?)");
    assert_eq!(deletes[2].binds, vec![SqlValue::Integer(1000)]);
    assert!(delete_in_statements_exec("t", "c", &[]).is_empty());
}

fn album(id: i64, artists: usize, labels: usize) -> Album {
    Album {
        id,
        title: "Kind of Blue".into(),
        normalized_title: "kind of blue".into(),
        release: "1959-08-17".into(),
        review_comment: None,
        edition: None,
        edition_description: None,
        album_artists: (0..artists)
            .map(|i| AlbumArtist {
                artist_id: i as i64,
                name: "Miles Davis".into(),
                normalized_name: "miles davis".into(),
                order: i as i64,
                separator: None,
            })
            .collect(),
        album_labels: (0..labels).map(|i| AlbumLabel { label_id: i as i64, catalogue_number: Some("CL 1355".into()) }).collect(),
        image: None,
        image100: None,
        image250: None,
        image500: None,
        image_type: None,
        created_at: "c".into(),
        updated_at: "u".into(),
    }
}

#[test]
fn album_writes_replace_children() {
    let statements = upsert_albums(&[album(1, 2, 1), album(2, 0, 1)], 9);
    let sqls: Vec<&str> = statements.iter().map(|s| s.sql.as_str()).collect();
    assert_eq!(sqls.len(), 5);
    assert!(sqls[0].starts_with("INSERT INTO albums (id, title"));
    assert_eq!(sqls[1], "DELETE FROM album_artists WHERE album_id IN (?, ?)");
    assert!(sqls[2].starts_with("INSERT INTO album_artists (album_id, artist_id, name, normalized_name, \"order\", separator) VALUES (?, ?, ?, ?, ?, ?), (?, ?, ?, ?, ?, ?)"));
    assert_eq!(sqls[3], "DELETE FROM album_labels WHERE album_id IN (?, ?)");
    assert_eq!(statements[4].binds.len(), 6);
    assert_eq!(statements[4].binds[3], SqlValue::Integer(2));
    assert!(upsert_albums(&[], 9).is_empty());
}

#[test]
fn track_and_playlist_writes() {
    let track = Track {
        id: 4,
        title: "So What".into(),
        normalized_title: "so what".into(),
        number: 1,
        album_id: 1,
        review_comment: None,
        genre_ids: vec![7, 8],
        codec_id: Some(1),
        length: Some(562),
        bitrate: None,
        location_id: None,
        audio_file_id: None,
        track_artists: vec![TrackArtist {
            artist_id: 9,
            role: TrackArtistRole::Main,
            order: 0,
            name: "Miles Davis".into(),
            normalized_name: "miles davis".into(),
            hidden: false,
        }],
        filename: None,
        sample_rate: None,
        bit_depth: None,
        created_at: "c".into(),
        updated_at: "u".into(),
    };
    let statements = upsert_tracks(&[track], 1);
    assert_eq!(statements.len(), 5);
    assert_eq!(statements[0].binds.len(), 17);
    assert_eq!(statements[2].binds[2], SqlValue::Name("main"));
    assert_eq!(statements[2].binds[6], SqlValue::Bool(false));
    assert_eq!(statements[4].binds, vec![SqlValue::Integer(4), SqlValue::Integer(7), SqlValue::Integer(4), SqlValue::Integer(8)]);
    let statements = upsert_playlists(
        &[accentor::api::Playlist {
            id: 3,
            name: "p".into(),
            description: None,
            user_id: 1,
            access: PlaylistAccess::Shared,
            playlist_type: PlaylistType::Album,
            item_ids: vec![5, 6],
            created_at: "c".into(),
            updated_at: "u".into(),
        }],
        1,
    );
    assert_eq!(statements.len(), 3);
    assert_eq!(statements[2].sql, "INSERT INTO playlist_items (playlist_id, position, item_id) VALUES (?, ?, ?), (?, ?, ?)");
    assert_eq!(
        statements[2].binds,
        vec![SqlValue::Integer(3), SqlValue::Integer(0), SqlValue::Integer(5), SqlValue::Integer(3), SqlValue::Integer(1), SqlValue::Integer(6)]
    );
}

#[test]
fn reads_and_prunes() {
    let s = select_artist(9);
    assert_eq!(s.sql, "SELECT id, name, normalized_name, review_comment, image, image100, image250, image500, image_type, created_at, updated_at FROM artists WHERE id = ?");
    assert_eq!(s.binds, vec![SqlValue::Integer(9)]);
    assert_eq!(select_user_name(u64::MAX).binds, vec![SqlValue::Integer(-1)]);
    assert_eq!(select_playlist_items(2).sql, "SELECT item_id FROM playlist_items WHERE playlist_id = ? ORDER BY position");
    let p = prune(Resource::Tracks, 3);
    assert_eq!(p.len(), 3);
    assert_eq!(p[1].sql, "DELETE FROM track_artists WHERE track_id NOT IN (SELECT id FROM tracks)");
    assert!(p[1].binds.is_empty());
    assert_eq!(prune(Resource::Playlists, 3).len(), 2);
    assert_eq!(prune(Resource::Plays, 3)[0].sql, "DELETE FROM plays WHERE loaded_at < ?");
    assert_eq!(read_user_name(&[SqlValue::Text("ann".into())]), Ok("ann".to_string()));
    assert_eq!(read_user_name(&[SqlValue::Null]), Err(RowError::WrongShape));
}

#[test]
fn decoding_errors() {
    let u = User { id: u64::MAX, name: "root".into(), permission: Permission::Admin };
    let row = user_values(&u);
    assert_eq!(row[0], SqlValue::Integer(-1));
    assert_eq!(read_user(&row), Ok(u));
    let bad = vec![SqlValue::Integer(1), SqlValue::Text("x".into()), SqlValue::Text("root".into())];
    assert_eq!(read_user(&bad), Err(RowError::UnknownVariant));
    assert_eq!(read_user(&bad[..2]), Err(RowError::WrongShape));
    let shape = vec![SqlValue::Integer(1), SqlValue::Null, SqlValue::Text("user".into())];
    assert_eq!(read_user(&shape), Err(RowError::WrongShape));
    let row = vec![
        SqlValue::Integer(1),
        SqlValue::Text("n".into()),
        SqlValue::Null,
        SqlValue::Integer(2),
        SqlValue::Text("public".into()),
        SqlValue::Text("track".into()),
        SqlValue::Text("c".into()),
        SqlValue::Text("u".into()),
    ];
    assert_eq!(read_playlist(&row, &[]), Err(RowError::UnknownVariant));
    assert_eq!(read_playlist(&row, &[SqlValue::Null]), Err(RowError::WrongShape));
}

#[test]
fn page_walk() {
    let mut walk = PageWalk::new();
    let mut fetched = Vec::new();
    loop {
        match walk.next_action() {
            SyncAction::FetchPage(p) => {
                fetched.push(p);
                walk.page_fetched(3);
            }
            SyncAction::Prune => walk.prune_done(),
            SyncAction::Done => break,
        }
    }
    assert_eq!(fetched, vec![1, 2, 3]);
    let mut walk = PageWalk::new();
    assert_eq!(walk.next_action(), SyncAction::FetchPage(1));
    walk.page_fetched(0);
    assert_eq!(walk.next_action(), SyncAction::Prune);
    walk.prune_done();
    assert_eq!(walk.next_action(), SyncAction::Done);
    let tables: Vec<&str> = all_resources().iter().map(|r| r.table_name()).collect();
    assert_eq!(tables, vec!["users", "artists", "genres", "labels", "codec_conversions", "auth_tokens", "albums", "tracks", "plays", "playlists"]);
}

#[test]
fn sync_state() {
    let mut s = SyncState::new();
    assert_eq!(s.begin(), Ok(()));
    assert_eq!(s.begin(), Err("Sync already in progress".to_string()));
    assert!(s.in_progress);
    s.finish(Err("boom".into()), 5_000);
    assert_eq!(s, SyncState { in_progress: false, last_completed_at: None, last_error: Some("boom".into()) });
    assert_eq!(s.begin(), Ok(()));
    s.finish(Ok(()), 1_700_000_123_456);
    assert_eq!(s, SyncState { in_progress: false, last_completed_at: Some(1_700_000_123), last_error: None });
}

fn token() -> StoredToken {
    StoredToken {
        server_url: "https://m.example".into(),
        token: AuthTokenWithToken { id: 1, user_id: 5, user_agent: "accentord/0.1".into(), token: "SECRET-REDACTED".into() },
    }
}

#[test]
fn logins() {
    assert_eq!(credentials(&None), Err("Not logged in".to_string()));
    assert_eq!(session_user(&None), Err("Not logged in".to_string()));
    assert_eq!(credentials(&Some(token())), Ok(("https://m.example".to_string(), "SECRET-REDACTED".to_string())));
    assert_eq!(session_user(&Some(token())), Ok(("https://m.example".to_string(), 5)));
}

#[test]
fn sync_requests() {
    let mut s = SyncState::new();
    assert_eq!(start_sync(&None, &mut s), Err("Not logged in".to_string()));
    assert_eq!(s, SyncState::new());
    assert_eq!(
        start_sync(&Some(token()), &mut s),
        Ok(("https://m.example".to_string(), "SECRET-REDACTED".to_string()))
    );
    assert!(s.in_progress);
    let before = s.clone();
    assert_eq!(start_sync(&Some(token()), &mut s), Err("Sync already in progress".to_string()));
    assert_eq!(s, before);
    assert_eq!(start_sync(&None, &mut s), Err("Not logged in".to_string()));
    s.finish(Ok(()), 2_000);
    assert!(start_sync(&Some(token()), &mut s).is_ok());
    assert_eq!(s.last_completed_at, Some(2));
}

fn playing() -> PlayingTrack {
    PlayingTrack {
        id: 4,
        position_ms: 65_999,
        title: "So What".into(),
        album: "Kind of Blue".into(),
        artists: "Miles Davis".into(),
        length: Some(562),
    }
}

#[test]
fn status_text() {
    let mut sync = SyncState::new();
    let status = status_of("https://m.example".into(), None, None, &sync);
    assert_eq!(status_lines(&status), vec!["Logged in to https://m.example as unknown", "Sync: never run", "Not playing"]);
    sync.last_completed_at = Some(17);
    let status = status_of("s".into(), Some("ann".into()), Some(playing()), &sync);
    assert_eq!(
        status_lines(&status),
        vec!["Logged in to s as ann", "Last sync: 17", "Playing: So What", "  by Miles Davis", "  on Kind of Blue", "  (1:05 / 9:22)"]
    );
    sync.last_error = Some("offline".into());
    let status = status_of("s".into(), Some("ann".into()), None, &sync);
    assert_eq!(status_lines(&status)[1], "Last sync failed: offline");
    sync.in_progress = true;
    let status: Status = status_of("s".into(), None, None, &sync);
    assert_eq!(status_lines(&status)[1], "Sync: in progress");
    let mut pt = playing();
    pt.length = None;
    assert_eq!(playing_track_lines(&pt)[3], "  (1:05 / ?:??)");
}

#[test]
fn player() {
    let mut p = PlayerState::new();
    assert_eq!(p.wait_mode(), WaitMode::Block);
    assert_eq!(p.on_play(4, true), None);
    assert_eq!(p.wait_mode(), WaitMode::Timeout(POLL_INTERVAL_MS));
    p.on_tick(false);
    assert_eq!(p, PlayerState { playing: true, now_playing: Some(4) });
    assert_eq!(p.on_play(5, false), Some(4));
    assert_eq!(p, PlayerState { playing: false, now_playing: None });
    p.on_play(6, true);
    p.on_tick(true);
    assert_eq!(p, PlayerState { playing: false, now_playing: None });
    assert_eq!(handoff_result(Handoff::Sent), Ok(()));
    assert_eq!(handoff_result(Handoff::Full), Err("playback busy".to_string()));
    assert_eq!(handoff_result(Handoff::Disconnected), Err("audio thread is gone".to_string()));
}

#[test]
fn later_rows_of_a_write_come_later() {
    let a = accentor::api::Genre { id: 1, name: "Jazz".into(), normalized_name: "jazz".into() };
    let b = accentor::api::Genre { id: 1, name: "Bop".into(), normalized_name: "bop".into() };
    let statements = upsert_genres(&[a, b], 3);
    assert_eq!(statements.len(), 1);
    assert_eq!(statements[0].binds[1], SqlValue::Text("Jazz".into()));
    assert_eq!(statements[0].binds[5], SqlValue::Text("Bop".into()));
}

#[test]
fn distinct_urls_distinct_files() {
    let urls = ["a/b", "a%2Fb", "a_b", "a-b", "a.b", "ab", "A/B"];
    let names: Vec<String> = urls.iter().map(|u| url_to_filename(u)).collect();
    for i in 0..names.len() {
        for j in 0..names.len() {
            assert_eq!(i == j, names[i] == names[j], "{} {}", urls[i], urls[j]);
        }
    }
}
