use accentor::api::{Artist, AuthToken, CodecConversion, Genre, Label, Play, Playlist, PlaylistAccess, PlaylistType};
use accentor::db::records::{
    artist_values, auth_token_values, codec_conversion_values, genre_values, label_values,
    play_values, playlist_item_values, playlist_values, read_artist, read_auth_token,
    read_codec_conversion, read_genre, read_label, read_play, read_playlist,
};
use accentor::db::sql::SqlValue;
use accentor::db::statements::upsert_artists;
use accentor::sync::Resource;

/// The values the database gives back for a row that was written with
/// `values`: fixed names come back as text.
fn stored(values: Vec<SqlValue>) -> Vec<SqlValue> {
    values
        .into_iter()
        .map(|v| match v {
            SqlValue::Name(n) => SqlValue::Text(n.to_string()),
            other => other,
        })
        .collect()
}

fn miles(id: i64, review: &str) -> Artist {
    Artist {
        id,
        name: "Miles Davis".into(),
        normalized_name: "miles davis".into(),
        review_comment: Some(review.into()),
        image: Some("img.jpg".into()),
        image100: Some("img100.jpg".into()),
        image250: Some("img250.jpg".into()),
        image500: Some("img500.jpg".into()),
        image_type: Some("image/jpeg".into()),
        created_at: "2024-01-01T00:00:00Z".into(),
        updated_at: "2024-06-01T00:00:00Z".into(),
    }
}

#[test]
fn artists_roundtrip() {
    let original = miles(9, "New artist");
    let statements = upsert_artists(std::slice::from_ref(&original), 1_700_000_000_000);
    assert_eq!(statements.len(), 1);
    assert_eq!(*statements[0].binds.last().unwrap(), SqlValue::Integer(1_700_000_000_000));
    let read_back = read_artist(&stored(artist_values(&original))).unwrap();
    assert_eq!(original, read_back);
}

#[test]
fn prune() {
    let artist = miles(1, "legend");
    let statements = upsert_artists(std::slice::from_ref(&artist), 1_700_000_000_000);
    let loaded_at = statements[0].binds.last().unwrap().copy();
    let pruning = accentor::db::statements::prune(Resource::Artists, 1_700_000_001_000);
    assert_eq!(pruning.len(), 1);
    assert_eq!(pruning[0].sql, "DELETE FROM artists WHERE loaded_at < ?");
    assert_eq!(pruning[0].binds, vec![SqlValue::Integer(1_700_000_001_000)]);
    match (loaded_at, &pruning[0].binds[0]) {
        (SqlValue::Integer(l), SqlValue::Integer(started)) => assert!(l < *started),
        _ => panic!("loaded_at and the start are integers"),
    }
}

#[test]
fn auth_tokens_roundtrip() {
    let original = AuthToken {
        id: 11,
        user_id: 5,
        user_agent: "accentord/0.1".into(),
        application: Some("desktop".into()),
    };
    let read_back = read_auth_token(&stored(auth_token_values(&original))).unwrap();
    assert_eq!(original, read_back);
}

#[test]
fn codec_conversions_roundtrip() {
    let original = CodecConversion {
        id: 3,
        name: "MP3 (320)".into(),
        ffmpeg_params: "-acodec mp3 -b:a 320k".into(),
        resulting_codec_id: 1,
    };
    let read_back = read_codec_conversion(&stored(codec_conversion_values(&original))).unwrap();
    assert_eq!(original, read_back);
}

#[test]
fn genres_roundtrip() {
    let original = Genre { id: 7, name: "Jazz".into(), normalized_name: "jazz".into() };
    let read_back = read_genre(&stored(genre_values(&original))).unwrap();
    assert_eq!(original, read_back);
}

#[test]
fn labels_roundtrip() {
    let original = Label { id: 42, name: "Blue Note".into(), normalized_name: "blue note".into() };
    let read_back = read_label(&stored(label_values(&original))).unwrap();
    assert_eq!(original, read_back);
}

#[test]
fn playlists_roundtrip() {
    let original = Playlist {
        id: 50,
        name: "Favorite tracks".into(),
        description: Some("Listen on repeat".into()),
        user_id: 1,
        access: PlaylistAccess::Personal,
        playlist_type: PlaylistType::Track,
        item_ids: vec![300, 100, 200],
        created_at: "2024-01-01T00:00:00Z".into(),
        updated_at: "2024-06-01T00:00:00Z".into(),
    };
    let mut item_rows = playlist_item_values(&original);
    // the database reads the items back ordered by position
    item_rows.sort_by_key(|r| match r[1] {
        SqlValue::Integer(p) => p,
        _ => i64::MAX,
    });
    let items: Vec<SqlValue> = item_rows.into_iter().map(|mut r| r.remove(2)).collect();
    let read_back = read_playlist(&stored(playlist_values(&original)), &items).unwrap();
    assert_eq!(original, read_back);
}

#[test]
fn plays_roundtrip() {
    let original = Play { id: 101, played_at: "2024-08-15T12:34:56Z".into(), track_id: 1234, user_id: 1 };
    let read_back = read_play(&stored(play_values(&original))).unwrap();
    assert_eq!(original, read_back);
}
