//! Which column each value of a record is written to: for every table, the
//! column names of its insert paired with the fields they hold.

use vstd::prelude::*;
use vstd::string::*;

use crate::api::{
    Album, AlbumArtist, AlbumLabel, Artist, AuthToken, CodecConversion, Genre, Label, Play, Playlist, Track,
    TrackArtist, User,
};
use crate::db::records::{
    album_artist_rows, album_label_rows, playlist_item_rows, track_artist_rows, track_genre_rows,
    album_record, artist_record, auth_token_record, codec_conversion_record, genre_record,
    label_record, opt_int, opt_text, play_record, playlist_record, track_record, user_record,
};
use crate::db::sql::SqlValue;
use crate::db::statements::{
    ALBUMS_COLUMNS, ARTISTS_COLUMNS, AUTH_TOKENS_COLUMNS, CODEC_CONVERSIONS_COLUMNS, GENRES_COLUMNS,
    LABELS_COLUMNS, PLAYLISTS_COLUMNS, PLAYS_COLUMNS, TRACKS_COLUMNS, USERS_COLUMNS, ALBUM_ARTISTS_INSERT,
    ALBUM_LABELS_INSERT, TRACK_ARTISTS_INSERT, TRACK_GENRES_INSERT, PLAYLIST_ITEMS_INSERT,
};

verus! {

/// Column names separated by `, `, as an insert lists them.
pub open spec fn column_list(names: Seq<Seq<char>>) -> Seq<char>
    decreases names.len(),
{
    if names.len() == 0 {
        seq![]
    } else if names.len() == 1 {
        names[0]
    } else {
        names[0] + ", "@ + column_list(names.drop_first())
    }
}

/// Each column of `users` with the value a user stores in it.
pub open spec fn user_columns(x: User) -> Seq<(Seq<char>, SqlValue)> {
    seq![
        ("id"@, SqlValue::Integer(x.id as i64)),
        ("name"@, SqlValue::Text(x.name)),
        ("permission"@, SqlValue::Name(x.permission.text())),
    ]
}

/// A user is written with each value in the column named for it:
/// the columns of the insert are those of `user_columns`, in order, and the
/// record holds their values in the same order.
pub proof fn lemma_user_columns(x: User)
    ensures
        USERS_COLUMNS@ == column_list(user_columns(x).map_values(|c: (Seq<char>, SqlValue)| c.0)),
        user_record(x) == user_columns(x).map_values(|c: (Seq<char>, SqlValue)| c.1),
{
    reveal_strlit("id, name, permission");
    reveal_strlit(", ");
    reveal_strlit("id");
    reveal_strlit("name");
    reveal_strlit("permission");
    reveal_with_fuel(column_list, 4);
    let cols = user_columns(x);
    assert(user_record(x) =~= cols.map_values(|c: (Seq<char>, SqlValue)| c.1));
    assert(USERS_COLUMNS@ =~= column_list(cols.map_values(|c: (Seq<char>, SqlValue)| c.0)));
}

/// Each column of `artists` with the value a artist stores in it.
pub open spec fn artist_columns(x: Artist) -> Seq<(Seq<char>, SqlValue)> {
    seq![
        ("id"@, SqlValue::Integer(x.id)),
        ("name"@, SqlValue::Text(x.name)),
        ("normalized_name"@, SqlValue::Text(x.normalized_name)),
        ("review_comment"@, opt_text(x.review_comment)),
        ("image"@, opt_text(x.image)),
        ("image100"@, opt_text(x.image100)),
        ("image250"@, opt_text(x.image250)),
        ("image500"@, opt_text(x.image500)),
        ("image_type"@, opt_text(x.image_type)),
        ("created_at"@, SqlValue::Text(x.created_at)),
        ("updated_at"@, SqlValue::Text(x.updated_at)),
    ]
}

/// A artist is written with each value in the column named for it:
/// the columns of the insert are those of `artist_columns`, in order, and the
/// record holds their values in the same order.
pub proof fn lemma_artist_columns(x: Artist)
    ensures
        ARTISTS_COLUMNS@ == column_list(artist_columns(x).map_values(|c: (Seq<char>, SqlValue)| c.0)),
        artist_record(x) == artist_columns(x).map_values(|c: (Seq<char>, SqlValue)| c.1),
{
    reveal_strlit("id, name, normalized_name, review_comment, image, image100, image250, image500, image_type, created_at, updated_at");
    reveal_strlit(", ");
    reveal_strlit("id");
    reveal_strlit("name");
    reveal_strlit("normalized_name");
    reveal_strlit("review_comment");
    reveal_strlit("image");
    reveal_strlit("image100");
    reveal_strlit("image250");
    reveal_strlit("image500");
    reveal_strlit("image_type");
    reveal_strlit("created_at");
    reveal_strlit("updated_at");
    reveal_with_fuel(column_list, 12);
    let cols = artist_columns(x);
    assert(artist_record(x) =~= cols.map_values(|c: (Seq<char>, SqlValue)| c.1));
    assert(ARTISTS_COLUMNS@ =~= column_list(cols.map_values(|c: (Seq<char>, SqlValue)| c.0)));
}

/// Each column of `genres` with the value a genre stores in it.
pub open spec fn genre_columns(x: Genre) -> Seq<(Seq<char>, SqlValue)> {
    seq![
        ("id"@, SqlValue::Integer(x.id)),
        ("name"@, SqlValue::Text(x.name)),
        ("normalized_name"@, SqlValue::Text(x.normalized_name)),
    ]
}

/// A genre is written with each value in the column named for it:
/// the columns of the insert are those of `genre_columns`, in order, and the
/// record holds their values in the same order.
pub proof fn lemma_genre_columns(x: Genre)
    ensures
        GENRES_COLUMNS@ == column_list(genre_columns(x).map_values(|c: (Seq<char>, SqlValue)| c.0)),
        genre_record(x) == genre_columns(x).map_values(|c: (Seq<char>, SqlValue)| c.1),
{
    reveal_strlit("id, name, normalized_name");
    reveal_strlit(", ");
    reveal_strlit("id");
    reveal_strlit("name");
    reveal_strlit("normalized_name");
    reveal_with_fuel(column_list, 4);
    let cols = genre_columns(x);
    assert(genre_record(x) =~= cols.map_values(|c: (Seq<char>, SqlValue)| c.1));
    assert(GENRES_COLUMNS@ =~= column_list(cols.map_values(|c: (Seq<char>, SqlValue)| c.0)));
}

/// Each column of `labels` with the value a label stores in it.
pub open spec fn label_columns(x: Label) -> Seq<(Seq<char>, SqlValue)> {
    seq![
        ("id"@, SqlValue::Integer(x.id)),
        ("name"@, SqlValue::Text(x.name)),
        ("normalized_name"@, SqlValue::Text(x.normalized_name)),
    ]
}

/// A label is written with each value in the column named for it:
/// the columns of the insert are those of `label_columns`, in order, and the
/// record holds their values in the same order.
pub proof fn lemma_label_columns(x: Label)
    ensures
        LABELS_COLUMNS@ == column_list(label_columns(x).map_values(|c: (Seq<char>, SqlValue)| c.0)),
        label_record(x) == label_columns(x).map_values(|c: (Seq<char>, SqlValue)| c.1),
{
    reveal_strlit("id, name, normalized_name");
    reveal_strlit(", ");
    reveal_strlit("id");
    reveal_strlit("name");
    reveal_strlit("normalized_name");
    reveal_with_fuel(column_list, 4);
    let cols = label_columns(x);
    assert(label_record(x) =~= cols.map_values(|c: (Seq<char>, SqlValue)| c.1));
    assert(LABELS_COLUMNS@ =~= column_list(cols.map_values(|c: (Seq<char>, SqlValue)| c.0)));
}

/// Each column of `codec_conversions` with the value a codec conversion stores in it.
pub open spec fn codec_conversion_columns(x: CodecConversion) -> Seq<(Seq<char>, SqlValue)> {
    seq![
        ("id"@, SqlValue::Integer(x.id)),
        ("name"@, SqlValue::Text(x.name)),
        ("ffmpeg_params"@, SqlValue::Text(x.ffmpeg_params)),
        ("resulting_codec_id"@, SqlValue::Integer(x.resulting_codec_id)),
    ]
}

/// A codec conversion is written with each value in the column named for it:
/// the columns of the insert are those of `codec_conversion_columns`, in order, and the
/// record holds their values in the same order.
pub proof fn lemma_codec_conversion_columns(x: CodecConversion)
    ensures
        CODEC_CONVERSIONS_COLUMNS@ == column_list(codec_conversion_columns(x).map_values(|c: (Seq<char>, SqlValue)| c.0)),
        codec_conversion_record(x) == codec_conversion_columns(x).map_values(|c: (Seq<char>, SqlValue)| c.1),
{
    reveal_strlit("id, name, ffmpeg_params, resulting_codec_id");
    reveal_strlit(", ");
    reveal_strlit("id");
    reveal_strlit("name");
    reveal_strlit("ffmpeg_params");
    reveal_strlit("resulting_codec_id");
    reveal_with_fuel(column_list, 5);
    let cols = codec_conversion_columns(x);
    assert(codec_conversion_record(x) =~= cols.map_values(|c: (Seq<char>, SqlValue)| c.1));
    assert(CODEC_CONVERSIONS_COLUMNS@ =~= column_list(cols.map_values(|c: (Seq<char>, SqlValue)| c.0)));
}

/// Each column of `auth_tokens` with the value a auth token stores in it.
pub open spec fn auth_token_columns(x: AuthToken) -> Seq<(Seq<char>, SqlValue)> {
    seq![
        ("id"@, SqlValue::Integer(x.id)),
        ("user_id"@, SqlValue::Integer(x.user_id)),
        ("user_agent"@, SqlValue::Text(x.user_agent)),
        ("application"@, opt_text(x.application)),
    ]
}

/// A auth token is written with each value in the column named for it:
/// the columns of the insert are those of `auth_token_columns`, in order, and the
/// record holds their values in the same order.
pub proof fn lemma_auth_token_columns(x: AuthToken)
    ensures
        AUTH_TOKENS_COLUMNS@ == column_list(auth_token_columns(x).map_values(|c: (Seq<char>, SqlValue)| c.0)),
        auth_token_record(x) == auth_token_columns(x).map_values(|c: (Seq<char>, SqlValue)| c.1),
{
    reveal_strlit("id, user_id, user_agent, application");
    reveal_strlit(", ");
    reveal_strlit("id");
    reveal_strlit("user_id");
    reveal_strlit("user_agent");
    reveal_strlit("application");
    reveal_with_fuel(column_list, 5);
    let cols = auth_token_columns(x);
    assert(auth_token_record(x) =~= cols.map_values(|c: (Seq<char>, SqlValue)| c.1));
    assert(AUTH_TOKENS_COLUMNS@ =~= column_list(cols.map_values(|c: (Seq<char>, SqlValue)| c.0)));
}

/// Each column of `plays` with the value a play stores in it.
pub open spec fn play_columns(x: Play) -> Seq<(Seq<char>, SqlValue)> {
    seq![
        ("id"@, SqlValue::Integer(x.id)),
        ("played_at"@, SqlValue::Text(x.played_at)),
        ("track_id"@, SqlValue::Integer(x.track_id)),
        ("user_id"@, SqlValue::Integer(x.user_id)),
    ]
}

/// A play is written with each value in the column named for it:
/// the columns of the insert are those of `play_columns`, in order, and the
/// record holds their values in the same order.
pub proof fn lemma_play_columns(x: Play)
    ensures
        PLAYS_COLUMNS@ == column_list(play_columns(x).map_values(|c: (Seq<char>, SqlValue)| c.0)),
        play_record(x) == play_columns(x).map_values(|c: (Seq<char>, SqlValue)| c.1),
{
    reveal_strlit("id, played_at, track_id, user_id");
    reveal_strlit(", ");
    reveal_strlit("id");
    reveal_strlit("played_at");
    reveal_strlit("track_id");
    reveal_strlit("user_id");
    reveal_with_fuel(column_list, 5);
    let cols = play_columns(x);
    assert(play_record(x) =~= cols.map_values(|c: (Seq<char>, SqlValue)| c.1));
    assert(PLAYS_COLUMNS@ =~= column_list(cols.map_values(|c: (Seq<char>, SqlValue)| c.0)));
}

/// Each column of `albums` with the value a album stores in it.
pub open spec fn album_columns(x: Album) -> Seq<(Seq<char>, SqlValue)> {
    seq![
        ("id"@, SqlValue::Integer(x.id)),
        ("title"@, SqlValue::Text(x.title)),
        ("normalized_title"@, SqlValue::Text(x.normalized_title)),
        ("release"@, SqlValue::Text(x.release)),
        ("review_comment"@, opt_text(x.review_comment)),
        ("edition"@, opt_text(x.edition)),
        ("edition_description"@, opt_text(x.edition_description)),
        ("image"@, opt_text(x.image)),
        ("image100"@, opt_text(x.image100)),
        ("image250"@, opt_text(x.image250)),
        ("image500"@, opt_text(x.image500)),
        ("image_type"@, opt_text(x.image_type)),
        ("created_at"@, SqlValue::Text(x.created_at)),
        ("updated_at"@, SqlValue::Text(x.updated_at)),
    ]
}

/// A album is written with each value in the column named for it:
/// the columns of the insert are those of `album_columns`, in order, and the
/// record holds their values in the same order.
#[verifier::rlimit(60)]
pub proof fn lemma_album_columns(x: Album)
    ensures
        ALBUMS_COLUMNS@ == column_list(album_columns(x).map_values(|c: (Seq<char>, SqlValue)| c.0)),
        album_record(x) == album_columns(x).map_values(|c: (Seq<char>, SqlValue)| c.1),
{
    reveal_strlit("id, title, normalized_title, release, review_comment, edition, edition_description, image, image100, image250, image500, image_type, created_at, updated_at");
    reveal_strlit(", ");
    reveal_strlit("id");
    reveal_strlit("title");
    reveal_strlit("normalized_title");
    reveal_strlit("release");
    reveal_strlit("review_comment");
    reveal_strlit("edition");
    reveal_strlit("edition_description");
    reveal_strlit("image");
    reveal_strlit("image100");
    reveal_strlit("image250");
    reveal_strlit("image500");
    reveal_strlit("image_type");
    reveal_strlit("created_at");
    reveal_strlit("updated_at");
    reveal_with_fuel(column_list, 15);
    let cols = album_columns(x);
    assert(album_record(x) =~= cols.map_values(|c: (Seq<char>, SqlValue)| c.1));
    assert(ALBUMS_COLUMNS@ =~= column_list(cols.map_values(|c: (Seq<char>, SqlValue)| c.0)));
}

/// Each column of `tracks` with the value a track stores in it.
pub open spec fn track_columns(x: Track) -> Seq<(Seq<char>, SqlValue)> {
    seq![
        ("id"@, SqlValue::Integer(x.id)),
        ("title"@, SqlValue::Text(x.title)),
        ("normalized_title"@, SqlValue::Text(x.normalized_title)),
        ("number"@, SqlValue::Integer(x.number)),
        ("album_id"@, SqlValue::Integer(x.album_id)),
        ("review_comment"@, opt_text(x.review_comment)),
        ("codec_id"@, opt_int(x.codec_id)),
        ("length"@, opt_int(x.length)),
        ("bitrate"@, opt_int(x.bitrate)),
        ("location_id"@, opt_int(x.location_id)),
        ("audio_file_id"@, opt_int(x.audio_file_id)),
        ("filename"@, opt_text(x.filename)),
        ("sample_rate"@, opt_int(x.sample_rate)),
        ("bit_depth"@, opt_int(x.bit_depth)),
        ("created_at"@, SqlValue::Text(x.created_at)),
        ("updated_at"@, SqlValue::Text(x.updated_at)),
    ]
}

/// A track is written with each value in the column named for it:
/// the columns of the insert are those of `track_columns`, in order, and the
/// record holds their values in the same order.
#[verifier::rlimit(60)]
pub proof fn lemma_track_columns(x: Track)
    ensures
        TRACKS_COLUMNS@ == column_list(track_columns(x).map_values(|c: (Seq<char>, SqlValue)| c.0)),
        track_record(x) == track_columns(x).map_values(|c: (Seq<char>, SqlValue)| c.1),
{
    reveal_strlit("id, title, normalized_title, number, album_id, review_comment, codec_id, length, bitrate, location_id, audio_file_id, filename, sample_rate, bit_depth, created_at, updated_at");
    reveal_strlit(", ");
    reveal_strlit("id");
    reveal_strlit("title");
    reveal_strlit("normalized_title");
    reveal_strlit("number");
    reveal_strlit("album_id");
    reveal_strlit("review_comment");
    reveal_strlit("codec_id");
    reveal_strlit("length");
    reveal_strlit("bitrate");
    reveal_strlit("location_id");
    reveal_strlit("audio_file_id");
    reveal_strlit("filename");
    reveal_strlit("sample_rate");
    reveal_strlit("bit_depth");
    reveal_strlit("created_at");
    reveal_strlit("updated_at");
    reveal_with_fuel(column_list, 17);
    let cols = track_columns(x);
    assert(track_record(x) =~= cols.map_values(|c: (Seq<char>, SqlValue)| c.1));
    assert(TRACKS_COLUMNS@ =~= column_list(cols.map_values(|c: (Seq<char>, SqlValue)| c.0)));
}

/// Each column of `playlists` with the value a playlist stores in it.
pub open spec fn playlist_columns(x: Playlist) -> Seq<(Seq<char>, SqlValue)> {
    seq![
        ("id"@, SqlValue::Integer(x.id)),
        ("name"@, SqlValue::Text(x.name)),
        ("description"@, opt_text(x.description)),
        ("user_id"@, SqlValue::Integer(x.user_id)),
        ("access"@, SqlValue::Name(x.access.text())),
        ("playlist_type"@, SqlValue::Name(x.playlist_type.text())),
        ("created_at"@, SqlValue::Text(x.created_at)),
        ("updated_at"@, SqlValue::Text(x.updated_at)),
    ]
}

/// A playlist is written with each value in the column named for it:
/// the columns of the insert are those of `playlist_columns`, in order, and the
/// record holds their values in the same order.
pub proof fn lemma_playlist_columns(x: Playlist)
    ensures
        PLAYLISTS_COLUMNS@ == column_list(playlist_columns(x).map_values(|c: (Seq<char>, SqlValue)| c.0)),
        playlist_record(x) == playlist_columns(x).map_values(|c: (Seq<char>, SqlValue)| c.1),
{
    reveal_strlit("id, name, description, user_id, access, playlist_type, created_at, updated_at");
    reveal_strlit(", ");
    reveal_strlit("id");
    reveal_strlit("name");
    reveal_strlit("description");
    reveal_strlit("user_id");
    reveal_strlit("access");
    reveal_strlit("playlist_type");
    reveal_strlit("created_at");
    reveal_strlit("updated_at");
    reveal_with_fuel(column_list, 9);
    let cols = playlist_columns(x);
    assert(playlist_record(x) =~= cols.map_values(|c: (Seq<char>, SqlValue)| c.1));
    assert(PLAYLISTS_COLUMNS@ =~= column_list(cols.map_values(|c: (Seq<char>, SqlValue)| c.0)));
}

/// Each column of `album_artists` with the value stored in it for `aa` of `album`.
pub open spec fn album_artist_columns(album: Album, aa: AlbumArtist) -> Seq<(Seq<char>, SqlValue)> {
    seq![
        ("album_id"@, SqlValue::Integer(album.id)),
        ("artist_id"@, SqlValue::Integer(aa.artist_id)),
        ("name"@, SqlValue::Text(aa.name)),
        ("normalized_name"@, SqlValue::Text(aa.normalized_name)),
        ("\"order\""@, SqlValue::Integer(aa.order)),
        ("separator"@, opt_text(aa.separator)),
    ]
}

/// The rows of `album_artists` written for an album hold each value in the column
/// named for it: the columns of the insert are those of `album_artist_columns`,
/// in order, and row `i` holds their values for the `i`-th entry.
pub proof fn lemma_album_artist_columns(album: Album)
    ensures
        album_artist_rows(album).len() == album.album_artists@.len(),
        forall|i: int| 0 <= i < album.album_artists@.len() ==> {
            &&& ALBUM_ARTISTS_INSERT@ == "INSERT INTO album_artists ("@
                + column_list(album_artist_columns(album, album.album_artists@[i]).map_values(|c: (Seq<char>, SqlValue)| c.0)) + ") "@
            &&& #[trigger] album_artist_rows(album)[i] == album_artist_columns(album, album.album_artists@[i]).map_values(|c: (Seq<char>, SqlValue)| c.1)
        },
{
    reveal_strlit("INSERT INTO album_artists (album_id, artist_id, name, normalized_name, \"order\", separator) ");
    reveal_strlit("INSERT INTO album_artists (");
    reveal_strlit(") ");
    reveal_strlit(", ");
    reveal_strlit("album_id");
    reveal_strlit("artist_id");
    reveal_strlit("name");
    reveal_strlit("normalized_name");
    reveal_strlit("\"order\"");
    reveal_strlit("separator");
    reveal_with_fuel(column_list, 7);
    assert forall|i: int| 0 <= i < album.album_artists@.len() implies {
        &&& ALBUM_ARTISTS_INSERT@ == "INSERT INTO album_artists ("@
            + column_list(album_artist_columns(album, album.album_artists@[i]).map_values(|c: (Seq<char>, SqlValue)| c.0)) + ") "@
        &&& #[trigger] album_artist_rows(album)[i] == album_artist_columns(album, album.album_artists@[i]).map_values(|c: (Seq<char>, SqlValue)| c.1)
    } by {
        let names = album_artist_columns(album, album.album_artists@[i]).map_values(|c: (Seq<char>, SqlValue)| c.0);
        assert(ALBUM_ARTISTS_INSERT@ =~= "INSERT INTO album_artists ("@ + column_list(names) + ") "@);
        assert(album_artist_rows(album)[i] =~= album_artist_columns(album, album.album_artists@[i]).map_values(|c: (Seq<char>, SqlValue)| c.1));
    }
}

/// Each column of `album_labels` with the value stored in it for `al` of `album`.
pub open spec fn album_label_columns(album: Album, al: AlbumLabel) -> Seq<(Seq<char>, SqlValue)> {
    seq![
        ("album_id"@, SqlValue::Integer(album.id)),
        ("label_id"@, SqlValue::Integer(al.label_id)),
        ("catalogue_number"@, opt_text(al.catalogue_number)),
    ]
}

/// The rows of `album_labels` written for an album hold each value in the column
/// named for it: the columns of the insert are those of `album_label_columns`,
/// in order, and row `i` holds their values for the `i`-th entry.
pub proof fn lemma_album_label_columns(album: Album)
    ensures
        album_label_rows(album).len() == album.album_labels@.len(),
        forall|i: int| 0 <= i < album.album_labels@.len() ==> {
            &&& ALBUM_LABELS_INSERT@ == "INSERT INTO album_labels ("@
                + column_list(album_label_columns(album, album.album_labels@[i]).map_values(|c: (Seq<char>, SqlValue)| c.0)) + ") "@
            &&& #[trigger] album_label_rows(album)[i] == album_label_columns(album, album.album_labels@[i]).map_values(|c: (Seq<char>, SqlValue)| c.1)
        },
{
    reveal_strlit("INSERT INTO album_labels (album_id, label_id, catalogue_number) ");
    reveal_strlit("INSERT INTO album_labels (");
    reveal_strlit(") ");
    reveal_strlit(", ");
    reveal_strlit("album_id");
    reveal_strlit("label_id");
    reveal_strlit("catalogue_number");
    reveal_with_fuel(column_list, 4);
    assert forall|i: int| 0 <= i < album.album_labels@.len() implies {
        &&& ALBUM_LABELS_INSERT@ == "INSERT INTO album_labels ("@
            + column_list(album_label_columns(album, album.album_labels@[i]).map_values(|c: (Seq<char>, SqlValue)| c.0)) + ") "@
        &&& #[trigger] album_label_rows(album)[i] == album_label_columns(album, album.album_labels@[i]).map_values(|c: (Seq<char>, SqlValue)| c.1)
    } by {
        let names = album_label_columns(album, album.album_labels@[i]).map_values(|c: (Seq<char>, SqlValue)| c.0);
        assert(ALBUM_LABELS_INSERT@ =~= "INSERT INTO album_labels ("@ + column_list(names) + ") "@);
        assert(album_label_rows(album)[i] =~= album_label_columns(album, album.album_labels@[i]).map_values(|c: (Seq<char>, SqlValue)| c.1));
    }
}

/// Each column of `track_artists` with the value stored in it for `ta` of `track`.
pub open spec fn track_artist_columns(track: Track, ta: TrackArtist) -> Seq<(Seq<char>, SqlValue)> {
    seq![
        ("track_id"@, SqlValue::Integer(track.id)),
        ("artist_id"@, SqlValue::Integer(ta.artist_id)),
        ("role"@, SqlValue::Name(ta.role.text())),
        ("\"order\""@, SqlValue::Integer(ta.order)),
        ("name"@, SqlValue::Text(ta.name)),
        ("normalized_name"@, SqlValue::Text(ta.normalized_name)),
        ("hidden"@, SqlValue::Bool(ta.hidden)),
    ]
}

/// The rows of `track_artists` written for a track hold each value in the column
/// named for it: the columns of the insert are those of `track_artist_columns`,
/// in order, and row `i` holds their values for the `i`-th entry.
pub proof fn lemma_track_artist_columns(track: Track)
    ensures
        track_artist_rows(track).len() == track.track_artists@.len(),
        forall|i: int| 0 <= i < track.track_artists@.len() ==> {
            &&& TRACK_ARTISTS_INSERT@ == "INSERT INTO track_artists ("@
                + column_list(track_artist_columns(track, track.track_artists@[i]).map_values(|c: (Seq<char>, SqlValue)| c.0)) + ") "@
            &&& #[trigger] track_artist_rows(track)[i] == track_artist_columns(track, track.track_artists@[i]).map_values(|c: (Seq<char>, SqlValue)| c.1)
        },
{
    reveal_strlit("INSERT INTO track_artists (track_id, artist_id, role, \"order\", name, normalized_name, hidden) ");
    reveal_strlit("INSERT INTO track_artists (");
    reveal_strlit(") ");
    reveal_strlit(", ");
    reveal_strlit("track_id");
    reveal_strlit("artist_id");
    reveal_strlit("role");
    reveal_strlit("\"order\"");
    reveal_strlit("name");
    reveal_strlit("normalized_name");
    reveal_strlit("hidden");
    reveal_with_fuel(column_list, 8);
    assert forall|i: int| 0 <= i < track.track_artists@.len() implies {
        &&& TRACK_ARTISTS_INSERT@ == "INSERT INTO track_artists ("@
            + column_list(track_artist_columns(track, track.track_artists@[i]).map_values(|c: (Seq<char>, SqlValue)| c.0)) + ") "@
        &&& #[trigger] track_artist_rows(track)[i] == track_artist_columns(track, track.track_artists@[i]).map_values(|c: (Seq<char>, SqlValue)| c.1)
    } by {
        let names = track_artist_columns(track, track.track_artists@[i]).map_values(|c: (Seq<char>, SqlValue)| c.0);
        assert(TRACK_ARTISTS_INSERT@ =~= "INSERT INTO track_artists ("@ + column_list(names) + ") "@);
        assert(track_artist_rows(track)[i] =~= track_artist_columns(track, track.track_artists@[i]).map_values(|c: (Seq<char>, SqlValue)| c.1));
    }
}

/// Each column of `track_genres` with the value stored in it for `g` of `track`.
pub open spec fn track_genre_columns(track: Track, g: i64) -> Seq<(Seq<char>, SqlValue)> {
    seq![
        ("track_id"@, SqlValue::Integer(track.id)),
        ("genre_id"@, SqlValue::Integer(g)),
    ]
}

/// The rows of `track_genres` written for a track hold each value in the column
/// named for it: the columns of the insert are those of `track_genre_columns`,
/// in order, and row `i` holds their values for the `i`-th entry.
pub proof fn lemma_track_genre_columns(track: Track)
    ensures
        track_genre_rows(track).len() == track.genre_ids@.len(),
        forall|i: int| 0 <= i < track.genre_ids@.len() ==> {
            &&& TRACK_GENRES_INSERT@ == "INSERT INTO track_genres ("@
                + column_list(track_genre_columns(track, track.genre_ids@[i]).map_values(|c: (Seq<char>, SqlValue)| c.0)) + ") "@
            &&& #[trigger] track_genre_rows(track)[i] == track_genre_columns(track, track.genre_ids@[i]).map_values(|c: (Seq<char>, SqlValue)| c.1)
        },
{
    reveal_strlit("INSERT INTO track_genres (track_id, genre_id) ");
    reveal_strlit("INSERT INTO track_genres (");
    reveal_strlit(") ");
    reveal_strlit(", ");
    reveal_strlit("track_id");
    reveal_strlit("genre_id");
    reveal_with_fuel(column_list, 3);
    assert forall|i: int| 0 <= i < track.genre_ids@.len() implies {
        &&& TRACK_GENRES_INSERT@ == "INSERT INTO track_genres ("@
            + column_list(track_genre_columns(track, track.genre_ids@[i]).map_values(|c: (Seq<char>, SqlValue)| c.0)) + ") "@
        &&& #[trigger] track_genre_rows(track)[i] == track_genre_columns(track, track.genre_ids@[i]).map_values(|c: (Seq<char>, SqlValue)| c.1)
    } by {
        let names = track_genre_columns(track, track.genre_ids@[i]).map_values(|c: (Seq<char>, SqlValue)| c.0);
        assert(TRACK_GENRES_INSERT@ =~= "INSERT INTO track_genres ("@ + column_list(names) + ") "@);
        assert(track_genre_rows(track)[i] =~= track_genre_columns(track, track.genre_ids@[i]).map_values(|c: (Seq<char>, SqlValue)| c.1));
    }
}

/// Each column of `playlist_items` with the value stored in it for the
/// item at `position` of `playlist`.
pub open spec fn playlist_item_columns(playlist: Playlist, position: int) -> Seq<(Seq<char>, SqlValue)> {
    seq![
        ("playlist_id"@, SqlValue::Integer(playlist.id)),
        ("position"@, SqlValue::Integer(position as i64)),
        ("item_id"@, SqlValue::Integer(playlist.item_ids@[position])),
    ]
}

/// The rows of `playlist_items` written for a playlist hold each value in
/// the column named for it: the columns of the insert are those of
/// `playlist_item_columns`, in order, and row `i` holds the playlist's id,
/// the position `i` and the `i`-th item.
pub proof fn lemma_playlist_item_columns(playlist: Playlist)
    ensures
        playlist_item_rows(playlist).len() == playlist.item_ids@.len(),
        forall|i: int| 0 <= i < playlist.item_ids@.len() ==> {
            &&& PLAYLIST_ITEMS_INSERT@ == "INSERT INTO playlist_items ("@
                + column_list(playlist_item_columns(playlist, i).map_values(|c: (Seq<char>, SqlValue)| c.0)) + ") "@
            &&& #[trigger] playlist_item_rows(playlist)[i] == playlist_item_columns(playlist, i).map_values(|c: (Seq<char>, SqlValue)| c.1)
        },
{
    reveal_strlit("INSERT INTO playlist_items (playlist_id, position, item_id) ");
    reveal_strlit("INSERT INTO playlist_items (");
    reveal_strlit(") ");
    reveal_strlit(", ");
    reveal_strlit("playlist_id");
    reveal_strlit("position");
    reveal_strlit("item_id");
    reveal_with_fuel(column_list, 4);
    assert forall|i: int| 0 <= i < playlist.item_ids@.len() implies {
        &&& PLAYLIST_ITEMS_INSERT@ == "INSERT INTO playlist_items ("@
            + column_list(playlist_item_columns(playlist, i).map_values(|c: (Seq<char>, SqlValue)| c.0)) + ") "@
        &&& #[trigger] playlist_item_rows(playlist)[i] == playlist_item_columns(playlist, i).map_values(|c: (Seq<char>, SqlValue)| c.1)
    } by {
        let names = playlist_item_columns(playlist, i).map_values(|c: (Seq<char>, SqlValue)| c.0);
        assert(PLAYLIST_ITEMS_INSERT@ =~= "INSERT INTO playlist_items ("@ + column_list(names) + ") "@);
        assert(playlist_item_rows(playlist)[i] =~= playlist_item_columns(playlist, i).map_values(|c: (Seq<char>, SqlValue)| c.1));
    }
}

} // verus!
