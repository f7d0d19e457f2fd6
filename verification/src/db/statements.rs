//! The statements that write, read and prune the mirror of each resource.
//! The statements of one write are meant to run in one transaction, in order.

use vstd::prelude::*;
use vstd::string::*;

use crate::api::{Album, Artist, AuthToken, CodecConversion, Genre, Label, Play, Playlist, Track, User};
use crate::db::records::{
    read_text, text_of, RowError, user_record, user_values, artist_record, artist_values,
    genre_record, genre_values, label_record, label_values, codec_conversion_record,
    codec_conversion_values, auth_token_record, auth_token_values, play_record, play_values,
    album_record, album_values, track_record, track_values, playlist_record, playlist_values,
    album_artist_rows, album_label_rows, track_artist_rows, track_genre_rows,
    playlist_item_rows, album_artist_values, album_label_values, track_artist_values,
    track_genre_values, playlist_item_values,
};
use crate::sync::Resource;
use crate::db::sql::{
    chunks, delete_in_statement, delete_in_statements, DELETE_CHUNK, delete_in_statements_exec, insert_statements, insert_statements_exec,
    views, SqlValue, Statement, StatementView, INSERT_CHUNK,
};

verus! {

broadcast use vstd::seq::Seq::lemma_flatten_push;

/// The head of the bulk insert into `table`: its record columns, then `loaded_at`.
pub open spec fn insert_head(table: Seq<char>, columns: Seq<char>) -> Seq<char> {
    "INSERT INTO "@ + table + " ("@ + columns + ", loaded_at) "@
}

/// The head of the bulk insert into `table`: its record columns, then `loaded_at`.
fn insert_head_exec(table: &str, columns: &str) -> (r: String)
    ensures
        r@ == insert_head(table@, columns@),
{
    let mut r = String::new();
    r.append("INSERT INTO ");
    r.append(table);
    r.append(" (");
    r.append(columns);
    r.append(", loaded_at) ");
    assert(r@ =~= insert_head(table@, columns@));
    r
}

/// The columns of `users` that hold a record, in order; a `loaded_at`
/// column follows them.
pub const USERS_COLUMNS: &'static str = "id, name, permission";

/// What the bulk insert into `users` does to a row whose id is taken.
pub const USERS_UPSERT: &'static str = " ON CONFLICT(id) DO UPDATE SET name = excluded.name, permission = excluded.permission, loaded_at = excluded.loaded_at";

/// The rows that store `items`, each stamped with `loaded_at_ms`.
pub open spec fn user_rows(items: Seq<User>, loaded_at_ms: i64) -> Seq<Seq<SqlValue>> {
    items.map_values(|x: User| user_record(x).push(SqlValue::Integer(loaded_at_ms)))
}

/// The rows that store `items`, each stamped with `loaded_at_ms`.
fn user_row_values(items: &[User], loaded_at_ms: i64) -> (r: Vec<Vec<SqlValue>>)
    ensures
        r@.map_values(|v: Vec<SqlValue>| v@) == user_rows(items@, loaded_at_ms),
{
    let mut r: Vec<Vec<SqlValue>> = Vec::new();
    let n = items.len();
    let mut i: usize = 0;
    while i < n
        invariant
            i <= n == items@.len(),
            r@.map_values(|v: Vec<SqlValue>| v@) == user_rows(items@, loaded_at_ms).take(i as int),
        decreases n - i,
    {
        let mut row = user_values(&items[i]);
        row.push(SqlValue::Integer(loaded_at_ms));
        let ghost before = r@;
        let ghost rv = row@;
        assert(rv == user_rows(items@, loaded_at_ms)[i as int]);
        r.push(row);
        assert(r@.map_values(|v: Vec<SqlValue>| v@) =~= before.map_values(|v: Vec<SqlValue>| v@).push(rv));
        assert(user_rows(items@, loaded_at_ms).take(i + 1) =~= user_rows(items@, loaded_at_ms).take(i as int).push(rv));
        i = i + 1;
    }
    assert(user_rows(items@, loaded_at_ms).take(n as int) =~= user_rows(items@, loaded_at_ms));
    r
}

/// The statements that insert or update `items` in `users`, stamped with
/// `loaded_at_ms`, fifty to a statement; none when `items` is empty.
pub fn upsert_users(items: &[User], loaded_at_ms: i64) -> (r: Vec<Statement>)
    ensures
        views(r@) == insert_statements(insert_head(Resource::Users.table()@, USERS_COLUMNS@), USERS_UPSERT@, user_rows(items@, loaded_at_ms), 4),
        items@.len() == 0 ==> r@.len() == 0,
{
    let rows = user_row_values(items, loaded_at_ms);
    let r = insert_statements_exec(insert_head_exec(Resource::Users.table_name(), USERS_COLUMNS).as_str(), USERS_UPSERT, &rows, 4);
    proof {
        if items@.len() == 0 {
            assert(chunks(user_rows(items@, loaded_at_ms), INSERT_CHUNK as nat) =~= Seq::<Seq<Seq<SqlValue>>>::empty());
            assert(views(r@).len() == 0);
        }
    }
    r
}

/// The columns of `artists` that hold a record, in order; a `loaded_at`
/// column follows them.
pub const ARTISTS_COLUMNS: &'static str = "id, name, normalized_name, review_comment, image, image100, image250, image500, image_type, created_at, updated_at";

/// What the bulk insert into `artists` does to a row whose id is taken.
pub const ARTISTS_UPSERT: &'static str = " ON CONFLICT(id) DO UPDATE SET name = excluded.name, normalized_name = excluded.normalized_name, review_comment = excluded.review_comment, image = excluded.image, image100 = excluded.image100, image250 = excluded.image250, image500 = excluded.image500, image_type = excluded.image_type, created_at = excluded.created_at, updated_at = excluded.updated_at, loaded_at = excluded.loaded_at";

/// The rows that store `items`, each stamped with `loaded_at_ms`.
pub open spec fn artist_rows(items: Seq<Artist>, loaded_at_ms: i64) -> Seq<Seq<SqlValue>> {
    items.map_values(|x: Artist| artist_record(x).push(SqlValue::Integer(loaded_at_ms)))
}

/// The rows that store `items`, each stamped with `loaded_at_ms`.
fn artist_row_values(items: &[Artist], loaded_at_ms: i64) -> (r: Vec<Vec<SqlValue>>)
    ensures
        r@.map_values(|v: Vec<SqlValue>| v@) == artist_rows(items@, loaded_at_ms),
{
    let mut r: Vec<Vec<SqlValue>> = Vec::new();
    let n = items.len();
    let mut i: usize = 0;
    while i < n
        invariant
            i <= n == items@.len(),
            r@.map_values(|v: Vec<SqlValue>| v@) == artist_rows(items@, loaded_at_ms).take(i as int),
        decreases n - i,
    {
        let mut row = artist_values(&items[i]);
        row.push(SqlValue::Integer(loaded_at_ms));
        let ghost before = r@;
        let ghost rv = row@;
        assert(rv == artist_rows(items@, loaded_at_ms)[i as int]);
        r.push(row);
        assert(r@.map_values(|v: Vec<SqlValue>| v@) =~= before.map_values(|v: Vec<SqlValue>| v@).push(rv));
        assert(artist_rows(items@, loaded_at_ms).take(i + 1) =~= artist_rows(items@, loaded_at_ms).take(i as int).push(rv));
        i = i + 1;
    }
    assert(artist_rows(items@, loaded_at_ms).take(n as int) =~= artist_rows(items@, loaded_at_ms));
    r
}

/// The statements that insert or update `items` in `artists`, stamped with
/// `loaded_at_ms`, fifty to a statement; none when `items` is empty.
pub fn upsert_artists(items: &[Artist], loaded_at_ms: i64) -> (r: Vec<Statement>)
    ensures
        views(r@) == insert_statements(insert_head(Resource::Artists.table()@, ARTISTS_COLUMNS@), ARTISTS_UPSERT@, artist_rows(items@, loaded_at_ms), 12),
        items@.len() == 0 ==> r@.len() == 0,
{
    let rows = artist_row_values(items, loaded_at_ms);
    let r = insert_statements_exec(insert_head_exec(Resource::Artists.table_name(), ARTISTS_COLUMNS).as_str(), ARTISTS_UPSERT, &rows, 12);
    proof {
        if items@.len() == 0 {
            assert(chunks(artist_rows(items@, loaded_at_ms), INSERT_CHUNK as nat) =~= Seq::<Seq<Seq<SqlValue>>>::empty());
            assert(views(r@).len() == 0);
        }
    }
    r
}

/// The columns of `genres` that hold a record, in order; a `loaded_at`
/// column follows them.
pub const GENRES_COLUMNS: &'static str = "id, name, normalized_name";

/// What the bulk insert into `genres` does to a row whose id is taken.
pub const GENRES_UPSERT: &'static str = " ON CONFLICT(id) DO UPDATE SET name = excluded.name, normalized_name = excluded.normalized_name, loaded_at = excluded.loaded_at";

/// The rows that store `items`, each stamped with `loaded_at_ms`.
pub open spec fn genre_rows(items: Seq<Genre>, loaded_at_ms: i64) -> Seq<Seq<SqlValue>> {
    items.map_values(|x: Genre| genre_record(x).push(SqlValue::Integer(loaded_at_ms)))
}

/// The rows that store `items`, each stamped with `loaded_at_ms`.
fn genre_row_values(items: &[Genre], loaded_at_ms: i64) -> (r: Vec<Vec<SqlValue>>)
    ensures
        r@.map_values(|v: Vec<SqlValue>| v@) == genre_rows(items@, loaded_at_ms),
{
    let mut r: Vec<Vec<SqlValue>> = Vec::new();
    let n = items.len();
    let mut i: usize = 0;
    while i < n
        invariant
            i <= n == items@.len(),
            r@.map_values(|v: Vec<SqlValue>| v@) == genre_rows(items@, loaded_at_ms).take(i as int),
        decreases n - i,
    {
        let mut row = genre_values(&items[i]);
        row.push(SqlValue::Integer(loaded_at_ms));
        let ghost before = r@;
        let ghost rv = row@;
        assert(rv == genre_rows(items@, loaded_at_ms)[i as int]);
        r.push(row);
        assert(r@.map_values(|v: Vec<SqlValue>| v@) =~= before.map_values(|v: Vec<SqlValue>| v@).push(rv));
        assert(genre_rows(items@, loaded_at_ms).take(i + 1) =~= genre_rows(items@, loaded_at_ms).take(i as int).push(rv));
        i = i + 1;
    }
    assert(genre_rows(items@, loaded_at_ms).take(n as int) =~= genre_rows(items@, loaded_at_ms));
    r
}

/// The statements that insert or update `items` in `genres`, stamped with
/// `loaded_at_ms`, fifty to a statement; none when `items` is empty.
pub fn upsert_genres(items: &[Genre], loaded_at_ms: i64) -> (r: Vec<Statement>)
    ensures
        views(r@) == insert_statements(insert_head(Resource::Genres.table()@, GENRES_COLUMNS@), GENRES_UPSERT@, genre_rows(items@, loaded_at_ms), 4),
        items@.len() == 0 ==> r@.len() == 0,
{
    let rows = genre_row_values(items, loaded_at_ms);
    let r = insert_statements_exec(insert_head_exec(Resource::Genres.table_name(), GENRES_COLUMNS).as_str(), GENRES_UPSERT, &rows, 4);
    proof {
        if items@.len() == 0 {
            assert(chunks(genre_rows(items@, loaded_at_ms), INSERT_CHUNK as nat) =~= Seq::<Seq<Seq<SqlValue>>>::empty());
            assert(views(r@).len() == 0);
        }
    }
    r
}

/// The columns of `labels` that hold a record, in order; a `loaded_at`
/// column follows them.
pub const LABELS_COLUMNS: &'static str = "id, name, normalized_name";

/// What the bulk insert into `labels` does to a row whose id is taken.
pub const LABELS_UPSERT: &'static str = " ON CONFLICT(id) DO UPDATE SET name = excluded.name, normalized_name = excluded.normalized_name, loaded_at = excluded.loaded_at";

/// The rows that store `items`, each stamped with `loaded_at_ms`.
pub open spec fn label_rows(items: Seq<Label>, loaded_at_ms: i64) -> Seq<Seq<SqlValue>> {
    items.map_values(|x: Label| label_record(x).push(SqlValue::Integer(loaded_at_ms)))
}

/// The rows that store `items`, each stamped with `loaded_at_ms`.
fn label_row_values(items: &[Label], loaded_at_ms: i64) -> (r: Vec<Vec<SqlValue>>)
    ensures
        r@.map_values(|v: Vec<SqlValue>| v@) == label_rows(items@, loaded_at_ms),
{
    let mut r: Vec<Vec<SqlValue>> = Vec::new();
    let n = items.len();
    let mut i: usize = 0;
    while i < n
        invariant
            i <= n == items@.len(),
            r@.map_values(|v: Vec<SqlValue>| v@) == label_rows(items@, loaded_at_ms).take(i as int),
        decreases n - i,
    {
        let mut row = label_values(&items[i]);
        row.push(SqlValue::Integer(loaded_at_ms));
        let ghost before = r@;
        let ghost rv = row@;
        assert(rv == label_rows(items@, loaded_at_ms)[i as int]);
        r.push(row);
        assert(r@.map_values(|v: Vec<SqlValue>| v@) =~= before.map_values(|v: Vec<SqlValue>| v@).push(rv));
        assert(label_rows(items@, loaded_at_ms).take(i + 1) =~= label_rows(items@, loaded_at_ms).take(i as int).push(rv));
        i = i + 1;
    }
    assert(label_rows(items@, loaded_at_ms).take(n as int) =~= label_rows(items@, loaded_at_ms));
    r
}

/// The statements that insert or update `items` in `labels`, stamped with
/// `loaded_at_ms`, fifty to a statement; none when `items` is empty.
pub fn upsert_labels(items: &[Label], loaded_at_ms: i64) -> (r: Vec<Statement>)
    ensures
        views(r@) == insert_statements(insert_head(Resource::Labels.table()@, LABELS_COLUMNS@), LABELS_UPSERT@, label_rows(items@, loaded_at_ms), 4),
        items@.len() == 0 ==> r@.len() == 0,
{
    let rows = label_row_values(items, loaded_at_ms);
    let r = insert_statements_exec(insert_head_exec(Resource::Labels.table_name(), LABELS_COLUMNS).as_str(), LABELS_UPSERT, &rows, 4);
    proof {
        if items@.len() == 0 {
            assert(chunks(label_rows(items@, loaded_at_ms), INSERT_CHUNK as nat) =~= Seq::<Seq<Seq<SqlValue>>>::empty());
            assert(views(r@).len() == 0);
        }
    }
    r
}

/// The columns of `codec_conversions` that hold a record, in order; a `loaded_at`
/// column follows them.
pub const CODEC_CONVERSIONS_COLUMNS: &'static str = "id, name, ffmpeg_params, resulting_codec_id";

/// What the bulk insert into `codec_conversions` does to a row whose id is taken.
pub const CODEC_CONVERSIONS_UPSERT: &'static str = " ON CONFLICT(id) DO UPDATE SET name = excluded.name, ffmpeg_params = excluded.ffmpeg_params, resulting_codec_id = excluded.resulting_codec_id, loaded_at = excluded.loaded_at";

/// The rows that store `items`, each stamped with `loaded_at_ms`.
pub open spec fn codec_conversion_rows(items: Seq<CodecConversion>, loaded_at_ms: i64) -> Seq<Seq<SqlValue>> {
    items.map_values(|x: CodecConversion| codec_conversion_record(x).push(SqlValue::Integer(loaded_at_ms)))
}

/// The rows that store `items`, each stamped with `loaded_at_ms`.
fn codec_conversion_row_values(items: &[CodecConversion], loaded_at_ms: i64) -> (r: Vec<Vec<SqlValue>>)
    ensures
        r@.map_values(|v: Vec<SqlValue>| v@) == codec_conversion_rows(items@, loaded_at_ms),
{
    let mut r: Vec<Vec<SqlValue>> = Vec::new();
    let n = items.len();
    let mut i: usize = 0;
    while i < n
        invariant
            i <= n == items@.len(),
            r@.map_values(|v: Vec<SqlValue>| v@) == codec_conversion_rows(items@, loaded_at_ms).take(i as int),
        decreases n - i,
    {
        let mut row = codec_conversion_values(&items[i]);
        row.push(SqlValue::Integer(loaded_at_ms));
        let ghost before = r@;
        let ghost rv = row@;
        assert(rv == codec_conversion_rows(items@, loaded_at_ms)[i as int]);
        r.push(row);
        assert(r@.map_values(|v: Vec<SqlValue>| v@) =~= before.map_values(|v: Vec<SqlValue>| v@).push(rv));
        assert(codec_conversion_rows(items@, loaded_at_ms).take(i + 1) =~= codec_conversion_rows(items@, loaded_at_ms).take(i as int).push(rv));
        i = i + 1;
    }
    assert(codec_conversion_rows(items@, loaded_at_ms).take(n as int) =~= codec_conversion_rows(items@, loaded_at_ms));
    r
}

/// The statements that insert or update `items` in `codec_conversions`, stamped with
/// `loaded_at_ms`, fifty to a statement; none when `items` is empty.
pub fn upsert_codec_conversions(items: &[CodecConversion], loaded_at_ms: i64) -> (r: Vec<Statement>)
    ensures
        views(r@) == insert_statements(insert_head(Resource::CodecConversions.table()@, CODEC_CONVERSIONS_COLUMNS@), CODEC_CONVERSIONS_UPSERT@, codec_conversion_rows(items@, loaded_at_ms), 5),
        items@.len() == 0 ==> r@.len() == 0,
{
    let rows = codec_conversion_row_values(items, loaded_at_ms);
    let r = insert_statements_exec(insert_head_exec(Resource::CodecConversions.table_name(), CODEC_CONVERSIONS_COLUMNS).as_str(), CODEC_CONVERSIONS_UPSERT, &rows, 5);
    proof {
        if items@.len() == 0 {
            assert(chunks(codec_conversion_rows(items@, loaded_at_ms), INSERT_CHUNK as nat) =~= Seq::<Seq<Seq<SqlValue>>>::empty());
            assert(views(r@).len() == 0);
        }
    }
    r
}

/// The columns of `auth_tokens` that hold a record, in order; a `loaded_at`
/// column follows them.
pub const AUTH_TOKENS_COLUMNS: &'static str = "id, user_id, user_agent, application";

/// What the bulk insert into `auth_tokens` does to a row whose id is taken.
pub const AUTH_TOKENS_UPSERT: &'static str = " ON CONFLICT(id) DO UPDATE SET user_id = excluded.user_id, user_agent = excluded.user_agent, application = excluded.application, loaded_at = excluded.loaded_at";

/// The rows that store `items`, each stamped with `loaded_at_ms`.
pub open spec fn auth_token_rows(items: Seq<AuthToken>, loaded_at_ms: i64) -> Seq<Seq<SqlValue>> {
    items.map_values(|x: AuthToken| auth_token_record(x).push(SqlValue::Integer(loaded_at_ms)))
}

/// The rows that store `items`, each stamped with `loaded_at_ms`.
fn auth_token_row_values(items: &[AuthToken], loaded_at_ms: i64) -> (r: Vec<Vec<SqlValue>>)
    ensures
        r@.map_values(|v: Vec<SqlValue>| v@) == auth_token_rows(items@, loaded_at_ms),
{
    let mut r: Vec<Vec<SqlValue>> = Vec::new();
    let n = items.len();
    let mut i: usize = 0;
    while i < n
        invariant
            i <= n == items@.len(),
            r@.map_values(|v: Vec<SqlValue>| v@) == auth_token_rows(items@, loaded_at_ms).take(i as int),
        decreases n - i,
    {
        let mut row = auth_token_values(&items[i]);
        row.push(SqlValue::Integer(loaded_at_ms));
        let ghost before = r@;
        let ghost rv = row@;
        assert(rv == auth_token_rows(items@, loaded_at_ms)[i as int]);
        r.push(row);
        assert(r@.map_values(|v: Vec<SqlValue>| v@) =~= before.map_values(|v: Vec<SqlValue>| v@).push(rv));
        assert(auth_token_rows(items@, loaded_at_ms).take(i + 1) =~= auth_token_rows(items@, loaded_at_ms).take(i as int).push(rv));
        i = i + 1;
    }
    assert(auth_token_rows(items@, loaded_at_ms).take(n as int) =~= auth_token_rows(items@, loaded_at_ms));
    r
}

/// The statements that insert or update `items` in `auth_tokens`, stamped with
/// `loaded_at_ms`, fifty to a statement; none when `items` is empty.
pub fn upsert_auth_tokens(items: &[AuthToken], loaded_at_ms: i64) -> (r: Vec<Statement>)
    ensures
        views(r@) == insert_statements(insert_head(Resource::AuthTokens.table()@, AUTH_TOKENS_COLUMNS@), AUTH_TOKENS_UPSERT@, auth_token_rows(items@, loaded_at_ms), 5),
        items@.len() == 0 ==> r@.len() == 0,
{
    let rows = auth_token_row_values(items, loaded_at_ms);
    let r = insert_statements_exec(insert_head_exec(Resource::AuthTokens.table_name(), AUTH_TOKENS_COLUMNS).as_str(), AUTH_TOKENS_UPSERT, &rows, 5);
    proof {
        if items@.len() == 0 {
            assert(chunks(auth_token_rows(items@, loaded_at_ms), INSERT_CHUNK as nat) =~= Seq::<Seq<Seq<SqlValue>>>::empty());
            assert(views(r@).len() == 0);
        }
    }
    r
}

/// The columns of `plays` that hold a record, in order; a `loaded_at`
/// column follows them.
pub const PLAYS_COLUMNS: &'static str = "id, played_at, track_id, user_id";

/// What the bulk insert into `plays` does to a row whose id is taken.
pub const PLAYS_UPSERT: &'static str = " ON CONFLICT(id) DO UPDATE SET played_at = excluded.played_at, track_id = excluded.track_id, user_id = excluded.user_id, loaded_at = excluded.loaded_at";

/// The rows that store `items`, each stamped with `loaded_at_ms`.
pub open spec fn play_rows(items: Seq<Play>, loaded_at_ms: i64) -> Seq<Seq<SqlValue>> {
    items.map_values(|x: Play| play_record(x).push(SqlValue::Integer(loaded_at_ms)))
}

/// The rows that store `items`, each stamped with `loaded_at_ms`.
fn play_row_values(items: &[Play], loaded_at_ms: i64) -> (r: Vec<Vec<SqlValue>>)
    ensures
        r@.map_values(|v: Vec<SqlValue>| v@) == play_rows(items@, loaded_at_ms),
{
    let mut r: Vec<Vec<SqlValue>> = Vec::new();
    let n = items.len();
    let mut i: usize = 0;
    while i < n
        invariant
            i <= n == items@.len(),
            r@.map_values(|v: Vec<SqlValue>| v@) == play_rows(items@, loaded_at_ms).take(i as int),
        decreases n - i,
    {
        let mut row = play_values(&items[i]);
        row.push(SqlValue::Integer(loaded_at_ms));
        let ghost before = r@;
        let ghost rv = row@;
        assert(rv == play_rows(items@, loaded_at_ms)[i as int]);
        r.push(row);
        assert(r@.map_values(|v: Vec<SqlValue>| v@) =~= before.map_values(|v: Vec<SqlValue>| v@).push(rv));
        assert(play_rows(items@, loaded_at_ms).take(i + 1) =~= play_rows(items@, loaded_at_ms).take(i as int).push(rv));
        i = i + 1;
    }
    assert(play_rows(items@, loaded_at_ms).take(n as int) =~= play_rows(items@, loaded_at_ms));
    r
}

/// The statements that insert or update `items` in `plays`, stamped with
/// `loaded_at_ms`, fifty to a statement; none when `items` is empty.
pub fn upsert_plays(items: &[Play], loaded_at_ms: i64) -> (r: Vec<Statement>)
    ensures
        views(r@) == insert_statements(insert_head(Resource::Plays.table()@, PLAYS_COLUMNS@), PLAYS_UPSERT@, play_rows(items@, loaded_at_ms), 5),
        items@.len() == 0 ==> r@.len() == 0,
{
    let rows = play_row_values(items, loaded_at_ms);
    let r = insert_statements_exec(insert_head_exec(Resource::Plays.table_name(), PLAYS_COLUMNS).as_str(), PLAYS_UPSERT, &rows, 5);
    proof {
        if items@.len() == 0 {
            assert(chunks(play_rows(items@, loaded_at_ms), INSERT_CHUNK as nat) =~= Seq::<Seq<Seq<SqlValue>>>::empty());
            assert(views(r@).len() == 0);
        }
    }
    r
}

/// The columns of `albums` that hold a record, in order; a `loaded_at`
/// column follows them.
pub const ALBUMS_COLUMNS: &'static str = "id, title, normalized_title, release, review_comment, edition, edition_description, image, image100, image250, image500, image_type, created_at, updated_at";

/// What the bulk insert into `albums` does to a row whose id is taken.
pub const ALBUMS_UPSERT: &'static str = " ON CONFLICT(id) DO UPDATE SET title = excluded.title, normalized_title = excluded.normalized_title, release = excluded.release, review_comment = excluded.review_comment, edition = excluded.edition, edition_description = excluded.edition_description, image = excluded.image, image100 = excluded.image100, image250 = excluded.image250, image500 = excluded.image500, image_type = excluded.image_type, created_at = excluded.created_at, updated_at = excluded.updated_at, loaded_at = excluded.loaded_at";

/// The rows that store `items`, each stamped with `loaded_at_ms`.
pub open spec fn album_rows(items: Seq<Album>, loaded_at_ms: i64) -> Seq<Seq<SqlValue>> {
    items.map_values(|x: Album| album_record(x).push(SqlValue::Integer(loaded_at_ms)))
}

/// The rows that store `items`, each stamped with `loaded_at_ms`.
fn album_row_values(items: &[Album], loaded_at_ms: i64) -> (r: Vec<Vec<SqlValue>>)
    ensures
        r@.map_values(|v: Vec<SqlValue>| v@) == album_rows(items@, loaded_at_ms),
{
    let mut r: Vec<Vec<SqlValue>> = Vec::new();
    let n = items.len();
    let mut i: usize = 0;
    while i < n
        invariant
            i <= n == items@.len(),
            r@.map_values(|v: Vec<SqlValue>| v@) == album_rows(items@, loaded_at_ms).take(i as int),
        decreases n - i,
    {
        let mut row = album_values(&items[i]);
        row.push(SqlValue::Integer(loaded_at_ms));
        let ghost before = r@;
        let ghost rv = row@;
        assert(rv == album_rows(items@, loaded_at_ms)[i as int]);
        r.push(row);
        assert(r@.map_values(|v: Vec<SqlValue>| v@) =~= before.map_values(|v: Vec<SqlValue>| v@).push(rv));
        assert(album_rows(items@, loaded_at_ms).take(i + 1) =~= album_rows(items@, loaded_at_ms).take(i as int).push(rv));
        i = i + 1;
    }
    assert(album_rows(items@, loaded_at_ms).take(n as int) =~= album_rows(items@, loaded_at_ms));
    r
}

/// The columns of `tracks` that hold a record, in order; a `loaded_at`
/// column follows them.
pub const TRACKS_COLUMNS: &'static str = "id, title, normalized_title, number, album_id, review_comment, codec_id, length, bitrate, location_id, audio_file_id, filename, sample_rate, bit_depth, created_at, updated_at";

/// What the bulk insert into `tracks` does to a row whose id is taken.
pub const TRACKS_UPSERT: &'static str = " ON CONFLICT(id) DO UPDATE SET title = excluded.title, normalized_title = excluded.normalized_title, number = excluded.number, album_id = excluded.album_id, review_comment = excluded.review_comment, codec_id = excluded.codec_id, length = excluded.length, bitrate = excluded.bitrate, location_id = excluded.location_id, audio_file_id = excluded.audio_file_id, filename = excluded.filename, sample_rate = excluded.sample_rate, bit_depth = excluded.bit_depth, created_at = excluded.created_at, updated_at = excluded.updated_at, loaded_at = excluded.loaded_at";

/// The rows that store `items`, each stamped with `loaded_at_ms`.
pub open spec fn track_rows(items: Seq<Track>, loaded_at_ms: i64) -> Seq<Seq<SqlValue>> {
    items.map_values(|x: Track| track_record(x).push(SqlValue::Integer(loaded_at_ms)))
}

/// The rows that store `items`, each stamped with `loaded_at_ms`.
fn track_row_values(items: &[Track], loaded_at_ms: i64) -> (r: Vec<Vec<SqlValue>>)
    ensures
        r@.map_values(|v: Vec<SqlValue>| v@) == track_rows(items@, loaded_at_ms),
{
    let mut r: Vec<Vec<SqlValue>> = Vec::new();
    let n = items.len();
    let mut i: usize = 0;
    while i < n
        invariant
            i <= n == items@.len(),
            r@.map_values(|v: Vec<SqlValue>| v@) == track_rows(items@, loaded_at_ms).take(i as int),
        decreases n - i,
    {
        let mut row = track_values(&items[i]);
        row.push(SqlValue::Integer(loaded_at_ms));
        let ghost before = r@;
        let ghost rv = row@;
        assert(rv == track_rows(items@, loaded_at_ms)[i as int]);
        r.push(row);
        assert(r@.map_values(|v: Vec<SqlValue>| v@) =~= before.map_values(|v: Vec<SqlValue>| v@).push(rv));
        assert(track_rows(items@, loaded_at_ms).take(i + 1) =~= track_rows(items@, loaded_at_ms).take(i as int).push(rv));
        i = i + 1;
    }
    assert(track_rows(items@, loaded_at_ms).take(n as int) =~= track_rows(items@, loaded_at_ms));
    r
}

/// The columns of `playlists` that hold a record, in order; a `loaded_at`
/// column follows them.
pub const PLAYLISTS_COLUMNS: &'static str = "id, name, description, user_id, access, playlist_type, created_at, updated_at";

/// What the bulk insert into `playlists` does to a row whose id is taken.
pub const PLAYLISTS_UPSERT: &'static str = " ON CONFLICT(id) DO UPDATE SET name = excluded.name, description = excluded.description, user_id = excluded.user_id, access = excluded.access, playlist_type = excluded.playlist_type, created_at = excluded.created_at, updated_at = excluded.updated_at, loaded_at = excluded.loaded_at";

/// The rows that store `items`, each stamped with `loaded_at_ms`.
pub open spec fn playlist_rows(items: Seq<Playlist>, loaded_at_ms: i64) -> Seq<Seq<SqlValue>> {
    items.map_values(|x: Playlist| playlist_record(x).push(SqlValue::Integer(loaded_at_ms)))
}

/// The rows that store `items`, each stamped with `loaded_at_ms`.
fn playlist_row_values(items: &[Playlist], loaded_at_ms: i64) -> (r: Vec<Vec<SqlValue>>)
    ensures
        r@.map_values(|v: Vec<SqlValue>| v@) == playlist_rows(items@, loaded_at_ms),
{
    let mut r: Vec<Vec<SqlValue>> = Vec::new();
    let n = items.len();
    let mut i: usize = 0;
    while i < n
        invariant
            i <= n == items@.len(),
            r@.map_values(|v: Vec<SqlValue>| v@) == playlist_rows(items@, loaded_at_ms).take(i as int),
        decreases n - i,
    {
        let mut row = playlist_values(&items[i]);
        row.push(SqlValue::Integer(loaded_at_ms));
        let ghost before = r@;
        let ghost rv = row@;
        assert(rv == playlist_rows(items@, loaded_at_ms)[i as int]);
        r.push(row);
        assert(r@.map_values(|v: Vec<SqlValue>| v@) =~= before.map_values(|v: Vec<SqlValue>| v@).push(rv));
        assert(playlist_rows(items@, loaded_at_ms).take(i + 1) =~= playlist_rows(items@, loaded_at_ms).take(i as int).push(rv));
        i = i + 1;
    }
    assert(playlist_rows(items@, loaded_at_ms).take(n as int) =~= playlist_rows(items@, loaded_at_ms));
    r
}

/// The rows of `album_artists` for all of `items`, item after item.
pub open spec fn all_album_artist_rows(items: Seq<Album>) -> Seq<Seq<SqlValue>> {
    items.map_values(|x: Album| album_artist_rows(x)).flatten()
}

/// The rows of `album_artists` for all of `items`, item after item.
fn all_album_artist_values(items: &[Album]) -> (r: Vec<Vec<SqlValue>>)
    ensures
        r@.map_values(|v: Vec<SqlValue>| v@) == all_album_artist_rows(items@),
{
    let mut r: Vec<Vec<SqlValue>> = Vec::new();
    let n = items.len();
    let mut i: usize = 0;
    while i < n
        invariant
            i <= n == items@.len(),
            r@.map_values(|v: Vec<SqlValue>| v@) == items@.take(i as int).map_values(|x: Album| album_artist_rows(x)).flatten(),
        decreases n - i,
    {
        let mut part = album_artist_values(&items[i]);
        let ghost before = r@;
        let ghost pv = part@;
        r.append(&mut part);
        assert(r@.map_values(|v: Vec<SqlValue>| v@) =~= before.map_values(|v: Vec<SqlValue>| v@) + pv.map_values(|v: Vec<SqlValue>| v@));
        assert(items@.take(i + 1).map_values(|x: Album| album_artist_rows(x))
            =~= items@.take(i as int).map_values(|x: Album| album_artist_rows(x)).push(album_artist_rows(items@[i as int])));
        i = i + 1;
    }
    assert(items@.take(n as int) =~= items@);
    r
}

/// The rows of `album_labels` for all of `items`, item after item.
pub open spec fn all_album_label_rows(items: Seq<Album>) -> Seq<Seq<SqlValue>> {
    items.map_values(|x: Album| album_label_rows(x)).flatten()
}

/// The rows of `album_labels` for all of `items`, item after item.
fn all_album_label_values(items: &[Album]) -> (r: Vec<Vec<SqlValue>>)
    ensures
        r@.map_values(|v: Vec<SqlValue>| v@) == all_album_label_rows(items@),
{
    let mut r: Vec<Vec<SqlValue>> = Vec::new();
    let n = items.len();
    let mut i: usize = 0;
    while i < n
        invariant
            i <= n == items@.len(),
            r@.map_values(|v: Vec<SqlValue>| v@) == items@.take(i as int).map_values(|x: Album| album_label_rows(x)).flatten(),
        decreases n - i,
    {
        let mut part = album_label_values(&items[i]);
        let ghost before = r@;
        let ghost pv = part@;
        r.append(&mut part);
        assert(r@.map_values(|v: Vec<SqlValue>| v@) =~= before.map_values(|v: Vec<SqlValue>| v@) + pv.map_values(|v: Vec<SqlValue>| v@));
        assert(items@.take(i + 1).map_values(|x: Album| album_label_rows(x))
            =~= items@.take(i as int).map_values(|x: Album| album_label_rows(x)).push(album_label_rows(items@[i as int])));
        i = i + 1;
    }
    assert(items@.take(n as int) =~= items@);
    r
}

/// The rows of `track_artists` for all of `items`, item after item.
pub open spec fn all_track_artist_rows(items: Seq<Track>) -> Seq<Seq<SqlValue>> {
    items.map_values(|x: Track| track_artist_rows(x)).flatten()
}

/// The rows of `track_artists` for all of `items`, item after item.
fn all_track_artist_values(items: &[Track]) -> (r: Vec<Vec<SqlValue>>)
    ensures
        r@.map_values(|v: Vec<SqlValue>| v@) == all_track_artist_rows(items@),
{
    let mut r: Vec<Vec<SqlValue>> = Vec::new();
    let n = items.len();
    let mut i: usize = 0;
    while i < n
        invariant
            i <= n == items@.len(),
            r@.map_values(|v: Vec<SqlValue>| v@) == items@.take(i as int).map_values(|x: Track| track_artist_rows(x)).flatten(),
        decreases n - i,
    {
        let mut part = track_artist_values(&items[i]);
        let ghost before = r@;
        let ghost pv = part@;
        r.append(&mut part);
        assert(r@.map_values(|v: Vec<SqlValue>| v@) =~= before.map_values(|v: Vec<SqlValue>| v@) + pv.map_values(|v: Vec<SqlValue>| v@));
        assert(items@.take(i + 1).map_values(|x: Track| track_artist_rows(x))
            =~= items@.take(i as int).map_values(|x: Track| track_artist_rows(x)).push(track_artist_rows(items@[i as int])));
        i = i + 1;
    }
    assert(items@.take(n as int) =~= items@);
    r
}

/// The rows of `track_genres` for all of `items`, item after item.
pub open spec fn all_track_genre_rows(items: Seq<Track>) -> Seq<Seq<SqlValue>> {
    items.map_values(|x: Track| track_genre_rows(x)).flatten()
}

/// The rows of `track_genres` for all of `items`, item after item.
fn all_track_genre_values(items: &[Track]) -> (r: Vec<Vec<SqlValue>>)
    ensures
        r@.map_values(|v: Vec<SqlValue>| v@) == all_track_genre_rows(items@),
{
    let mut r: Vec<Vec<SqlValue>> = Vec::new();
    let n = items.len();
    let mut i: usize = 0;
    while i < n
        invariant
            i <= n == items@.len(),
            r@.map_values(|v: Vec<SqlValue>| v@) == items@.take(i as int).map_values(|x: Track| track_genre_rows(x)).flatten(),
        decreases n - i,
    {
        let mut part = track_genre_values(&items[i]);
        let ghost before = r@;
        let ghost pv = part@;
        r.append(&mut part);
        assert(r@.map_values(|v: Vec<SqlValue>| v@) =~= before.map_values(|v: Vec<SqlValue>| v@) + pv.map_values(|v: Vec<SqlValue>| v@));
        assert(items@.take(i + 1).map_values(|x: Track| track_genre_rows(x))
            =~= items@.take(i as int).map_values(|x: Track| track_genre_rows(x)).push(track_genre_rows(items@[i as int])));
        i = i + 1;
    }
    assert(items@.take(n as int) =~= items@);
    r
}

/// The rows of `playlist_items` for all of `items`, item after item.
pub open spec fn all_playlist_item_rows(items: Seq<Playlist>) -> Seq<Seq<SqlValue>> {
    items.map_values(|x: Playlist| playlist_item_rows(x)).flatten()
}

/// The rows of `playlist_items` for all of `items`, item after item.
fn all_playlist_item_values(items: &[Playlist]) -> (r: Vec<Vec<SqlValue>>)
    ensures
        r@.map_values(|v: Vec<SqlValue>| v@) == all_playlist_item_rows(items@),
{
    let mut r: Vec<Vec<SqlValue>> = Vec::new();
    let n = items.len();
    let mut i: usize = 0;
    while i < n
        invariant
            i <= n == items@.len(),
            r@.map_values(|v: Vec<SqlValue>| v@) == items@.take(i as int).map_values(|x: Playlist| playlist_item_rows(x)).flatten(),
        decreases n - i,
    {
        let mut part = playlist_item_values(&items[i]);
        let ghost before = r@;
        let ghost pv = part@;
        r.append(&mut part);
        assert(r@.map_values(|v: Vec<SqlValue>| v@) =~= before.map_values(|v: Vec<SqlValue>| v@) + pv.map_values(|v: Vec<SqlValue>| v@));
        assert(items@.take(i + 1).map_values(|x: Playlist| playlist_item_rows(x))
            =~= items@.take(i as int).map_values(|x: Playlist| playlist_item_rows(x)).push(playlist_item_rows(items@[i as int])));
        i = i + 1;
    }
    assert(items@.take(n as int) =~= items@);
    r
}

/// The ids of `items`, in order.
fn album_ids(items: &[Album]) -> (r: Vec<i64>)
    ensures
        r@ == items@.map_values(|x: Album| x.id),
{
    let mut r: Vec<i64> = Vec::new();
    let n = items.len();
    let mut i: usize = 0;
    while i < n
        invariant
            i <= n == items@.len(),
            r@ == items@.take(i as int).map_values(|x: Album| x.id),
        decreases n - i,
    {
        r.push(items[i].id);
        i = i + 1;
        assert(r@ =~= items@.take(i as int).map_values(|x: Album| x.id));
    }
    assert(items@.take(n as int) =~= items@);
    r
}

/// The ids of `items`, in order.
fn track_ids(items: &[Track]) -> (r: Vec<i64>)
    ensures
        r@ == items@.map_values(|x: Track| x.id),
{
    let mut r: Vec<i64> = Vec::new();
    let n = items.len();
    let mut i: usize = 0;
    while i < n
        invariant
            i <= n == items@.len(),
            r@ == items@.take(i as int).map_values(|x: Track| x.id),
        decreases n - i,
    {
        r.push(items[i].id);
        i = i + 1;
        assert(r@ =~= items@.take(i as int).map_values(|x: Track| x.id));
    }
    assert(items@.take(n as int) =~= items@);
    r
}

/// The ids of `items`, in order.
fn playlist_ids(items: &[Playlist]) -> (r: Vec<i64>)
    ensures
        r@ == items@.map_values(|x: Playlist| x.id),
{
    let mut r: Vec<i64> = Vec::new();
    let n = items.len();
    let mut i: usize = 0;
    while i < n
        invariant
            i <= n == items@.len(),
            r@ == items@.take(i as int).map_values(|x: Playlist| x.id),
        decreases n - i,
    {
        r.push(items[i].id);
        i = i + 1;
        assert(r@ =~= items@.take(i as int).map_values(|x: Playlist| x.id));
    }
    assert(items@.take(n as int) =~= items@);
    r
}

/// The head of the bulk insert into `album_artists`.
pub const ALBUM_ARTISTS_INSERT: &'static str = "INSERT INTO album_artists (album_id, artist_id, name, normalized_name, \"order\", separator) ";

/// The head of the bulk insert into `album_labels`.
pub const ALBUM_LABELS_INSERT: &'static str = "INSERT INTO album_labels (album_id, label_id, catalogue_number) ";

/// The head of the bulk insert into `track_artists`.
pub const TRACK_ARTISTS_INSERT: &'static str = "INSERT INTO track_artists (track_id, artist_id, role, \"order\", name, normalized_name, hidden) ";

/// The head of the bulk insert into `track_genres`.
pub const TRACK_GENRES_INSERT: &'static str = "INSERT INTO track_genres (track_id, genre_id) ";

/// The head of the bulk insert into `playlist_items`.
pub const PLAYLIST_ITEMS_INSERT: &'static str = "INSERT INTO playlist_items (playlist_id, position, item_id) ";

/// The statements that write `items` to `albums`: the albums themselves,
/// then their artists and labels, each replacing what was stored for them.
pub open spec fn album_statements(items: Seq<Album>, loaded_at_ms: i64) -> Seq<StatementView> {
    let ids = items.map_values(|x: Album| x.id);
    insert_statements(insert_head(Resource::Albums.table()@, ALBUMS_COLUMNS@), ALBUMS_UPSERT@, album_rows(items, loaded_at_ms), 15)
        + delete_in_statements("album_artists"@, "album_id"@, ids)
        + insert_statements(ALBUM_ARTISTS_INSERT@, ""@, all_album_artist_rows(items), 6)
        + delete_in_statements("album_labels"@, "album_id"@, ids)
        + insert_statements(ALBUM_LABELS_INSERT@, ""@, all_album_label_rows(items), 3)
}

/// The statements that write `items` to `tracks`: the tracks themselves,
/// then their artists and genres, each replacing what was stored for them.
pub open spec fn track_statements(items: Seq<Track>, loaded_at_ms: i64) -> Seq<StatementView> {
    let ids = items.map_values(|x: Track| x.id);
    insert_statements(insert_head(Resource::Tracks.table()@, TRACKS_COLUMNS@), TRACKS_UPSERT@, track_rows(items, loaded_at_ms), 17)
        + delete_in_statements("track_artists"@, "track_id"@, ids)
        + insert_statements(TRACK_ARTISTS_INSERT@, ""@, all_track_artist_rows(items), 7)
        + delete_in_statements("track_genres"@, "track_id"@, ids)
        + insert_statements(TRACK_GENRES_INSERT@, ""@, all_track_genre_rows(items), 2)
}

/// The statements that write `items` to `playlists`: the playlists
/// themselves, then their items, replacing what was stored for them.
pub open spec fn playlist_statements(items: Seq<Playlist>, loaded_at_ms: i64) -> Seq<StatementView> {
    insert_statements(insert_head(Resource::Playlists.table()@, PLAYLISTS_COLUMNS@), PLAYLISTS_UPSERT@, playlist_rows(items, loaded_at_ms), 9)
        + delete_in_statements("playlist_items"@, "playlist_id"@, items.map_values(|x: Playlist| x.id))
        + insert_statements(PLAYLIST_ITEMS_INSERT@, ""@, all_playlist_item_rows(items), 3)
}

/// Appends `more` to `out`.
fn append_statements(out: &mut Vec<Statement>, more: Vec<Statement>)
    ensures
        views(final(out)@) == views(old(out)@) + views(more@),
{
    let mut more = more;
    let ghost m = more@;
    out.append(&mut more);
    assert(views(out@) =~= views(old(out)@) + views(m));
}

/// The statements that write `items` to `albums`, stamped with
/// `loaded_at_ms`; none when `items` is empty.
pub fn upsert_albums(items: &[Album], loaded_at_ms: i64) -> (r: Vec<Statement>)
    ensures
        views(r@) == album_statements(items@, loaded_at_ms),
        items@.len() == 0 ==> r@.len() == 0,
{
    let rows = album_row_values(items, loaded_at_ms);
    let ids = album_ids(items);
    let artists = all_album_artist_values(items);
    let labels = all_album_label_values(items);
    let mut r = insert_statements_exec(insert_head_exec(Resource::Albums.table_name(), ALBUMS_COLUMNS).as_str(), ALBUMS_UPSERT, &rows, 15);
    append_statements(&mut r, delete_in_statements_exec("album_artists", "album_id", ids.as_slice()));
    append_statements(&mut r, insert_statements_exec(ALBUM_ARTISTS_INSERT, "", &artists, 6));
    append_statements(&mut r, delete_in_statements_exec("album_labels", "album_id", ids.as_slice()));
    append_statements(&mut r, insert_statements_exec(ALBUM_LABELS_INSERT, "", &labels, 3));
    proof {
        if items@.len() == 0 {
            lemma_album_statements_empty(loaded_at_ms);
        }
    }
    r
}

/// The statements that write `items` to `tracks`, stamped with
/// `loaded_at_ms`; none when `items` is empty.
pub fn upsert_tracks(items: &[Track], loaded_at_ms: i64) -> (r: Vec<Statement>)
    ensures
        views(r@) == track_statements(items@, loaded_at_ms),
        items@.len() == 0 ==> r@.len() == 0,
{
    let rows = track_row_values(items, loaded_at_ms);
    let ids = track_ids(items);
    let artists = all_track_artist_values(items);
    let genres = all_track_genre_values(items);
    let mut r = insert_statements_exec(insert_head_exec(Resource::Tracks.table_name(), TRACKS_COLUMNS).as_str(), TRACKS_UPSERT, &rows, 17);
    append_statements(&mut r, delete_in_statements_exec("track_artists", "track_id", ids.as_slice()));
    append_statements(&mut r, insert_statements_exec(TRACK_ARTISTS_INSERT, "", &artists, 7));
    append_statements(&mut r, delete_in_statements_exec("track_genres", "track_id", ids.as_slice()));
    append_statements(&mut r, insert_statements_exec(TRACK_GENRES_INSERT, "", &genres, 2));
    proof {
        if items@.len() == 0 {
            lemma_track_statements_empty(loaded_at_ms);
        }
    }
    r
}

/// The statements that write `items` to `playlists`, stamped with
/// `loaded_at_ms`; none when `items` is empty.
pub fn upsert_playlists(items: &[Playlist], loaded_at_ms: i64) -> (r: Vec<Statement>)
    ensures
        views(r@) == playlist_statements(items@, loaded_at_ms),
        items@.len() == 0 ==> r@.len() == 0,
{
    let rows = playlist_row_values(items, loaded_at_ms);
    let ids = playlist_ids(items);
    let entries = all_playlist_item_values(items);
    let mut r = insert_statements_exec(insert_head_exec(Resource::Playlists.table_name(), PLAYLISTS_COLUMNS).as_str(), PLAYLISTS_UPSERT, &rows, 9);
    append_statements(&mut r, delete_in_statements_exec("playlist_items", "playlist_id", ids.as_slice()));
    append_statements(&mut r, insert_statements_exec(PLAYLIST_ITEMS_INSERT, "", &entries, 3));
    proof {
        if items@.len() == 0 {
            lemma_playlist_statements_empty(loaded_at_ms);
        }
    }
    r
}

proof fn lemma_album_statements_empty(loaded_at_ms: i64)
    ensures
        album_statements(Seq::empty(), loaded_at_ms).len() == 0,
{
    let e = Seq::<Album>::empty();
    assert(album_rows(e, loaded_at_ms) =~= Seq::empty());
    assert(e.map_values(|x: Album| x.id) =~= Seq::empty());
    assert(e.map_values(|x: Album| album_artist_rows(x)) =~= Seq::empty());
    assert(e.map_values(|x: Album| album_label_rows(x)) =~= Seq::empty());
}

proof fn lemma_track_statements_empty(loaded_at_ms: i64)
    ensures
        track_statements(Seq::empty(), loaded_at_ms).len() == 0,
{
    let e = Seq::<Track>::empty();
    assert(track_rows(e, loaded_at_ms) =~= Seq::empty());
    assert(e.map_values(|x: Track| x.id) =~= Seq::empty());
    assert(e.map_values(|x: Track| track_artist_rows(x)) =~= Seq::empty());
    assert(e.map_values(|x: Track| track_genre_rows(x)) =~= Seq::empty());
}

proof fn lemma_playlist_statements_empty(loaded_at_ms: i64)
    ensures
        playlist_statements(Seq::empty(), loaded_at_ms).len() == 0,
{
    let e = Seq::<Playlist>::empty();
    assert(playlist_rows(e, loaded_at_ms) =~= Seq::empty());
    assert(e.map_values(|x: Playlist| x.id) =~= Seq::empty());
    assert(e.map_values(|x: Playlist| playlist_item_rows(x)) =~= Seq::empty());
}


/// The statement that reads the record columns of the row of `table` with
/// id `id`; the id is bound as the signed integer it is stored as.
pub open spec fn select_by_id(table: Seq<char>, columns: Seq<char>, id: u64) -> StatementView {
    StatementView {
        sql: "SELECT "@ + columns + " FROM "@ + table + " WHERE id = ?"@,
        binds: seq![SqlValue::Integer(id as i64)],
    }
}

/// The statement that reads the record columns of the row of `table` with
/// id `id`.
fn select_by_id_exec(table: &str, columns: &str, id: u64) -> (r: Statement)
    ensures
        r@ == select_by_id(table@, columns@, id),
{
    let mut sql = String::new();
    sql.append("SELECT ");
    sql.append(columns);
    sql.append(" FROM ");
    sql.append(table);
    sql.append(" WHERE id = ?");
    let mut binds: Vec<SqlValue> = Vec::new();
    binds.push(SqlValue::Integer(id as i64));
    assert(binds@ =~= seq![SqlValue::Integer(id as i64)]);
    Statement { sql, binds }
}

/// The statement that reads an artist by id; its columns are those of
/// `artist_record`.
pub fn select_artist(id: u64) -> (r: Statement)
    ensures
        r@ == select_by_id(Resource::Artists.table()@, ARTISTS_COLUMNS@, id),
{
    select_by_id_exec(Resource::Artists.table_name(), ARTISTS_COLUMNS, id)
}

/// The statement that reads an auth token by id; its columns are those of
/// `auth_token_record`.
pub fn select_auth_token(id: u64) -> (r: Statement)
    ensures
        r@ == select_by_id(Resource::AuthTokens.table()@, AUTH_TOKENS_COLUMNS@, id),
{
    select_by_id_exec(Resource::AuthTokens.table_name(), AUTH_TOKENS_COLUMNS, id)
}

/// The statement that reads a codec conversion by id; its columns are those of
/// `codec_conversion_record`.
pub fn select_codec_conversion(id: u64) -> (r: Statement)
    ensures
        r@ == select_by_id(Resource::CodecConversions.table()@, CODEC_CONVERSIONS_COLUMNS@, id),
{
    select_by_id_exec(Resource::CodecConversions.table_name(), CODEC_CONVERSIONS_COLUMNS, id)
}

/// The statement that reads a genre by id; its columns are those of
/// `genre_record`.
pub fn select_genre(id: u64) -> (r: Statement)
    ensures
        r@ == select_by_id(Resource::Genres.table()@, GENRES_COLUMNS@, id),
{
    select_by_id_exec(Resource::Genres.table_name(), GENRES_COLUMNS, id)
}

/// The statement that reads a label by id; its columns are those of
/// `label_record`.
pub fn select_label(id: u64) -> (r: Statement)
    ensures
        r@ == select_by_id(Resource::Labels.table()@, LABELS_COLUMNS@, id),
{
    select_by_id_exec(Resource::Labels.table_name(), LABELS_COLUMNS, id)
}

/// The statement that reads a play by id; its columns are those of
/// `play_record`.
pub fn select_play(id: u64) -> (r: Statement)
    ensures
        r@ == select_by_id(Resource::Plays.table()@, PLAYS_COLUMNS@, id),
{
    select_by_id_exec(Resource::Plays.table_name(), PLAYS_COLUMNS, id)
}

/// The statement that reads a user by id; its columns are those of
/// `user_record`.
pub fn select_user(id: u64) -> (r: Statement)
    ensures
        r@ == select_by_id(Resource::Users.table()@, USERS_COLUMNS@, id),
{
    select_by_id_exec(Resource::Users.table_name(), USERS_COLUMNS, id)
}

/// The statement that reads a playlist, without its items by id; its columns are those of
/// `playlist_record`.
pub fn select_playlist(id: u64) -> (r: Statement)
    ensures
        r@ == select_by_id(Resource::Playlists.table()@, PLAYLISTS_COLUMNS@, id),
{
    select_by_id_exec(Resource::Playlists.table_name(), PLAYLISTS_COLUMNS, id)
}

/// Reads the name of a user by id.
pub const USER_NAME_SELECT: &'static str = "SELECT name FROM users WHERE id = ?";

/// Reads the item ids of a playlist, in the order of their positions.
pub const PLAYLIST_ITEMS_SELECT: &'static str = "SELECT item_id FROM playlist_items WHERE playlist_id = ? ORDER BY position";

/// A statement with one parameter, an id bound as the signed integer it is
/// stored as.
pub open spec fn with_id(sql: &'static str, id: u64) -> StatementView {
    StatementView { sql: sql@, binds: seq![SqlValue::Integer(id as i64)] }
}

/// The statement that reads the name of user `id`.
pub fn select_user_name(id: u64) -> (r: Statement)
    ensures
        r@ == with_id(USER_NAME_SELECT, id),
{
    let mut sql = String::new();
    sql.append(USER_NAME_SELECT);
    let mut binds: Vec<SqlValue> = Vec::new();
    binds.push(SqlValue::Integer(id as i64));
    assert(binds@ =~= seq![SqlValue::Integer(id as i64)]);
    Statement { sql, binds }
}

/// The statement that reads the item ids of playlist `id`, in the order of
/// their positions.
pub fn select_playlist_items(id: u64) -> (r: Statement)
    ensures
        r@ == with_id(PLAYLIST_ITEMS_SELECT, id),
{
    let mut sql = String::new();
    sql.append(PLAYLIST_ITEMS_SELECT);
    let mut binds: Vec<SqlValue> = Vec::new();
    binds.push(SqlValue::Integer(id as i64));
    assert(binds@ =~= seq![SqlValue::Integer(id as i64)]);
    Statement { sql, binds }
}

/// The statement that deletes the rows of `table` loaded before `started_at_ms`.
pub open spec fn prune_loaded_before(table: Seq<char>, started_at_ms: i64) -> StatementView {
    StatementView {
        sql: "DELETE FROM "@ + table + " WHERE loaded_at < ?"@,
        binds: seq![SqlValue::Integer(started_at_ms)],
    }
}

/// The statement that deletes the rows of `table` loaded before `started_at_ms`.
fn prune_loaded_before_exec(table: &str, started_at_ms: i64) -> (r: Statement)
    ensures
        r@ == prune_loaded_before(table@, started_at_ms),
{
    let mut sql = String::new();
    sql.append("DELETE FROM ");
    sql.append(table);
    sql.append(" WHERE loaded_at < ?");
    let mut binds: Vec<SqlValue> = Vec::new();
    binds.push(SqlValue::Integer(started_at_ms));
    assert(binds@ =~= seq![SqlValue::Integer(started_at_ms)]);
    Statement { sql, binds }
}

/// Deletes the artists of albums that are gone.
pub const ALBUM_ARTISTS_ORPHANS: &'static str = "DELETE FROM album_artists WHERE album_id NOT IN (SELECT id FROM albums)";

/// Deletes the labels of albums that are gone.
pub const ALBUM_LABELS_ORPHANS: &'static str = "DELETE FROM album_labels WHERE album_id NOT IN (SELECT id FROM albums)";

/// Deletes the artists of tracks that are gone.
pub const TRACK_ARTISTS_ORPHANS: &'static str = "DELETE FROM track_artists WHERE track_id NOT IN (SELECT id FROM tracks)";

/// Deletes the genres of tracks that are gone.
pub const TRACK_GENRES_ORPHANS: &'static str = "DELETE FROM track_genres WHERE track_id NOT IN (SELECT id FROM tracks)";

/// Deletes the items of playlists that are gone.
pub const PLAYLIST_ITEMS_ORPHANS: &'static str = "DELETE FROM playlist_items WHERE playlist_id NOT IN (SELECT id FROM playlists)";

/// A statement without parameters.
pub open spec fn bare(sql: &'static str) -> StatementView {
    StatementView { sql: sql@, binds: seq![] }
}

/// A statement without parameters.
fn bare_exec(sql: &'static str) -> (r: Statement)
    ensures
        r@ == bare(sql),
{
    let mut text = String::new();
    text.append(sql);
    let binds: Vec<SqlValue> = Vec::new();
    assert(binds@ =~= seq![]);
    Statement { sql: text, binds }
}

/// The statements that drop what a sync that started at `started_at_ms` did
/// not load again: the rows loaded before it, and for albums, tracks and
/// playlists the rows that belonged to records that are gone.
pub open spec fn prune_statements(resource: Resource, started_at_ms: i64) -> Seq<StatementView> {
    let first = prune_loaded_before(resource.table()@, started_at_ms);
    match resource {
        Resource::Albums => seq![first, bare(ALBUM_ARTISTS_ORPHANS), bare(ALBUM_LABELS_ORPHANS)],
        Resource::Tracks => seq![first, bare(TRACK_ARTISTS_ORPHANS), bare(TRACK_GENRES_ORPHANS)],
        Resource::Playlists => seq![first, bare(PLAYLIST_ITEMS_ORPHANS)],
        _ => seq![first],
    }
}

/// The statements that prune `resource` after a sync that started at
/// `started_at_ms`.
pub fn prune(resource: Resource, started_at_ms: i64) -> (r: Vec<Statement>)
    ensures
        views(r@) == prune_statements(resource, started_at_ms),
{
    let mut r: Vec<Statement> = Vec::new();
    r.push(prune_loaded_before_exec(resource.table_name(), started_at_ms));
    match resource {
        Resource::Albums => {
            r.push(bare_exec(ALBUM_ARTISTS_ORPHANS));
            r.push(bare_exec(ALBUM_LABELS_ORPHANS));
        },
        Resource::Tracks => {
            r.push(bare_exec(TRACK_ARTISTS_ORPHANS));
            r.push(bare_exec(TRACK_GENRES_ORPHANS));
        },
        Resource::Playlists => {
            r.push(bare_exec(PLAYLIST_ITEMS_ORPHANS));
        },
        _ => {},
    }
    assert(views(r@) =~= prune_statements(resource, started_at_ms));
    r
}

/// The delete of the rows of `table` whose `column` names a row of
/// `parent` that is gone.
pub open spec fn orphan_delete(table: Seq<char>, column: Seq<char>, parent: Seq<char>) -> StatementView {
    StatementView {
        sql: "DELETE FROM "@ + table + " WHERE "@ + column + " NOT IN (SELECT id FROM "@ + parent + ")"@,
        binds: seq![],
    }
}

/// The tables whose rows belong to the records of `resource`, each with the
/// column that holds the id of the record a row belongs to.
pub open spec fn child_tables(resource: Resource) -> Seq<(Seq<char>, Seq<char>)> {
    match resource {
        Resource::Albums => seq![("album_artists"@, "album_id"@), ("album_labels"@, "album_id"@)],
        Resource::Tracks => seq![("track_artists"@, "track_id"@), ("track_genres"@, "track_id"@)],
        Resource::Playlists => seq![("playlist_items"@, "playlist_id"@)],
        _ => seq![],
    }
}

/// A prune deletes the rows of the resource's table loaded before the
/// start, then, for every table whose rows belong to the resource's records,
/// the rows whose record is gone; and nothing else.
pub proof fn lemma_prune_drops_orphans(resource: Resource, started_at_ms: i64)
    ensures
        prune_statements(resource, started_at_ms).len() == 1 + child_tables(resource).len(),
        prune_statements(resource, started_at_ms)[0].sql == "DELETE FROM "@ + resource.table()@ + " WHERE loaded_at < ?"@,
        prune_statements(resource, started_at_ms)[0].binds == seq![SqlValue::Integer(started_at_ms)],
        forall|k: int| 0 <= k < child_tables(resource).len() ==> #[trigger] prune_statements(resource, started_at_ms)[k + 1]
            == orphan_delete(child_tables(resource)[k].0, child_tables(resource)[k].1, resource.table()@),
{
    reveal_strlit(" NOT IN (SELECT id FROM ");
    reveal_strlit(" WHERE ");
    reveal_strlit(" WHERE loaded_at < ?");
    reveal_strlit(")");
    reveal_strlit("DELETE FROM ");
    reveal_strlit("DELETE FROM album_artists WHERE album_id NOT IN (SELECT id FROM albums)");
    reveal_strlit("DELETE FROM album_labels WHERE album_id NOT IN (SELECT id FROM albums)");
    reveal_strlit("DELETE FROM playlist_items WHERE playlist_id NOT IN (SELECT id FROM playlists)");
    reveal_strlit("DELETE FROM track_artists WHERE track_id NOT IN (SELECT id FROM tracks)");
    reveal_strlit("DELETE FROM track_genres WHERE track_id NOT IN (SELECT id FROM tracks)");
    reveal_strlit("album_artists");
    reveal_strlit("album_id");
    reveal_strlit("album_labels");
    reveal_strlit("albums");
    reveal_strlit("playlist_id");
    reveal_strlit("playlist_items");
    reveal_strlit("playlists");
    reveal_strlit("track_artists");
    reveal_strlit("track_genres");
    reveal_strlit("track_id");
    reveal_strlit("tracks");
    assert(ALBUM_ARTISTS_ORPHANS@ =~= orphan_delete("album_artists"@, "album_id"@, "albums"@).sql);
    assert(ALBUM_LABELS_ORPHANS@ =~= orphan_delete("album_labels"@, "album_id"@, "albums"@).sql);
    assert(TRACK_ARTISTS_ORPHANS@ =~= orphan_delete("track_artists"@, "track_id"@, "tracks"@).sql);
    assert(TRACK_GENRES_ORPHANS@ =~= orphan_delete("track_genres"@, "track_id"@, "tracks"@).sql);
    assert(PLAYLIST_ITEMS_ORPHANS@ =~= orphan_delete("playlist_items"@, "playlist_id"@, "playlists"@).sql);
}

proof fn lemma_first_delete(table: Seq<char>, column: Seq<char>, ids: Seq<i64>)
    requires
        ids.len() > 0,
    ensures
        delete_in_statements(table, column, ids).len() > 0,
        delete_in_statements(table, column, ids)[0] == delete_in_statement(table, column, chunks(ids, DELETE_CHUNK as nat)[0]),
{
    assert(chunks(ids, DELETE_CHUNK as nat).len() > 0);
}

/// A write of albums replaces the rows of each table whose rows belong to
/// albums: it deletes those of the written albums.
pub proof fn lemma_album_write_children(items: Seq<Album>, loaded_at_ms: i64, k: int)
    requires
        items.len() > 0,
        0 <= k < child_tables(Resource::Albums).len(),
    ensures
        album_statements(items, loaded_at_ms).contains(delete_in_statement(
            child_tables(Resource::Albums)[k].0,
            child_tables(Resource::Albums)[k].1,
            chunks(items.map_values(|x: Album| x.id), DELETE_CHUNK as nat)[0],
        )),
{
    let ids = items.map_values(|x: Album| x.id);
    let a = insert_statements(insert_head(Resource::Albums.table()@, ALBUMS_COLUMNS@), ALBUMS_UPSERT@, album_rows(items, loaded_at_ms), 15);
    let d1 = delete_in_statements("album_artists"@, "album_id"@, ids);
    let b = insert_statements(ALBUM_ARTISTS_INSERT@, ""@, all_album_artist_rows(items), 6);
    let d2 = delete_in_statements("album_labels"@, "album_id"@, ids);
    let all = album_statements(items, loaded_at_ms);
    lemma_first_delete("album_artists"@, "album_id"@, ids);
    lemma_first_delete("album_labels"@, "album_id"@, ids);
    if k == 0 {
        assert(all[a.len() as int] == d1[0]);
    } else {
        assert(all[(a.len() + d1.len() + b.len()) as int] == d2[0]);
    }
}

/// A write of tracks replaces the rows of each table whose rows belong to
/// tracks: it deletes those of the written tracks.
pub proof fn lemma_track_write_children(items: Seq<Track>, loaded_at_ms: i64, k: int)
    requires
        items.len() > 0,
        0 <= k < child_tables(Resource::Tracks).len(),
    ensures
        track_statements(items, loaded_at_ms).contains(delete_in_statement(
            child_tables(Resource::Tracks)[k].0,
            child_tables(Resource::Tracks)[k].1,
            chunks(items.map_values(|x: Track| x.id), DELETE_CHUNK as nat)[0],
        )),
{
    let ids = items.map_values(|x: Track| x.id);
    let a = insert_statements(insert_head(Resource::Tracks.table()@, TRACKS_COLUMNS@), TRACKS_UPSERT@, track_rows(items, loaded_at_ms), 17);
    let d1 = delete_in_statements("track_artists"@, "track_id"@, ids);
    let b = insert_statements(TRACK_ARTISTS_INSERT@, ""@, all_track_artist_rows(items), 7);
    let d2 = delete_in_statements("track_genres"@, "track_id"@, ids);
    let all = track_statements(items, loaded_at_ms);
    lemma_first_delete("track_artists"@, "track_id"@, ids);
    lemma_first_delete("track_genres"@, "track_id"@, ids);
    if k == 0 {
        assert(all[a.len() as int] == d1[0]);
    } else {
        assert(all[(a.len() + d1.len() + b.len()) as int] == d2[0]);
    }
}

/// A write of playlists replaces the rows of each table whose rows belong
/// to playlists: it deletes those of the written playlists.
pub proof fn lemma_playlist_write_children(items: Seq<Playlist>, loaded_at_ms: i64, k: int)
    requires
        items.len() > 0,
        0 <= k < child_tables(Resource::Playlists).len(),
    ensures
        playlist_statements(items, loaded_at_ms).contains(delete_in_statement(
            child_tables(Resource::Playlists)[k].0,
            child_tables(Resource::Playlists)[k].1,
            chunks(items.map_values(|x: Playlist| x.id), DELETE_CHUNK as nat)[0],
        )),
{
    let ids = items.map_values(|x: Playlist| x.id);
    let a = insert_statements(insert_head(Resource::Playlists.table()@, PLAYLISTS_COLUMNS@), PLAYLISTS_UPSERT@, playlist_rows(items, loaded_at_ms), 9);
    let d1 = delete_in_statements("playlist_items"@, "playlist_id"@, ids);
    let all = playlist_statements(items, loaded_at_ms);
    lemma_first_delete("playlist_items"@, "playlist_id"@, ids);
    assert(all[a.len() as int] == d1[0]);
}

/// Reads the name of a user from the one column of its row.
pub fn read_user_name(row: &[SqlValue]) -> (r: Result<String, RowError>)
    ensures
        row@.len() == 1 && text_of(row@[0]) is Some ==> r == Ok::<String, RowError>(text_of(row@[0])->0),
        !(row@.len() == 1 && text_of(row@[0]) is Some) ==> r == Err::<String, RowError>(RowError::WrongShape),
{
    if row.len() != 1 {
        return Err(RowError::WrongShape);
    }
    match read_text(&row[0]) {
        Some(s) => Ok(s),
        None => Err(RowError::WrongShape),
    }
}

} // verus!
