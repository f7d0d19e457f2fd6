//! How each record is laid out in the columns of its table, and how it is
//! read back from them.

use vstd::prelude::*;

use crate::api::{
    Album, AlbumArtist, AlbumLabel, Artist, AuthToken, CodecConversion, Genre, Label, Permission,
    Play, Playlist, PlaylistAccess, PlaylistType, Track, TrackArtist, User,
    lemma_permission_name_roundtrip, lemma_playlist_access_name_roundtrip,
    lemma_playlist_type_name_roundtrip,
};
use crate::db::sql::SqlValue;

verus! {

/// Why column values could not be read as a record.
#[derive(Clone, Copy, Debug, PartialEq, Eq, Structural)]
pub enum RowError {
    /// A column is missing or holds a value of another type.
    WrongShape,
    /// A column that names an enum value holds a name of none.
    UnknownVariant,
}

/// An optional text: the text, or `NULL`.
pub open spec fn opt_text(o: Option<String>) -> SqlValue {
    match o {
        Some(s) => SqlValue::Text(s),
        None => SqlValue::Null,
    }
}

/// An optional integer: the integer, or `NULL`.
pub open spec fn opt_int(o: Option<i64>) -> SqlValue {
    match o {
        Some(i) => SqlValue::Integer(i),
        None => SqlValue::Null,
    }
}

/// The value of an optional text.
pub fn opt_text_value(o: &Option<String>) -> (v: SqlValue)
    ensures
        v == opt_text(*o),
{
    match o {
        Some(s) => SqlValue::Text(s.clone()),
        None => SqlValue::Null,
    }
}

/// The value of an optional integer.
pub fn opt_int_value(o: Option<i64>) -> (v: SqlValue)
    ensures
        v == opt_int(o),
{
    match o {
        Some(i) => SqlValue::Integer(i),
        None => SqlValue::Null,
    }
}

/// The integer a column holds.
pub open spec fn int_of(v: SqlValue) -> Option<i64> {
    match v {
        SqlValue::Integer(i) => Some(i),
        _ => None,
    }
}

/// The text a column holds.
pub open spec fn text_of(v: SqlValue) -> Option<String> {
    match v {
        SqlValue::Text(s) => Some(s),
        _ => None,
    }
}

/// The optional text a column holds: `Some(None)` for `NULL`.
pub open spec fn opt_text_of(v: SqlValue) -> Option<Option<String>> {
    match v {
        SqlValue::Text(s) => Some(Some(s)),
        SqlValue::Null => Some(None),
        _ => None,
    }
}

/// The characters of the text a column holds, whether it was written as a
/// fixed name or read back as text.
pub open spec fn name_of(v: SqlValue) -> Option<Seq<char>> {
    match v {
        SqlValue::Text(s) => Some(s@),
        SqlValue::Name(n) => Some(n@),
        _ => None,
    }
}

/// Reads an integer column.
pub fn read_int(v: &SqlValue) -> (r: Option<i64>)
    ensures
        r == int_of(*v),
{
    match v {
        SqlValue::Integer(i) => Some(*i),
        _ => None,
    }
}

/// Reads a text column.
pub fn read_text(v: &SqlValue) -> (r: Option<String>)
    ensures
        r == text_of(*v),
{
    match v {
        SqlValue::Text(s) => Some(s.clone()),
        _ => None,
    }
}

/// Reads a nullable text column.
pub fn read_opt_text(v: &SqlValue) -> (r: Option<Option<String>>)
    ensures
        r == opt_text_of(*v),
{
    match v {
        SqlValue::Text(s) => Some(Some(s.clone())),
        SqlValue::Null => Some(None),
        _ => None,
    }
}

/// Reads a column that names an enum value.
pub fn read_name(v: &SqlValue) -> (r: Option<&str>)
    ensures
        r is Some <==> name_of(*v) is Some,
        r matches Some(s) ==> s@ == name_of(*v)->0,
{
    match v {
        SqlValue::Text(s) => Some(s.as_str()),
        SqlValue::Name(n) => Some(*n),
        _ => None,
    }
}

/// The column values that store an artist, in column order.
pub open spec fn artist_record(x: Artist) -> Seq<SqlValue> {
    seq![
        SqlValue::Integer(x.id),
        SqlValue::Text(x.name),
        SqlValue::Text(x.normalized_name),
        opt_text(x.review_comment),
        opt_text(x.image),
        opt_text(x.image100),
        opt_text(x.image250),
        opt_text(x.image500),
        opt_text(x.image_type),
        SqlValue::Text(x.created_at),
        SqlValue::Text(x.updated_at),
    ]
}

/// The column values of an artist.
pub fn artist_values(x: &Artist) -> (r: Vec<SqlValue>)
    ensures
        r@ == artist_record(*x),
{
    let mut r: Vec<SqlValue> = Vec::new();
    r.push(SqlValue::Integer(x.id));
    r.push(SqlValue::Text(x.name.clone()));
    r.push(SqlValue::Text(x.normalized_name.clone()));
    r.push(opt_text_value(&x.review_comment));
    r.push(opt_text_value(&x.image));
    r.push(opt_text_value(&x.image100));
    r.push(opt_text_value(&x.image250));
    r.push(opt_text_value(&x.image500));
    r.push(opt_text_value(&x.image_type));
    r.push(SqlValue::Text(x.created_at.clone()));
    r.push(SqlValue::Text(x.updated_at.clone()));
    assert(r@ =~= artist_record(*x));
    r
}

/// What reading an artist from the column values `row` gives: the record when
/// every column holds a value of its type, the error otherwise.
pub open spec fn artist_from_record(row: Seq<SqlValue>) -> Result<Artist, RowError> {
    if row.len() == 11 && int_of(row[0]) is Some && text_of(row[1]) is Some && text_of(row[2]) is Some && opt_text_of(row[3]) is Some && opt_text_of(row[4]) is Some && opt_text_of(row[5]) is Some && opt_text_of(row[6]) is Some && opt_text_of(row[7]) is Some && opt_text_of(row[8]) is Some && text_of(row[9]) is Some && text_of(row[10]) is Some {
        Ok(Artist {
            id: int_of(row[0])->0,
            name: text_of(row[1])->0,
            normalized_name: text_of(row[2])->0,
            review_comment: opt_text_of(row[3])->0,
            image: opt_text_of(row[4])->0,
            image100: opt_text_of(row[5])->0,
            image250: opt_text_of(row[6])->0,
            image500: opt_text_of(row[7])->0,
            image_type: opt_text_of(row[8])->0,
            created_at: text_of(row[9])->0,
            updated_at: text_of(row[10])->0,
        })
    } else {
        Err(RowError::WrongShape)
    }
}

/// Reads an artist from the column values of a row.
pub fn read_artist(row: &[SqlValue]) -> (r: Result<Artist, RowError>)
    ensures
        r == artist_from_record(row@),
{
    if row.len() != 11 {
        return Err(RowError::WrongShape);
    }
    let id = match read_int(&row[0]) { Some(v) => v, None => return Err(RowError::WrongShape) };
    let name = match read_text(&row[1]) { Some(v) => v, None => return Err(RowError::WrongShape) };
    let normalized_name = match read_text(&row[2]) { Some(v) => v, None => return Err(RowError::WrongShape) };
    let review_comment = match read_opt_text(&row[3]) { Some(v) => v, None => return Err(RowError::WrongShape) };
    let image = match read_opt_text(&row[4]) { Some(v) => v, None => return Err(RowError::WrongShape) };
    let image100 = match read_opt_text(&row[5]) { Some(v) => v, None => return Err(RowError::WrongShape) };
    let image250 = match read_opt_text(&row[6]) { Some(v) => v, None => return Err(RowError::WrongShape) };
    let image500 = match read_opt_text(&row[7]) { Some(v) => v, None => return Err(RowError::WrongShape) };
    let image_type = match read_opt_text(&row[8]) { Some(v) => v, None => return Err(RowError::WrongShape) };
    let created_at = match read_text(&row[9]) { Some(v) => v, None => return Err(RowError::WrongShape) };
    let updated_at = match read_text(&row[10]) { Some(v) => v, None => return Err(RowError::WrongShape) };
    Ok(Artist { id, name, normalized_name, review_comment, image, image100, image250, image500, image_type, created_at, updated_at })
}

/// Reading the column values that store an artist gives it back.
pub proof fn lemma_artist_record_roundtrip(x: Artist)
    ensures
        artist_from_record(artist_record(x)) == Ok::<Artist, RowError>(x),
{
}

/// The column values that store an auth token, in column order.
pub open spec fn auth_token_record(x: AuthToken) -> Seq<SqlValue> {
    seq![
        SqlValue::Integer(x.id),
        SqlValue::Integer(x.user_id),
        SqlValue::Text(x.user_agent),
        opt_text(x.application),
    ]
}

/// The column values of an auth token.
pub fn auth_token_values(x: &AuthToken) -> (r: Vec<SqlValue>)
    ensures
        r@ == auth_token_record(*x),
{
    let mut r: Vec<SqlValue> = Vec::new();
    r.push(SqlValue::Integer(x.id));
    r.push(SqlValue::Integer(x.user_id));
    r.push(SqlValue::Text(x.user_agent.clone()));
    r.push(opt_text_value(&x.application));
    assert(r@ =~= auth_token_record(*x));
    r
}

/// What reading an auth token from the column values `row` gives: the record when
/// every column holds a value of its type, the error otherwise.
pub open spec fn auth_token_from_record(row: Seq<SqlValue>) -> Result<AuthToken, RowError> {
    if row.len() == 4 && int_of(row[0]) is Some && int_of(row[1]) is Some && text_of(row[2]) is Some && opt_text_of(row[3]) is Some {
        Ok(AuthToken {
            id: int_of(row[0])->0,
            user_id: int_of(row[1])->0,
            user_agent: text_of(row[2])->0,
            application: opt_text_of(row[3])->0,
        })
    } else {
        Err(RowError::WrongShape)
    }
}

/// Reads an auth token from the column values of a row.
pub fn read_auth_token(row: &[SqlValue]) -> (r: Result<AuthToken, RowError>)
    ensures
        r == auth_token_from_record(row@),
{
    if row.len() != 4 {
        return Err(RowError::WrongShape);
    }
    let id = match read_int(&row[0]) { Some(v) => v, None => return Err(RowError::WrongShape) };
    let user_id = match read_int(&row[1]) { Some(v) => v, None => return Err(RowError::WrongShape) };
    let user_agent = match read_text(&row[2]) { Some(v) => v, None => return Err(RowError::WrongShape) };
    let application = match read_opt_text(&row[3]) { Some(v) => v, None => return Err(RowError::WrongShape) };
    Ok(AuthToken { id, user_id, user_agent, application })
}

/// Reading the column values that store an auth token gives it back.
pub proof fn lemma_auth_token_record_roundtrip(x: AuthToken)
    ensures
        auth_token_from_record(auth_token_record(x)) == Ok::<AuthToken, RowError>(x),
{
}

/// The column values that store a codec conversion, in column order.
pub open spec fn codec_conversion_record(x: CodecConversion) -> Seq<SqlValue> {
    seq![
        SqlValue::Integer(x.id),
        SqlValue::Text(x.name),
        SqlValue::Text(x.ffmpeg_params),
        SqlValue::Integer(x.resulting_codec_id),
    ]
}

/// The column values of a codec conversion.
pub fn codec_conversion_values(x: &CodecConversion) -> (r: Vec<SqlValue>)
    ensures
        r@ == codec_conversion_record(*x),
{
    let mut r: Vec<SqlValue> = Vec::new();
    r.push(SqlValue::Integer(x.id));
    r.push(SqlValue::Text(x.name.clone()));
    r.push(SqlValue::Text(x.ffmpeg_params.clone()));
    r.push(SqlValue::Integer(x.resulting_codec_id));
    assert(r@ =~= codec_conversion_record(*x));
    r
}

/// What reading a codec conversion from the column values `row` gives: the record when
/// every column holds a value of its type, the error otherwise.
pub open spec fn codec_conversion_from_record(row: Seq<SqlValue>) -> Result<CodecConversion, RowError> {
    if row.len() == 4 && int_of(row[0]) is Some && text_of(row[1]) is Some && text_of(row[2]) is Some && int_of(row[3]) is Some {
        Ok(CodecConversion {
            id: int_of(row[0])->0,
            name: text_of(row[1])->0,
            ffmpeg_params: text_of(row[2])->0,
            resulting_codec_id: int_of(row[3])->0,
        })
    } else {
        Err(RowError::WrongShape)
    }
}

/// Reads a codec conversion from the column values of a row.
pub fn read_codec_conversion(row: &[SqlValue]) -> (r: Result<CodecConversion, RowError>)
    ensures
        r == codec_conversion_from_record(row@),
{
    if row.len() != 4 {
        return Err(RowError::WrongShape);
    }
    let id = match read_int(&row[0]) { Some(v) => v, None => return Err(RowError::WrongShape) };
    let name = match read_text(&row[1]) { Some(v) => v, None => return Err(RowError::WrongShape) };
    let ffmpeg_params = match read_text(&row[2]) { Some(v) => v, None => return Err(RowError::WrongShape) };
    let resulting_codec_id = match read_int(&row[3]) { Some(v) => v, None => return Err(RowError::WrongShape) };
    Ok(CodecConversion { id, name, ffmpeg_params, resulting_codec_id })
}

/// Reading the column values that store a codec conversion gives it back.
pub proof fn lemma_codec_conversion_record_roundtrip(x: CodecConversion)
    ensures
        codec_conversion_from_record(codec_conversion_record(x)) == Ok::<CodecConversion, RowError>(x),
{
}

/// The column values that store a genre, in column order.
pub open spec fn genre_record(x: Genre) -> Seq<SqlValue> {
    seq![
        SqlValue::Integer(x.id),
        SqlValue::Text(x.name),
        SqlValue::Text(x.normalized_name),
    ]
}

/// The column values of a genre.
pub fn genre_values(x: &Genre) -> (r: Vec<SqlValue>)
    ensures
        r@ == genre_record(*x),
{
    let mut r: Vec<SqlValue> = Vec::new();
    r.push(SqlValue::Integer(x.id));
    r.push(SqlValue::Text(x.name.clone()));
    r.push(SqlValue::Text(x.normalized_name.clone()));
    assert(r@ =~= genre_record(*x));
    r
}

/// What reading a genre from the column values `row` gives: the record when
/// every column holds a value of its type, the error otherwise.
pub open spec fn genre_from_record(row: Seq<SqlValue>) -> Result<Genre, RowError> {
    if row.len() == 3 && int_of(row[0]) is Some && text_of(row[1]) is Some && text_of(row[2]) is Some {
        Ok(Genre {
            id: int_of(row[0])->0,
            name: text_of(row[1])->0,
            normalized_name: text_of(row[2])->0,
        })
    } else {
        Err(RowError::WrongShape)
    }
}

/// Reads a genre from the column values of a row.
pub fn read_genre(row: &[SqlValue]) -> (r: Result<Genre, RowError>)
    ensures
        r == genre_from_record(row@),
{
    if row.len() != 3 {
        return Err(RowError::WrongShape);
    }
    let id = match read_int(&row[0]) { Some(v) => v, None => return Err(RowError::WrongShape) };
    let name = match read_text(&row[1]) { Some(v) => v, None => return Err(RowError::WrongShape) };
    let normalized_name = match read_text(&row[2]) { Some(v) => v, None => return Err(RowError::WrongShape) };
    Ok(Genre { id, name, normalized_name })
}

/// Reading the column values that store a genre gives it back.
pub proof fn lemma_genre_record_roundtrip(x: Genre)
    ensures
        genre_from_record(genre_record(x)) == Ok::<Genre, RowError>(x),
{
}

/// The column values that store a label, in column order.
pub open spec fn label_record(x: Label) -> Seq<SqlValue> {
    seq![
        SqlValue::Integer(x.id),
        SqlValue::Text(x.name),
        SqlValue::Text(x.normalized_name),
    ]
}

/// The column values of a label.
pub fn label_values(x: &Label) -> (r: Vec<SqlValue>)
    ensures
        r@ == label_record(*x),
{
    let mut r: Vec<SqlValue> = Vec::new();
    r.push(SqlValue::Integer(x.id));
    r.push(SqlValue::Text(x.name.clone()));
    r.push(SqlValue::Text(x.normalized_name.clone()));
    assert(r@ =~= label_record(*x));
    r
}

/// What reading a label from the column values `row` gives: the record when
/// every column holds a value of its type, the error otherwise.
pub open spec fn label_from_record(row: Seq<SqlValue>) -> Result<Label, RowError> {
    if row.len() == 3 && int_of(row[0]) is Some && text_of(row[1]) is Some && text_of(row[2]) is Some {
        Ok(Label {
            id: int_of(row[0])->0,
            name: text_of(row[1])->0,
            normalized_name: text_of(row[2])->0,
        })
    } else {
        Err(RowError::WrongShape)
    }
}

/// Reads a label from the column values of a row.
pub fn read_label(row: &[SqlValue]) -> (r: Result<Label, RowError>)
    ensures
        r == label_from_record(row@),
{
    if row.len() != 3 {
        return Err(RowError::WrongShape);
    }
    let id = match read_int(&row[0]) { Some(v) => v, None => return Err(RowError::WrongShape) };
    let name = match read_text(&row[1]) { Some(v) => v, None => return Err(RowError::WrongShape) };
    let normalized_name = match read_text(&row[2]) { Some(v) => v, None => return Err(RowError::WrongShape) };
    Ok(Label { id, name, normalized_name })
}

/// Reading the column values that store a label gives it back.
pub proof fn lemma_label_record_roundtrip(x: Label)
    ensures
        label_from_record(label_record(x)) == Ok::<Label, RowError>(x),
{
}

/// The column values that store a play, in column order.
pub open spec fn play_record(x: Play) -> Seq<SqlValue> {
    seq![
        SqlValue::Integer(x.id),
        SqlValue::Text(x.played_at),
        SqlValue::Integer(x.track_id),
        SqlValue::Integer(x.user_id),
    ]
}

/// The column values of a play.
pub fn play_values(x: &Play) -> (r: Vec<SqlValue>)
    ensures
        r@ == play_record(*x),
{
    let mut r: Vec<SqlValue> = Vec::new();
    r.push(SqlValue::Integer(x.id));
    r.push(SqlValue::Text(x.played_at.clone()));
    r.push(SqlValue::Integer(x.track_id));
    r.push(SqlValue::Integer(x.user_id));
    assert(r@ =~= play_record(*x));
    r
}

/// What reading a play from the column values `row` gives: the record when
/// every column holds a value of its type, the error otherwise.
pub open spec fn play_from_record(row: Seq<SqlValue>) -> Result<Play, RowError> {
    if row.len() == 4 && int_of(row[0]) is Some && text_of(row[1]) is Some && int_of(row[2]) is Some && int_of(row[3]) is Some {
        Ok(Play {
            id: int_of(row[0])->0,
            played_at: text_of(row[1])->0,
            track_id: int_of(row[2])->0,
            user_id: int_of(row[3])->0,
        })
    } else {
        Err(RowError::WrongShape)
    }
}

/// Reads a play from the column values of a row.
pub fn read_play(row: &[SqlValue]) -> (r: Result<Play, RowError>)
    ensures
        r == play_from_record(row@),
{
    if row.len() != 4 {
        return Err(RowError::WrongShape);
    }
    let id = match read_int(&row[0]) { Some(v) => v, None => return Err(RowError::WrongShape) };
    let played_at = match read_text(&row[1]) { Some(v) => v, None => return Err(RowError::WrongShape) };
    let track_id = match read_int(&row[2]) { Some(v) => v, None => return Err(RowError::WrongShape) };
    let user_id = match read_int(&row[3]) { Some(v) => v, None => return Err(RowError::WrongShape) };
    Ok(Play { id, played_at, track_id, user_id })
}

/// Reading the column values that store a play gives it back.
pub proof fn lemma_play_record_roundtrip(x: Play)
    ensures
        play_from_record(play_record(x)) == Ok::<Play, RowError>(x),
{
}

/// The column values that store a user, in column order.
pub open spec fn user_record(x: User) -> Seq<SqlValue> {
    seq![
        SqlValue::Integer(x.id as i64),
        SqlValue::Text(x.name),
        SqlValue::Name(x.permission.text()),
    ]
}

/// The column values of a user.
pub fn user_values(x: &User) -> (r: Vec<SqlValue>)
    ensures
        r@ == user_record(*x),
{
    let mut r: Vec<SqlValue> = Vec::new();
    r.push(SqlValue::Integer(x.id as i64));
    r.push(SqlValue::Text(x.name.clone()));
    r.push(SqlValue::Name(x.permission.as_str()));
    assert(r@ =~= user_record(*x));
    r
}

/// What reading a user from the column values `row` gives: the record when
/// every column holds a value of its type, the error otherwise.
pub open spec fn user_from_record(row: Seq<SqlValue>) -> Result<User, RowError> {
    if row.len() == 3 && int_of(row[0]) is Some && text_of(row[1]) is Some && name_of(row[2]) is Some {
        match Permission::from_name(name_of(row[2])->0) {
            Ok(v) => Ok(User {
            id: (int_of(row[0])->0) as u64,
            name: text_of(row[1])->0,
            permission: v,
            }),
            Err(_) => Err(RowError::UnknownVariant),
        }
    } else {
        Err(RowError::WrongShape)
    }
}

/// Reads a user from the column values of a row.
pub fn read_user(row: &[SqlValue]) -> (r: Result<User, RowError>)
    ensures
        r == user_from_record(row@),
{
    if row.len() != 3 {
        return Err(RowError::WrongShape);
    }
    let id = match read_int(&row[0]) { Some(v) => v, None => return Err(RowError::WrongShape) };
    let name = match read_text(&row[1]) { Some(v) => v, None => return Err(RowError::WrongShape) };
    let permission_name = match read_name(&row[2]) { Some(v) => v, None => return Err(RowError::WrongShape) };
    let permission = match Permission::parse(permission_name) { Ok(v) => v, Err(_) => return Err(RowError::UnknownVariant) };
    Ok(User { id: id as u64, name, permission })
}

/// Reading the column values that store a user gives it back.
pub proof fn lemma_user_record_roundtrip(x: User)
    ensures
        user_from_record(user_record(x)) == Ok::<User, RowError>(x),
{
    let id = x.id;
    assert(((id as i64) as u64) == id) by (bit_vector);
    lemma_permission_name_roundtrip(x.permission, x.permission.name());
}

/// The column values that store an album, without its artists and labels, in column order.
pub open spec fn album_record(x: Album) -> Seq<SqlValue> {
    seq![
        SqlValue::Integer(x.id),
        SqlValue::Text(x.title),
        SqlValue::Text(x.normalized_title),
        SqlValue::Text(x.release),
        opt_text(x.review_comment),
        opt_text(x.edition),
        opt_text(x.edition_description),
        opt_text(x.image),
        opt_text(x.image100),
        opt_text(x.image250),
        opt_text(x.image500),
        opt_text(x.image_type),
        SqlValue::Text(x.created_at),
        SqlValue::Text(x.updated_at),
    ]
}

/// The column values of an album, without its artists and labels.
pub fn album_values(x: &Album) -> (r: Vec<SqlValue>)
    ensures
        r@ == album_record(*x),
{
    let mut r: Vec<SqlValue> = Vec::new();
    r.push(SqlValue::Integer(x.id));
    r.push(SqlValue::Text(x.title.clone()));
    r.push(SqlValue::Text(x.normalized_title.clone()));
    r.push(SqlValue::Text(x.release.clone()));
    r.push(opt_text_value(&x.review_comment));
    r.push(opt_text_value(&x.edition));
    r.push(opt_text_value(&x.edition_description));
    r.push(opt_text_value(&x.image));
    r.push(opt_text_value(&x.image100));
    r.push(opt_text_value(&x.image250));
    r.push(opt_text_value(&x.image500));
    r.push(opt_text_value(&x.image_type));
    r.push(SqlValue::Text(x.created_at.clone()));
    r.push(SqlValue::Text(x.updated_at.clone()));
    assert(r@ =~= album_record(*x));
    r
}

/// The column values that store a track, without its artists and genres, in column order.
pub open spec fn track_record(x: Track) -> Seq<SqlValue> {
    seq![
        SqlValue::Integer(x.id),
        SqlValue::Text(x.title),
        SqlValue::Text(x.normalized_title),
        SqlValue::Integer(x.number),
        SqlValue::Integer(x.album_id),
        opt_text(x.review_comment),
        opt_int(x.codec_id),
        opt_int(x.length),
        opt_int(x.bitrate),
        opt_int(x.location_id),
        opt_int(x.audio_file_id),
        opt_text(x.filename),
        opt_int(x.sample_rate),
        opt_int(x.bit_depth),
        SqlValue::Text(x.created_at),
        SqlValue::Text(x.updated_at),
    ]
}

/// The column values of a track, without its artists and genres.
pub fn track_values(x: &Track) -> (r: Vec<SqlValue>)
    ensures
        r@ == track_record(*x),
{
    let mut r: Vec<SqlValue> = Vec::new();
    r.push(SqlValue::Integer(x.id));
    r.push(SqlValue::Text(x.title.clone()));
    r.push(SqlValue::Text(x.normalized_title.clone()));
    r.push(SqlValue::Integer(x.number));
    r.push(SqlValue::Integer(x.album_id));
    r.push(opt_text_value(&x.review_comment));
    r.push(opt_int_value(x.codec_id));
    r.push(opt_int_value(x.length));
    r.push(opt_int_value(x.bitrate));
    r.push(opt_int_value(x.location_id));
    r.push(opt_int_value(x.audio_file_id));
    r.push(opt_text_value(&x.filename));
    r.push(opt_int_value(x.sample_rate));
    r.push(opt_int_value(x.bit_depth));
    r.push(SqlValue::Text(x.created_at.clone()));
    r.push(SqlValue::Text(x.updated_at.clone()));
    assert(r@ =~= track_record(*x));
    r
}

/// The column values that store a playlist, without its items, in column order.
pub open spec fn playlist_record(x: Playlist) -> Seq<SqlValue> {
    seq![
        SqlValue::Integer(x.id),
        SqlValue::Text(x.name),
        opt_text(x.description),
        SqlValue::Integer(x.user_id),
        SqlValue::Name(x.access.text()),
        SqlValue::Name(x.playlist_type.text()),
        SqlValue::Text(x.created_at),
        SqlValue::Text(x.updated_at),
    ]
}

/// The column values of a playlist, without its items.
pub fn playlist_values(x: &Playlist) -> (r: Vec<SqlValue>)
    ensures
        r@ == playlist_record(*x),
{
    let mut r: Vec<SqlValue> = Vec::new();
    r.push(SqlValue::Integer(x.id));
    r.push(SqlValue::Text(x.name.clone()));
    r.push(opt_text_value(&x.description));
    r.push(SqlValue::Integer(x.user_id));
    r.push(SqlValue::Name(x.access.as_str()));
    r.push(SqlValue::Name(x.playlist_type.as_str()));
    r.push(SqlValue::Text(x.created_at.clone()));
    r.push(SqlValue::Text(x.updated_at.clone()));
    assert(r@ =~= playlist_record(*x));
    r
}

/// The rows of `album_artists` for the artists of `album`.
pub open spec fn album_artist_rows(album: Album) -> Seq<Seq<SqlValue>> {
    album.album_artists@.map_values(
        |aa: AlbumArtist|
            seq![
                SqlValue::Integer(album.id),
                SqlValue::Integer(aa.artist_id),
                SqlValue::Text(aa.name),
                SqlValue::Text(aa.normalized_name),
                SqlValue::Integer(aa.order),
                opt_text(aa.separator),
            ],
    )
}

/// The rows of `album_labels` for the labels of `album`.
pub open spec fn album_label_rows(album: Album) -> Seq<Seq<SqlValue>> {
    album.album_labels@.map_values(
        |al: AlbumLabel|
            seq![SqlValue::Integer(album.id), SqlValue::Integer(al.label_id), opt_text(al.catalogue_number)],
    )
}

/// The rows of `track_artists` for the artists of `track`.
pub open spec fn track_artist_rows(track: Track) -> Seq<Seq<SqlValue>> {
    track.track_artists@.map_values(
        |ta: TrackArtist|
            seq![
                SqlValue::Integer(track.id),
                SqlValue::Integer(ta.artist_id),
                SqlValue::Name(ta.role.text()),
                SqlValue::Integer(ta.order),
                SqlValue::Text(ta.name),
                SqlValue::Text(ta.normalized_name),
                SqlValue::Bool(ta.hidden),
            ],
    )
}

/// The rows of `track_genres` for the genres of `track`.
pub open spec fn track_genre_rows(track: Track) -> Seq<Seq<SqlValue>> {
    track.genre_ids@.map_values(|g: i64| seq![SqlValue::Integer(track.id), SqlValue::Integer(g)])
}

/// The rows of `playlist_items` for `playlist`: the item at position `i`
/// is stored with position `i`.
pub open spec fn playlist_item_rows(playlist: Playlist) -> Seq<Seq<SqlValue>> {
    Seq::new(
        playlist.item_ids@.len(),
        |i: int|
            seq![
                SqlValue::Integer(playlist.id),
                SqlValue::Integer(i as i64),
                SqlValue::Integer(playlist.item_ids@[i]),
            ],
    )
}

/// The rows of `album_artists` for the artists of `album`.
pub fn album_artist_values(album: &Album) -> (r: Vec<Vec<SqlValue>>)
    ensures
        r@.map_values(|v: Vec<SqlValue>| v@) == album_artist_rows(*album),
{
    let mut r: Vec<Vec<SqlValue>> = Vec::new();
    let n = album.album_artists.len();
    let mut i: usize = 0;
    while i < n
        invariant
            i <= n == album.album_artists@.len(),
            r@.map_values(|v: Vec<SqlValue>| v@) == album_artist_rows(*album).take(i as int),
        decreases n - i,
    {
        let aa = &album.album_artists[i];
        let mut row: Vec<SqlValue> = Vec::new();
        row.push(SqlValue::Integer(album.id));
        row.push(SqlValue::Integer(aa.artist_id));
        row.push(SqlValue::Text(aa.name.clone()));
        row.push(SqlValue::Text(aa.normalized_name.clone()));
        row.push(SqlValue::Integer(aa.order));
        row.push(opt_text_value(&aa.separator));
        assert(row@ =~= album_artist_rows(*album)[i as int]);
        let ghost before = r@;
        let ghost rv = row@;
        r.push(row);
        assert(r@.map_values(|v: Vec<SqlValue>| v@) =~= before.map_values(|v: Vec<SqlValue>| v@).push(rv));
        assert(album_artist_rows(*album).take(i + 1) =~= album_artist_rows(*album).take(i as int).push(album_artist_rows(*album)[i as int]));
        i = i + 1;
    }
    assert(album_artist_rows(*album).take(n as int) =~= album_artist_rows(*album));
    r
}

/// The rows of `album_labels` for the labels of `album`.
pub fn album_label_values(album: &Album) -> (r: Vec<Vec<SqlValue>>)
    ensures
        r@.map_values(|v: Vec<SqlValue>| v@) == album_label_rows(*album),
{
    let mut r: Vec<Vec<SqlValue>> = Vec::new();
    let n = album.album_labels.len();
    let mut i: usize = 0;
    while i < n
        invariant
            i <= n == album.album_labels@.len(),
            r@.map_values(|v: Vec<SqlValue>| v@) == album_label_rows(*album).take(i as int),
        decreases n - i,
    {
        let al = &album.album_labels[i];
        let mut row: Vec<SqlValue> = Vec::new();
        row.push(SqlValue::Integer(album.id));
        row.push(SqlValue::Integer(al.label_id));
        row.push(opt_text_value(&al.catalogue_number));
        assert(row@ =~= album_label_rows(*album)[i as int]);
        let ghost before = r@;
        let ghost rv = row@;
        r.push(row);
        assert(r@.map_values(|v: Vec<SqlValue>| v@) =~= before.map_values(|v: Vec<SqlValue>| v@).push(rv));
        assert(album_label_rows(*album).take(i + 1) =~= album_label_rows(*album).take(i as int).push(album_label_rows(*album)[i as int]));
        i = i + 1;
    }
    assert(album_label_rows(*album).take(n as int) =~= album_label_rows(*album));
    r
}

/// The rows of `track_artists` for the artists of `track`.
pub fn track_artist_values(track: &Track) -> (r: Vec<Vec<SqlValue>>)
    ensures
        r@.map_values(|v: Vec<SqlValue>| v@) == track_artist_rows(*track),
{
    let mut r: Vec<Vec<SqlValue>> = Vec::new();
    let n = track.track_artists.len();
    let mut i: usize = 0;
    while i < n
        invariant
            i <= n == track.track_artists@.len(),
            r@.map_values(|v: Vec<SqlValue>| v@) == track_artist_rows(*track).take(i as int),
        decreases n - i,
    {
        let ta = &track.track_artists[i];
        let mut row: Vec<SqlValue> = Vec::new();
        row.push(SqlValue::Integer(track.id));
        row.push(SqlValue::Integer(ta.artist_id));
        row.push(SqlValue::Name(ta.role.as_str()));
        row.push(SqlValue::Integer(ta.order));
        row.push(SqlValue::Text(ta.name.clone()));
        row.push(SqlValue::Text(ta.normalized_name.clone()));
        row.push(SqlValue::Bool(ta.hidden));
        assert(row@ =~= track_artist_rows(*track)[i as int]);
        let ghost before = r@;
        let ghost rv = row@;
        r.push(row);
        assert(r@.map_values(|v: Vec<SqlValue>| v@) =~= before.map_values(|v: Vec<SqlValue>| v@).push(rv));
        assert(track_artist_rows(*track).take(i + 1) =~= track_artist_rows(*track).take(i as int).push(track_artist_rows(*track)[i as int]));
        i = i + 1;
    }
    assert(track_artist_rows(*track).take(n as int) =~= track_artist_rows(*track));
    r
}

/// The rows of `track_genres` for the genres of `track`.
pub fn track_genre_values(track: &Track) -> (r: Vec<Vec<SqlValue>>)
    ensures
        r@.map_values(|v: Vec<SqlValue>| v@) == track_genre_rows(*track),
{
    let mut r: Vec<Vec<SqlValue>> = Vec::new();
    let n = track.genre_ids.len();
    let mut i: usize = 0;
    while i < n
        invariant
            i <= n == track.genre_ids@.len(),
            r@.map_values(|v: Vec<SqlValue>| v@) == track_genre_rows(*track).take(i as int),
        decreases n - i,
    {
        let mut row: Vec<SqlValue> = Vec::new();
        row.push(SqlValue::Integer(track.id));
        row.push(SqlValue::Integer(track.genre_ids[i]));
        assert(row@ =~= track_genre_rows(*track)[i as int]);
        let ghost before = r@;
        let ghost rv = row@;
        r.push(row);
        assert(r@.map_values(|v: Vec<SqlValue>| v@) =~= before.map_values(|v: Vec<SqlValue>| v@).push(rv));
        assert(track_genre_rows(*track).take(i + 1) =~= track_genre_rows(*track).take(i as int).push(track_genre_rows(*track)[i as int]));
        i = i + 1;
    }
    assert(track_genre_rows(*track).take(n as int) =~= track_genre_rows(*track));
    r
}

/// The rows of `playlist_items` for `playlist`.
pub fn playlist_item_values(playlist: &Playlist) -> (r: Vec<Vec<SqlValue>>)
    ensures
        r@.map_values(|v: Vec<SqlValue>| v@) == playlist_item_rows(*playlist),
{
    let mut r: Vec<Vec<SqlValue>> = Vec::new();
    let n = playlist.item_ids.len();
    let mut i: usize = 0;
    while i < n
        invariant
            i <= n == playlist.item_ids@.len(),
            r@.map_values(|v: Vec<SqlValue>| v@) == playlist_item_rows(*playlist).take(i as int),
        decreases n - i,
    {
        let mut row: Vec<SqlValue> = Vec::new();
        row.push(SqlValue::Integer(playlist.id));
        row.push(SqlValue::Integer(i as i64));
        row.push(SqlValue::Integer(playlist.item_ids[i]));
        assert(row@ =~= playlist_item_rows(*playlist)[i as int]);
        let ghost before = r@;
        let ghost rv = row@;
        r.push(row);
        assert(r@.map_values(|v: Vec<SqlValue>| v@) =~= before.map_values(|v: Vec<SqlValue>| v@).push(rv));
        assert(playlist_item_rows(*playlist).take(i + 1) =~= playlist_item_rows(*playlist).take(i as int).push(playlist_item_rows(*playlist)[i as int]));
        i = i + 1;
    }
    assert(playlist_item_rows(*playlist).take(n as int) =~= playlist_item_rows(*playlist));
    r
}

/// Whether the column values of a playlist row and the `item_id` column of
/// its item rows can be read as a playlist, and if not, why.
pub open spec fn playlist_check(row: Seq<SqlValue>, items: Seq<SqlValue>) -> Result<(), RowError> {
    if row.len() == 8 && int_of(row[0]) is Some && text_of(row[1]) is Some && opt_text_of(row[2]) is Some
        && int_of(row[3]) is Some && name_of(row[4]) is Some && name_of(row[5]) is Some
        && text_of(row[6]) is Some && text_of(row[7]) is Some
        && (forall|i: int| 0 <= i < items.len() ==> (#[trigger] int_of(items[i])) is Some) {
        if PlaylistAccess::from_name(name_of(row[4])->0) is Err || PlaylistType::from_name(name_of(row[5])->0) is Err {
            Err(RowError::UnknownVariant)
        } else {
            Ok(())
        }
    } else {
        Err(RowError::WrongShape)
    }
}

/// Whether `p` is what reading the playlist row `row` with the `item_id`
/// column `items` of its item rows gives.
pub open spec fn playlist_read_as(row: Seq<SqlValue>, items: Seq<SqlValue>, p: Playlist) -> bool {
    &&& p.id == int_of(row[0])->0
    &&& p.name == text_of(row[1])->0
    &&& p.description == opt_text_of(row[2])->0
    &&& p.user_id == int_of(row[3])->0
    &&& Ok::<PlaylistAccess, crate::api::UnknownVariant>(p.access) == PlaylistAccess::from_name(name_of(row[4])->0)
    &&& Ok::<PlaylistType, crate::api::UnknownVariant>(p.playlist_type) == PlaylistType::from_name(name_of(row[5])->0)
    &&& p.created_at == text_of(row[6])->0
    &&& p.updated_at == text_of(row[7])->0
    &&& p.item_ids@.map_values(|i: i64| SqlValue::Integer(i)) == items
}

/// Reads a playlist from its row and the `item_id` column of its item rows,
/// taken in the order of their positions.
pub fn read_playlist(row: &[SqlValue], items: &[SqlValue]) -> (r: Result<Playlist, RowError>)
    ensures
        r is Ok <==> playlist_check(row@, items@) is Ok,
        r matches Err(e) ==> playlist_check(row@, items@) == Err::<(), RowError>(e),
        r matches Ok(p) ==> playlist_read_as(row@, items@, p),
{
    if row.len() != 8 {
        return Err(RowError::WrongShape);
    }
    let id = match read_int(&row[0]) { Some(v) => v, None => return Err(RowError::WrongShape) };
    let name = match read_text(&row[1]) { Some(v) => v, None => return Err(RowError::WrongShape) };
    let description = match read_opt_text(&row[2]) { Some(v) => v, None => return Err(RowError::WrongShape) };
    let user_id = match read_int(&row[3]) { Some(v) => v, None => return Err(RowError::WrongShape) };
    let access_name = match read_name(&row[4]) { Some(v) => v, None => return Err(RowError::WrongShape) };
    let kind_name = match read_name(&row[5]) { Some(v) => v, None => return Err(RowError::WrongShape) };
    let created_at = match read_text(&row[6]) { Some(v) => v, None => return Err(RowError::WrongShape) };
    let updated_at = match read_text(&row[7]) { Some(v) => v, None => return Err(RowError::WrongShape) };
    let mut item_ids: Vec<i64> = Vec::new();
    let mut i: usize = 0;
    while i < items.len()
        invariant
            i <= items@.len(),
            forall|j: int| 0 <= j < i ==> (#[trigger] int_of(items@[j])) is Some,
            item_ids@.map_values(|x: i64| SqlValue::Integer(x)) == items@.take(i as int),
        decreases items@.len() - i,
    {
        let v = match read_int(&items[i]) {
            Some(v) => v,
            None => return Err(RowError::WrongShape),
        };
        let ghost before = item_ids@;
        item_ids.push(v);
        assert(item_ids@.map_values(|x: i64| SqlValue::Integer(x))
            =~= before.map_values(|x: i64| SqlValue::Integer(x)).push(SqlValue::Integer(v)));
        assert(items@.take(i + 1) =~= items@.take(i as int).push(items@[i as int]));
        i = i + 1;
    }
    assert(items@.take(items@.len() as int) =~= items@);
    let access = match PlaylistAccess::parse(access_name) { Ok(v) => v, Err(_) => return Err(RowError::UnknownVariant) };
    let playlist_type = match PlaylistType::parse(kind_name) { Ok(v) => v, Err(_) => return Err(RowError::UnknownVariant) };
    Ok(Playlist { id, name, description, user_id, access, playlist_type, item_ids, created_at, updated_at })
}

/// Reading back a playlist row and the item ids of its item rows, taken in
/// the order of their positions, gives a playlist equal to the one written,
/// field by field and item by item.
pub proof fn lemma_playlist_record_roundtrip(p: Playlist, q: Playlist)
    ensures
        playlist_check(playlist_record(p), playlist_item_rows(p).map_values(|r: Seq<SqlValue>| r[2])) is Ok,
        playlist_read_as(playlist_record(p), playlist_item_rows(p).map_values(|r: Seq<SqlValue>| r[2]), q)
            ==> q.id == p.id && q.name == p.name && q.description == p.description && q.user_id == p.user_id
            && q.access == p.access && q.playlist_type == p.playlist_type && q.created_at == p.created_at
            && q.updated_at == p.updated_at && q.item_ids@ == p.item_ids@,
{
    let items = playlist_item_rows(p).map_values(|r: Seq<SqlValue>| r[2]);
    assert(items =~= p.item_ids@.map_values(|i: i64| SqlValue::Integer(i)));
    lemma_playlist_access_name_roundtrip(p.access, p.access.name());
    lemma_playlist_type_name_roundtrip(p.playlist_type, p.playlist_type.name());
    if playlist_read_as(playlist_record(p), items, q) {
        lemma_playlist_access_name_roundtrip(q.access, p.access.name());
        lemma_playlist_type_name_roundtrip(q.playlist_type, p.playlist_type.name());
        assert(q.item_ids@.len() == p.item_ids@.len());
        assert forall|i: int| 0 <= i < q.item_ids@.len() implies q.item_ids@[i] == p.item_ids@[i] by {
            assert(q.item_ids@.map_values(|x: i64| SqlValue::Integer(x))[i] == items[i]);
        }
        assert(q.item_ids@ =~= p.item_ids@);
    }
}

/// The item rows of a playlist are in increasing order of position, so
/// reading them ordered by position gives them in the order written.
pub proof fn lemma_playlist_items_in_position_order(p: Playlist)
    requires
        p.item_ids@.len() <= i64::MAX,
    ensures
        forall|i: int, j: int|
            0 <= i < j < playlist_item_rows(p).len() ==> int_of(#[trigger] playlist_item_rows(p)[i][1])->0 < int_of(
                #[trigger] playlist_item_rows(p)[j][1],
            )->0,
{
}


/// Whether `read` is what the database gives back for the written values
/// `written`: the same values, except that a fixed name may come back as a
/// text with the same characters.
pub open spec fn read_back_as(written: Seq<SqlValue>, read: Seq<SqlValue>) -> bool {
    &&& written.len() == read.len()
    &&& forall|k: int| 0 <= k < written.len() ==> {
        ||| #[trigger] read[k] == written[k]
        ||| (written[k] matches SqlValue::Name(n) && read[k] matches SqlValue::Text(t) && t@ == n@)
    }
}

/// Reading back what the database holds for a user gives the user.
pub proof fn lemma_user_read_back(u: User, read: Seq<SqlValue>)
    requires
        read_back_as(user_record(u), read),
    ensures
        user_from_record(read) == Ok::<User, RowError>(u),
{
    let w = user_record(u);
    assert(read[0] == w[0] || (w[0] is Name));
    assert(read[1] == w[1] || (w[1] is Name));
    assert(read[2] == w[2] || (w[2] is Name && read[2] is Text));
    assert(name_of(read[2]) == name_of(w[2]));
    lemma_user_record_roundtrip(u);
}

/// Reading back what the database holds for a playlist row checks and reads
/// the same as the row written.
pub proof fn lemma_playlist_read_back(p: Playlist, read: Seq<SqlValue>, items: Seq<SqlValue>, q: Playlist)
    requires
        read_back_as(playlist_record(p), read),
    ensures
        playlist_check(read, items) == playlist_check(playlist_record(p), items),
        playlist_read_as(read, items, q) == playlist_read_as(playlist_record(p), items, q),
{
    let w = playlist_record(p);
    assert(read[0] == w[0] || (w[0] is Name));
    assert(read[1] == w[1] || (w[1] is Name));
    assert(read[2] == w[2] || (w[2] is Name));
    assert(read[3] == w[3] || (w[3] is Name));
    assert(read[4] == w[4] || (w[4] is Name && read[4] is Text));
    assert(read[5] == w[5] || (w[5] is Name && read[5] is Text));
    assert(read[6] == w[6] || (w[6] is Name));
    assert(read[7] == w[7] || (w[7] is Name));
    assert(name_of(read[4]) == name_of(w[4]));
    assert(name_of(read[5]) == name_of(w[5]));
}

} // verus!
