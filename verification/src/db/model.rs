//! What the mirror's statements do to a table, as far as the mirror relies
//! on it, and the laws that follow: a record written is read back, and a
//! prune drops exactly the rows a sync did not load again, together with
//! the children of the records it drops; a write replaces the children of
//! the records it writes; writing the same records twice changes nothing;
//! and after a whole sync a table holds what the sync wrote.
//!
//! A table is modelled as its rows by id; the first value of each row the
//! mirror writes is the id, the last its `loaded_at`. A bulk insert with
//! `ON CONFLICT(id) DO UPDATE SET` every other column makes each of its rows,
//! in order, the row of its id; reading a record by id gives the row without
//! `loaded_at`; pruning deletes the rows with `loaded_at` before the start.

use vstd::prelude::*;

use crate::api::{Album, Artist, AuthToken, CodecConversion, Genre, Label, Play, Playlist, Track, User};
use crate::db::records::{
    album_artist_rows, album_label_rows, artist_from_record, artist_record, playlist_item_rows,
    track_artist_rows, track_genre_rows, auth_token_from_record, auth_token_record,
    codec_conversion_from_record, codec_conversion_record, genre_from_record, genre_record,
    int_of, label_from_record, label_record, lemma_artist_record_roundtrip,
    lemma_auth_token_record_roundtrip, lemma_codec_conversion_record_roundtrip,
    lemma_genre_record_roundtrip, lemma_label_record_roundtrip, lemma_play_record_roundtrip,
    lemma_user_record_roundtrip, play_from_record, play_record, playlist_record, user_from_record,
    user_record, RowError,
};
use crate::db::sql::{chunks, lemma_chunks_flatten, SqlValue, DELETE_CHUNK, INSERT_CHUNK};
use crate::db::statements::{
    album_rows, all_album_artist_rows, all_album_label_rows, all_playlist_item_rows, all_track_artist_rows,
    all_track_genre_rows, artist_rows, auth_token_rows, codec_conversion_rows, genre_rows, label_rows, play_rows,
    playlist_rows, track_rows, user_rows,
};

verus! {

/// The id of a row: its first value.
pub open spec fn row_id(row: Seq<SqlValue>) -> i64 {
    int_of(row[0])->0
}

/// A table after the bulk inserts of `rows`: each row, in order, becomes
/// the row of its id.
pub open spec fn upsert_rows(t: Map<i64, Seq<SqlValue>>, rows: Seq<Seq<SqlValue>>) -> Map<i64, Seq<SqlValue>>
    decreases rows.len(),
{
    if rows.len() == 0 {
        t
    } else {
        upsert_rows(t.insert(row_id(rows[0]), rows[0]), rows.drop_first())
    }
}

/// A table after the bulk inserts of `pieces`, one statement per piece, in
/// order.
pub open spec fn upsert_pieces(t: Map<i64, Seq<SqlValue>>, pieces: Seq<Seq<Seq<SqlValue>>>) -> Map<i64, Seq<SqlValue>>
    decreases pieces.len(),
{
    if pieces.len() == 0 {
        t
    } else {
        upsert_pieces(upsert_rows(t, pieces[0]), pieces.drop_first())
    }
}

proof fn lemma_upsert_concat(t: Map<i64, Seq<SqlValue>>, a: Seq<Seq<SqlValue>>, b: Seq<Seq<SqlValue>>)
    ensures
        upsert_rows(t, a + b) == upsert_rows(upsert_rows(t, a), b),
    decreases a.len(),
{
    if a.len() == 0 {
        assert(a + b =~= b);
    } else {
        assert((a + b)[0] == a[0]);
        assert((a + b).drop_first() =~= a.drop_first() + b);
        lemma_upsert_concat(t.insert(row_id(a[0]), a[0]), a.drop_first(), b);
    }
}

/// Running the bulk inserts one after the other does what inserting all
/// their rows in order does.
pub proof fn lemma_upsert_pieces(t: Map<i64, Seq<SqlValue>>, pieces: Seq<Seq<Seq<SqlValue>>>)
    ensures
        upsert_pieces(t, pieces) == upsert_rows(t, pieces.flatten()),
    decreases pieces.len(),
{
    if pieces.len() > 0 {
        lemma_upsert_pieces(upsert_rows(t, pieces[0]), pieces.drop_first());
        lemma_upsert_concat(t, pieces[0], pieces.drop_first().flatten());
    }
}

/// The record columns read from the row of `id`: the row without its
/// trailing `loaded_at`; `None` when there is no such row.
pub open spec fn read_record(t: Map<i64, Seq<SqlValue>>, id: i64) -> Option<Seq<SqlValue>> {
    if t.contains_key(id) {
        Some(t[id].drop_last())
    } else {
        None
    }
}

/// Whether a row was loaded before `started_at_ms`.
pub open spec fn loaded_before(row: Seq<SqlValue>, started_at_ms: i64) -> bool {
    row.len() > 0 && (row.last() matches SqlValue::Integer(l) && l < started_at_ms)
}

/// A table after deleting the rows loaded before `started_at_ms`.
pub open spec fn prune_rows(t: Map<i64, Seq<SqlValue>>, started_at_ms: i64) -> Map<i64, Seq<SqlValue>> {
    t.restrict(t.dom().filter(|id: i64| !loaded_before(t[id], started_at_ms)))
}

/// Rows for ids none of `rows` carries stay as they were.
pub proof fn lemma_upsert_untouched(t: Map<i64, Seq<SqlValue>>, rows: Seq<Seq<SqlValue>>, id: i64)
    requires
        forall|j: int| 0 <= j < rows.len() ==> row_id(#[trigger] rows[j]) != id,
    ensures
        upsert_rows(t, rows).contains_key(id) == t.contains_key(id),
        t.contains_key(id) ==> upsert_rows(t, rows)[id] == t[id],
    decreases rows.len(),
{
    if rows.len() > 0 {
        assert(row_id(rows[0]) != id);
        assert forall|j: int| 0 <= j < rows.drop_first().len() implies row_id(#[trigger] rows.drop_first()[j]) != id by {
            assert(rows.drop_first()[j] == rows[j + 1]);
        }
        lemma_upsert_untouched(t.insert(row_id(rows[0]), rows[0]), rows.drop_first(), id);
    }
}

/// The row of an id after the bulk inserts is the last of `rows` that
/// carries it.
pub proof fn lemma_upsert_last_wins(t: Map<i64, Seq<SqlValue>>, rows: Seq<Seq<SqlValue>>, i: int)
    requires
        0 <= i < rows.len(),
        forall|j: int| i < j < rows.len() ==> row_id(#[trigger] rows[j]) != row_id(rows[i]),
    ensures
        upsert_rows(t, rows).contains_key(row_id(rows[i])),
        upsert_rows(t, rows)[row_id(rows[i])] == rows[i],
    decreases rows.len(),
{
    let rest = rows.drop_first();
    let t1 = t.insert(row_id(rows[0]), rows[0]);
    if i == 0 {
        assert forall|j: int| 0 <= j < rest.len() implies row_id(#[trigger] rest[j]) != row_id(rows[0]) by {
            assert(rest[j] == rows[j + 1]);
        }
        lemma_upsert_untouched(t1, rest, row_id(rows[0]));
    } else {
        assert(rest[i - 1] == rows[i]);
        assert forall|j: int| i - 1 < j < rest.len() implies row_id(#[trigger] rest[j]) != row_id(rest[i - 1]) by {
            assert(rest[j] == rows[j + 1]);
        }
        lemma_upsert_last_wins(t1, rest, i - 1);
    }
}

/// A prune keeps a row exactly when it was not loaded before the start.
pub proof fn lemma_prune_keeps(t: Map<i64, Seq<SqlValue>>, started_at_ms: i64, id: i64)
    ensures
        prune_rows(t, started_at_ms).contains_key(id) <==> (t.contains_key(id) && !loaded_before(t[id], started_at_ms)),
        prune_rows(t, started_at_ms).contains_key(id) ==> prune_rows(t, started_at_ms)[id] == t[id],
{
}

/// Reading back the row written for `row` gives its record columns.
proof fn lemma_read_written(t: Map<i64, Seq<SqlValue>>, rows: Seq<Seq<SqlValue>>, i: int, record: Seq<SqlValue>, loaded_at_ms: i64)
    requires
        0 <= i < rows.len(),
        forall|j: int| i < j < rows.len() ==> row_id(#[trigger] rows[j]) != row_id(rows[i]),
        rows[i] == record.push(SqlValue::Integer(loaded_at_ms)),
    ensures
        read_record(upsert_rows(t, rows), row_id(rows[i])) == Some(record),
{
    lemma_upsert_last_wins(t, rows, i);
    assert(record.push(SqlValue::Integer(loaded_at_ms)).drop_last() =~= record);
}

/// Pruning after a write stamped at or after the start keeps the rows the
/// write put there.
pub proof fn lemma_prune_keeps_fresh(t: Map<i64, Seq<SqlValue>>, record: Seq<SqlValue>, loaded_at_ms: i64, started_at_ms: i64, id: i64)
    requires
        t.contains_key(id),
        t[id] == record.push(SqlValue::Integer(loaded_at_ms)),
    ensures
        started_at_ms <= loaded_at_ms ==> read_record(prune_rows(t, started_at_ms), id) == Some(record),
        loaded_at_ms < started_at_ms ==> read_record(prune_rows(t, started_at_ms), id) is None,
{
    assert(record.push(SqlValue::Integer(loaded_at_ms)).drop_last() =~= record);
    assert(t[id].last() == SqlValue::Integer(loaded_at_ms));
}

/// Writing an artists and then reading one of them by its id gives it back,
/// unless a later one in the same write has the same id.
pub proof fn lemma_artist_read_after_write(t: Map<i64, Seq<SqlValue>>, items: Seq<Artist>, loaded_at_ms: i64, i: int)
    requires
        0 <= i < items.len(),
        forall|j: int| i < j < items.len() ==> (#[trigger] items[j]).id != items[i].id,
    ensures
        read_record(upsert_pieces(t, chunks(artist_rows(items, loaded_at_ms), INSERT_CHUNK as nat)), items[i].id) == Some(artist_record(items[i])),
        artist_from_record(artist_record(items[i])) == Ok::<Artist, RowError>(items[i]),
{
    let rows = artist_rows(items, loaded_at_ms);
    assert forall|j: int| i < j < rows.len() implies row_id(#[trigger] rows[j]) != row_id(rows[i]) by {
        assert(rows[j] == artist_record(items[j]).push(SqlValue::Integer(loaded_at_ms)));
        assert(items[j].id != items[i].id);
    }
    lemma_chunks_flatten(rows, INSERT_CHUNK as nat);
    lemma_upsert_pieces(t, chunks(rows, INSERT_CHUNK as nat));
    lemma_read_written(t, rows, i, artist_record(items[i]), loaded_at_ms);
    lemma_artist_record_roundtrip(items[i]);
}

/// Writing an auth tokens and then reading one of them by its id gives it back,
/// unless a later one in the same write has the same id.
pub proof fn lemma_auth_token_read_after_write(t: Map<i64, Seq<SqlValue>>, items: Seq<AuthToken>, loaded_at_ms: i64, i: int)
    requires
        0 <= i < items.len(),
        forall|j: int| i < j < items.len() ==> (#[trigger] items[j]).id != items[i].id,
    ensures
        read_record(upsert_pieces(t, chunks(auth_token_rows(items, loaded_at_ms), INSERT_CHUNK as nat)), items[i].id) == Some(auth_token_record(items[i])),
        auth_token_from_record(auth_token_record(items[i])) == Ok::<AuthToken, RowError>(items[i]),
{
    let rows = auth_token_rows(items, loaded_at_ms);
    assert forall|j: int| i < j < rows.len() implies row_id(#[trigger] rows[j]) != row_id(rows[i]) by {
        assert(rows[j] == auth_token_record(items[j]).push(SqlValue::Integer(loaded_at_ms)));
        assert(items[j].id != items[i].id);
    }
    lemma_chunks_flatten(rows, INSERT_CHUNK as nat);
    lemma_upsert_pieces(t, chunks(rows, INSERT_CHUNK as nat));
    lemma_read_written(t, rows, i, auth_token_record(items[i]), loaded_at_ms);
    lemma_auth_token_record_roundtrip(items[i]);
}

/// Writing a codec conversions and then reading one of them by its id gives it back,
/// unless a later one in the same write has the same id.
pub proof fn lemma_codec_conversion_read_after_write(t: Map<i64, Seq<SqlValue>>, items: Seq<CodecConversion>, loaded_at_ms: i64, i: int)
    requires
        0 <= i < items.len(),
        forall|j: int| i < j < items.len() ==> (#[trigger] items[j]).id != items[i].id,
    ensures
        read_record(upsert_pieces(t, chunks(codec_conversion_rows(items, loaded_at_ms), INSERT_CHUNK as nat)), items[i].id) == Some(codec_conversion_record(items[i])),
        codec_conversion_from_record(codec_conversion_record(items[i])) == Ok::<CodecConversion, RowError>(items[i]),
{
    let rows = codec_conversion_rows(items, loaded_at_ms);
    assert forall|j: int| i < j < rows.len() implies row_id(#[trigger] rows[j]) != row_id(rows[i]) by {
        assert(rows[j] == codec_conversion_record(items[j]).push(SqlValue::Integer(loaded_at_ms)));
        assert(items[j].id != items[i].id);
    }
    lemma_chunks_flatten(rows, INSERT_CHUNK as nat);
    lemma_upsert_pieces(t, chunks(rows, INSERT_CHUNK as nat));
    lemma_read_written(t, rows, i, codec_conversion_record(items[i]), loaded_at_ms);
    lemma_codec_conversion_record_roundtrip(items[i]);
}

/// Writing a genres and then reading one of them by its id gives it back,
/// unless a later one in the same write has the same id.
pub proof fn lemma_genre_read_after_write(t: Map<i64, Seq<SqlValue>>, items: Seq<Genre>, loaded_at_ms: i64, i: int)
    requires
        0 <= i < items.len(),
        forall|j: int| i < j < items.len() ==> (#[trigger] items[j]).id != items[i].id,
    ensures
        read_record(upsert_pieces(t, chunks(genre_rows(items, loaded_at_ms), INSERT_CHUNK as nat)), items[i].id) == Some(genre_record(items[i])),
        genre_from_record(genre_record(items[i])) == Ok::<Genre, RowError>(items[i]),
{
    let rows = genre_rows(items, loaded_at_ms);
    assert forall|j: int| i < j < rows.len() implies row_id(#[trigger] rows[j]) != row_id(rows[i]) by {
        assert(rows[j] == genre_record(items[j]).push(SqlValue::Integer(loaded_at_ms)));
        assert(items[j].id != items[i].id);
    }
    lemma_chunks_flatten(rows, INSERT_CHUNK as nat);
    lemma_upsert_pieces(t, chunks(rows, INSERT_CHUNK as nat));
    lemma_read_written(t, rows, i, genre_record(items[i]), loaded_at_ms);
    lemma_genre_record_roundtrip(items[i]);
}

/// Writing a labels and then reading one of them by its id gives it back,
/// unless a later one in the same write has the same id.
pub proof fn lemma_label_read_after_write(t: Map<i64, Seq<SqlValue>>, items: Seq<Label>, loaded_at_ms: i64, i: int)
    requires
        0 <= i < items.len(),
        forall|j: int| i < j < items.len() ==> (#[trigger] items[j]).id != items[i].id,
    ensures
        read_record(upsert_pieces(t, chunks(label_rows(items, loaded_at_ms), INSERT_CHUNK as nat)), items[i].id) == Some(label_record(items[i])),
        label_from_record(label_record(items[i])) == Ok::<Label, RowError>(items[i]),
{
    let rows = label_rows(items, loaded_at_ms);
    assert forall|j: int| i < j < rows.len() implies row_id(#[trigger] rows[j]) != row_id(rows[i]) by {
        assert(rows[j] == label_record(items[j]).push(SqlValue::Integer(loaded_at_ms)));
        assert(items[j].id != items[i].id);
    }
    lemma_chunks_flatten(rows, INSERT_CHUNK as nat);
    lemma_upsert_pieces(t, chunks(rows, INSERT_CHUNK as nat));
    lemma_read_written(t, rows, i, label_record(items[i]), loaded_at_ms);
    lemma_label_record_roundtrip(items[i]);
}

/// Writing a plays and then reading one of them by its id gives it back,
/// unless a later one in the same write has the same id.
pub proof fn lemma_play_read_after_write(t: Map<i64, Seq<SqlValue>>, items: Seq<Play>, loaded_at_ms: i64, i: int)
    requires
        0 <= i < items.len(),
        forall|j: int| i < j < items.len() ==> (#[trigger] items[j]).id != items[i].id,
    ensures
        read_record(upsert_pieces(t, chunks(play_rows(items, loaded_at_ms), INSERT_CHUNK as nat)), items[i].id) == Some(play_record(items[i])),
        play_from_record(play_record(items[i])) == Ok::<Play, RowError>(items[i]),
{
    let rows = play_rows(items, loaded_at_ms);
    assert forall|j: int| i < j < rows.len() implies row_id(#[trigger] rows[j]) != row_id(rows[i]) by {
        assert(rows[j] == play_record(items[j]).push(SqlValue::Integer(loaded_at_ms)));
        assert(items[j].id != items[i].id);
    }
    lemma_chunks_flatten(rows, INSERT_CHUNK as nat);
    lemma_upsert_pieces(t, chunks(rows, INSERT_CHUNK as nat));
    lemma_read_written(t, rows, i, play_record(items[i]), loaded_at_ms);
    lemma_play_record_roundtrip(items[i]);
}

/// Writing users and then reading one of them by its id gives it back,
/// unless a later one in the same write has the same id.
pub proof fn lemma_user_read_after_write(t: Map<i64, Seq<SqlValue>>, items: Seq<User>, loaded_at_ms: i64, i: int)
    requires
        0 <= i < items.len(),
        forall|j: int| i < j < items.len() ==> (#[trigger] items[j]).id != items[i].id,
    ensures
        read_record(upsert_pieces(t, chunks(user_rows(items, loaded_at_ms), INSERT_CHUNK as nat)), items[i].id as i64) == Some(user_record(items[i])),
        user_from_record(user_record(items[i])) == Ok::<User, RowError>(items[i]),
{
    let rows = user_rows(items, loaded_at_ms);
    assert forall|j: int| i < j < rows.len() implies row_id(#[trigger] rows[j]) != row_id(rows[i]) by {
        assert(rows[j] == user_record(items[j]).push(SqlValue::Integer(loaded_at_ms)));
        let a = items[j].id;
        let b = items[i].id;
        assert(a != b ==> (a as i64) != (b as i64)) by (bit_vector);
    }
    lemma_chunks_flatten(rows, INSERT_CHUNK as nat);
    lemma_upsert_pieces(t, chunks(rows, INSERT_CHUNK as nat));
    lemma_read_written(t, rows, i, user_record(items[i]), loaded_at_ms);
    lemma_user_record_roundtrip(items[i]);
}

/// Writing playlists and then reading one of them by its id gives its row
/// back, unless a later one in the same write has the same id.
pub proof fn lemma_playlist_read_after_write(t: Map<i64, Seq<SqlValue>>, items: Seq<Playlist>, loaded_at_ms: i64, i: int)
    requires
        0 <= i < items.len(),
        forall|j: int| i < j < items.len() ==> (#[trigger] items[j]).id != items[i].id,
    ensures
        read_record(upsert_pieces(t, chunks(playlist_rows(items, loaded_at_ms), INSERT_CHUNK as nat)), items[i].id) == Some(playlist_record(items[i])),
{
    let rows = playlist_rows(items, loaded_at_ms);
    assert forall|j: int| i < j < rows.len() implies row_id(#[trigger] rows[j]) != row_id(rows[i]) by {
        assert(rows[j] == playlist_record(items[j]).push(SqlValue::Integer(loaded_at_ms)));
        assert(items[j].id != items[i].id);
    }
    lemma_chunks_flatten(rows, INSERT_CHUNK as nat);
    lemma_upsert_pieces(t, chunks(rows, INSERT_CHUNK as nat));
    lemma_read_written(t, rows, i, playlist_record(items[i]), loaded_at_ms);
}


/// The rows of a table of children (artists of albums, items of playlists,
/// ...) that belong to parent `id`: those whose first value is `id`, in order.
pub open spec fn children(t: Seq<Seq<SqlValue>>, id: i64) -> Seq<Seq<SqlValue>>
    decreases t.len(),
{
    if t.len() == 0 {
        seq![]
    } else if row_id(t[0]) == id {
        seq![t[0]] + children(t.drop_first(), id)
    } else {
        children(t.drop_first(), id)
    }
}

/// A table of children after deleting the rows of the parents `ids`.
pub open spec fn without_parents(t: Seq<Seq<SqlValue>>, ids: Seq<i64>) -> Seq<Seq<SqlValue>>
    decreases t.len(),
{
    if t.len() == 0 {
        seq![]
    } else if ids.contains(row_id(t[0])) {
        without_parents(t.drop_first(), ids)
    } else {
        seq![t[0]] + without_parents(t.drop_first(), ids)
    }
}

/// A table of children after one delete for each piece of the parent ids.
pub open spec fn delete_pieces(t: Seq<Seq<SqlValue>>, pieces: Seq<Seq<i64>>) -> Seq<Seq<SqlValue>>
    decreases pieces.len(),
{
    if pieces.len() == 0 {
        t
    } else {
        delete_pieces(without_parents(t, pieces[0]), pieces.drop_first())
    }
}

proof fn lemma_children_concat(a: Seq<Seq<SqlValue>>, b: Seq<Seq<SqlValue>>, id: i64)
    ensures
        children(a + b, id) == children(a, id) + children(b, id),
    decreases a.len(),
{
    if a.len() == 0 {
        assert(a + b =~= b);
    } else {
        assert((a + b)[0] == a[0]);
        assert((a + b).drop_first() =~= a.drop_first() + b);
        lemma_children_concat(a.drop_first(), b, id);
        if row_id(a[0]) == id {
            assert(seq![a[0]] + (children(a.drop_first(), id) + children(b, id))
                =~= (seq![a[0]] + children(a.drop_first(), id)) + children(b, id));
        }
    }
}

proof fn lemma_children_uniform(s: Seq<Seq<SqlValue>>, x: i64, id: i64)
    requires
        forall|k: int| 0 <= k < s.len() ==> row_id(#[trigger] s[k]) == x,
    ensures
        children(s, id) == if x == id { s } else { Seq::<Seq<SqlValue>>::empty() },
    decreases s.len(),
{
    if s.len() > 0 {
        assert forall|k: int| 0 <= k < s.drop_first().len() implies row_id(#[trigger] s.drop_first()[k]) == x by {
            assert(s.drop_first()[k] == s[k + 1]);
        }
        lemma_children_uniform(s.drop_first(), x, id);
        assert(row_id(s[0]) == x);
        if x == id {
            assert(seq![s[0]] + s.drop_first() =~= s);
        }
    }
}

proof fn lemma_without_parents_twice(t: Seq<Seq<SqlValue>>, a: Seq<i64>, b: Seq<i64>)
    ensures
        without_parents(without_parents(t, a), b) == without_parents(t, a + b),
    decreases t.len(),
{
    if t.len() > 0 {
        lemma_without_parents_twice(t.drop_first(), a, b);
        let r = row_id(t[0]);
        assert((a + b).contains(r) <==> a.contains(r) || b.contains(r)) by {
            if a.contains(r) {
                let k = choose|k: int| 0 <= k < a.len() && a[k] == r;
                assert((a + b)[k] == r);
            }
            if b.contains(r) {
                let k = choose|k: int| 0 <= k < b.len() && b[k] == r;
                assert((a + b)[a.len() + k] == r);
            }
        }
        if !a.contains(r) {
            let w = seq![t[0]] + without_parents(t.drop_first(), a);
            assert(w[0] == t[0]);
            assert(w.drop_first() =~= without_parents(t.drop_first(), a));
        }
    }
}

proof fn lemma_delete_pieces(t: Seq<Seq<SqlValue>>, pieces: Seq<Seq<i64>>)
    ensures
        delete_pieces(t, pieces) == without_parents(t, pieces.flatten()),
    decreases pieces.len(),
{
    if pieces.len() == 0 {
        assert(without_parents(t, Seq::<i64>::empty()) =~= t) by {
            lemma_without_nothing(t);
        }
    } else {
        lemma_delete_pieces(without_parents(t, pieces[0]), pieces.drop_first());
        lemma_without_parents_twice(t, pieces[0], pieces.drop_first().flatten());
    }
}

proof fn lemma_without_nothing(t: Seq<Seq<SqlValue>>)
    ensures
        without_parents(t, Seq::<i64>::empty()) == t,
    decreases t.len(),
{
    if t.len() > 0 {
        lemma_without_nothing(t.drop_first());
        assert(seq![t[0]] + t.drop_first() =~= t);
    }
}

proof fn lemma_no_children_left(t: Seq<Seq<SqlValue>>, ids: Seq<i64>, id: i64)
    requires
        ids.contains(id),
    ensures
        children(without_parents(t, ids), id) == Seq::<Seq<SqlValue>>::empty(),
    decreases t.len(),
{
    if t.len() > 0 {
        lemma_no_children_left(t.drop_first(), ids, id);
        if !ids.contains(row_id(t[0])) {
            let w = seq![t[0]] + without_parents(t.drop_first(), ids);
            assert(w[0] == t[0]);
            assert(w.drop_first() =~= without_parents(t.drop_first(), ids));
        }
    }
}

/// Replacing children: after the deletes of the parents `ids`, five hundred
/// to a statement, and the inserts of `rows`, fifty to a statement, the
/// children of a parent among `ids` are exactly its children among `rows`,
/// whatever the table held before.
pub proof fn lemma_children_replaced(t: Seq<Seq<SqlValue>>, ids: Seq<i64>, rows: Seq<Seq<SqlValue>>, id: i64)
    requires
        ids.contains(id),
    ensures
        children(delete_pieces(t, chunks(ids, DELETE_CHUNK as nat)) + chunks(rows, INSERT_CHUNK as nat).flatten(), id)
            == children(rows, id),
{
    lemma_chunks_flatten(ids, DELETE_CHUNK as nat);
    lemma_chunks_flatten(rows, INSERT_CHUNK as nat);
    lemma_delete_pieces(t, chunks(ids, DELETE_CHUNK as nat));
    lemma_children_concat(without_parents(t, ids), rows, id);
    lemma_no_children_left(t, ids, id);
    assert(Seq::<Seq<SqlValue>>::empty() + children(rows, id) =~= children(rows, id));
}

/// Among the children written for `items`, those of item `i` are the ones
/// written for it, when no other item has its id.
proof fn lemma_children_of_item<T>(
    items: Seq<T>,
    rows_of: spec_fn(T) -> Seq<Seq<SqlValue>>,
    id_of: spec_fn(T) -> i64,
    i: int,
)
    requires
        0 <= i < items.len(),
        forall|j: int| 0 <= j < items.len() && j != i ==> id_of(#[trigger] items[j]) != id_of(items[i]),
        forall|x: T, k: int| 0 <= k < rows_of(x).len() ==> row_id(#[trigger] rows_of(x)[k]) == id_of(x),
    ensures
        children(items.map_values(rows_of).flatten(), id_of(items[i])) == rows_of(items[i]),
    decreases items.len(),
{
    let id = id_of(items[i]);
    let m = items.map_values(rows_of);
    let rest = items.drop_first();
    assert(m.drop_first() =~= rest.map_values(rows_of));
    lemma_children_concat(rows_of(items[0]), rest.map_values(rows_of).flatten(), id);
    lemma_children_uniform(rows_of(items[0]), id_of(items[0]), id);
    if i == 0 {
        assert(children(rest.map_values(rows_of).flatten(), id) == Seq::<Seq<SqlValue>>::empty()) by {
            lemma_no_children_among(rest, rows_of, id_of, id);
        }
        assert(rows_of(items[0]) + Seq::<Seq<SqlValue>>::empty() =~= rows_of(items[0]));
    } else {
        assert forall|j: int| 0 <= j < rest.len() && j != i - 1 implies id_of(#[trigger] rest[j]) != id_of(rest[i - 1]) by {
            assert(rest[j] == items[j + 1]);
        }
        lemma_children_of_item(rest, rows_of, id_of, i - 1);
        assert(id_of(items[0]) != id);
        assert(Seq::<Seq<SqlValue>>::empty() + rows_of(items[i]) =~= rows_of(items[i]));
    }
}

proof fn lemma_no_children_among<T>(
    items: Seq<T>,
    rows_of: spec_fn(T) -> Seq<Seq<SqlValue>>,
    id_of: spec_fn(T) -> i64,
    id: i64,
)
    requires
        forall|j: int| 0 <= j < items.len() ==> id_of(#[trigger] items[j]) != id,
        forall|x: T, k: int| 0 <= k < rows_of(x).len() ==> row_id(#[trigger] rows_of(x)[k]) == id_of(x),
    ensures
        children(items.map_values(rows_of).flatten(), id) == Seq::<Seq<SqlValue>>::empty(),
    decreases items.len(),
{
    if items.len() > 0 {
        let rest = items.drop_first();
        assert(items.map_values(rows_of).drop_first() =~= rest.map_values(rows_of));
        assert forall|j: int| 0 <= j < rest.len() implies id_of(#[trigger] rest[j]) != id by {
            assert(rest[j] == items[j + 1]);
        }
        lemma_no_children_among(rest, rows_of, id_of, id);
        lemma_children_concat(rows_of(items[0]), rest.map_values(rows_of).flatten(), id);
        lemma_children_uniform(rows_of(items[0]), id_of(items[0]), id);
        assert(id_of(items[0]) != id);
    }
}

/// After a write of `items`, the artists stored for an album are its artists, whatever was stored for it
/// before, when no other item of the write has its id.
pub proof fn lemma_album_artists_replaced(t: Seq<Seq<SqlValue>>, items: Seq<Album>, i: int)
    requires
        0 <= i < items.len(),
        forall|j: int| 0 <= j < items.len() && j != i ==> (#[trigger] items[j]).id != items[i].id,
    ensures
        children(
            delete_pieces(t, chunks(items.map_values(|x: Album| x.id), DELETE_CHUNK as nat))
                + chunks(all_album_artist_rows(items), INSERT_CHUNK as nat).flatten(),
            items[i].id,
        ) == album_artist_rows(items[i]),
{
    let ids = items.map_values(|x: Album| x.id);
    assert(ids[i] == items[i].id);
    lemma_children_replaced(t, ids, all_album_artist_rows(items), items[i].id);
    let rows_of = |x: Album| album_artist_rows(x);
    let id_of = |x: Album| x.id;
    assert forall|x: Album, k: int| 0 <= k < rows_of(x).len() implies row_id(#[trigger] rows_of(x)[k]) == id_of(x) by {
    }
    assert(all_album_artist_rows(items) == items.map_values(rows_of).flatten()) by {
        assert(items.map_values(rows_of) =~= items.map_values(|x: Album| album_artist_rows(x)));
    }
    lemma_children_of_item(items, rows_of, id_of, i);
}

/// After a write of `items`, the labels stored for an album are its labels, whatever was stored for it
/// before, when no other item of the write has its id.
pub proof fn lemma_album_labels_replaced(t: Seq<Seq<SqlValue>>, items: Seq<Album>, i: int)
    requires
        0 <= i < items.len(),
        forall|j: int| 0 <= j < items.len() && j != i ==> (#[trigger] items[j]).id != items[i].id,
    ensures
        children(
            delete_pieces(t, chunks(items.map_values(|x: Album| x.id), DELETE_CHUNK as nat))
                + chunks(all_album_label_rows(items), INSERT_CHUNK as nat).flatten(),
            items[i].id,
        ) == album_label_rows(items[i]),
{
    let ids = items.map_values(|x: Album| x.id);
    assert(ids[i] == items[i].id);
    lemma_children_replaced(t, ids, all_album_label_rows(items), items[i].id);
    let rows_of = |x: Album| album_label_rows(x);
    let id_of = |x: Album| x.id;
    assert forall|x: Album, k: int| 0 <= k < rows_of(x).len() implies row_id(#[trigger] rows_of(x)[k]) == id_of(x) by {
    }
    assert(all_album_label_rows(items) == items.map_values(rows_of).flatten()) by {
        assert(items.map_values(rows_of) =~= items.map_values(|x: Album| album_label_rows(x)));
    }
    lemma_children_of_item(items, rows_of, id_of, i);
}

/// After a write of `items`, the artists stored for a track are its artists, whatever was stored for it
/// before, when no other item of the write has its id.
pub proof fn lemma_track_artists_replaced(t: Seq<Seq<SqlValue>>, items: Seq<Track>, i: int)
    requires
        0 <= i < items.len(),
        forall|j: int| 0 <= j < items.len() && j != i ==> (#[trigger] items[j]).id != items[i].id,
    ensures
        children(
            delete_pieces(t, chunks(items.map_values(|x: Track| x.id), DELETE_CHUNK as nat))
                + chunks(all_track_artist_rows(items), INSERT_CHUNK as nat).flatten(),
            items[i].id,
        ) == track_artist_rows(items[i]),
{
    let ids = items.map_values(|x: Track| x.id);
    assert(ids[i] == items[i].id);
    lemma_children_replaced(t, ids, all_track_artist_rows(items), items[i].id);
    let rows_of = |x: Track| track_artist_rows(x);
    let id_of = |x: Track| x.id;
    assert forall|x: Track, k: int| 0 <= k < rows_of(x).len() implies row_id(#[trigger] rows_of(x)[k]) == id_of(x) by {
    }
    assert(all_track_artist_rows(items) == items.map_values(rows_of).flatten()) by {
        assert(items.map_values(rows_of) =~= items.map_values(|x: Track| track_artist_rows(x)));
    }
    lemma_children_of_item(items, rows_of, id_of, i);
}

/// After a write of `items`, the genres stored for a track are its genres, whatever was stored for it
/// before, when no other item of the write has its id.
pub proof fn lemma_track_genres_replaced(t: Seq<Seq<SqlValue>>, items: Seq<Track>, i: int)
    requires
        0 <= i < items.len(),
        forall|j: int| 0 <= j < items.len() && j != i ==> (#[trigger] items[j]).id != items[i].id,
    ensures
        children(
            delete_pieces(t, chunks(items.map_values(|x: Track| x.id), DELETE_CHUNK as nat))
                + chunks(all_track_genre_rows(items), INSERT_CHUNK as nat).flatten(),
            items[i].id,
        ) == track_genre_rows(items[i]),
{
    let ids = items.map_values(|x: Track| x.id);
    assert(ids[i] == items[i].id);
    lemma_children_replaced(t, ids, all_track_genre_rows(items), items[i].id);
    let rows_of = |x: Track| track_genre_rows(x);
    let id_of = |x: Track| x.id;
    assert forall|x: Track, k: int| 0 <= k < rows_of(x).len() implies row_id(#[trigger] rows_of(x)[k]) == id_of(x) by {
    }
    assert(all_track_genre_rows(items) == items.map_values(rows_of).flatten()) by {
        assert(items.map_values(rows_of) =~= items.map_values(|x: Track| track_genre_rows(x)));
    }
    lemma_children_of_item(items, rows_of, id_of, i);
}

/// After a write of `items`, the items stored for a playlist are its items, each at its position, whatever was stored for it
/// before, when no other item of the write has its id.
pub proof fn lemma_playlist_items_replaced(t: Seq<Seq<SqlValue>>, items: Seq<Playlist>, i: int)
    requires
        0 <= i < items.len(),
        forall|j: int| 0 <= j < items.len() && j != i ==> (#[trigger] items[j]).id != items[i].id,
    ensures
        children(
            delete_pieces(t, chunks(items.map_values(|x: Playlist| x.id), DELETE_CHUNK as nat))
                + chunks(all_playlist_item_rows(items), INSERT_CHUNK as nat).flatten(),
            items[i].id,
        ) == playlist_item_rows(items[i]),
{
    let ids = items.map_values(|x: Playlist| x.id);
    assert(ids[i] == items[i].id);
    lemma_children_replaced(t, ids, all_playlist_item_rows(items), items[i].id);
    let rows_of = |x: Playlist| playlist_item_rows(x);
    let id_of = |x: Playlist| x.id;
    assert forall|x: Playlist, k: int| 0 <= k < rows_of(x).len() implies row_id(#[trigger] rows_of(x)[k]) == id_of(x) by {
    }
    assert(all_playlist_item_rows(items) == items.map_values(rows_of).flatten()) by {
        assert(items.map_values(rows_of) =~= items.map_values(|x: Playlist| playlist_item_rows(x)));
    }
    lemma_children_of_item(items, rows_of, id_of, i);
}

/// A table of children after deleting the rows whose parent is not in
/// `parents`.
pub open spec fn without_orphans(c: Seq<Seq<SqlValue>>, parents: Map<i64, Seq<SqlValue>>) -> Seq<Seq<SqlValue>>
    decreases c.len(),
{
    if c.len() == 0 {
        seq![]
    } else if parents.contains_key(row_id(c[0])) {
        seq![c[0]] + without_orphans(c.drop_first(), parents)
    } else {
        without_orphans(c.drop_first(), parents)
    }
}

/// After the orphans are deleted, a parent that is gone has no children,
/// and one that remains keeps all of its children.
pub proof fn lemma_orphans_dropped(c: Seq<Seq<SqlValue>>, parents: Map<i64, Seq<SqlValue>>, id: i64)
    ensures
        !parents.contains_key(id) ==> children(without_orphans(c, parents), id) == Seq::<Seq<SqlValue>>::empty(),
        parents.contains_key(id) ==> children(without_orphans(c, parents), id) == children(c, id),
    decreases c.len(),
{
    if c.len() > 0 {
        lemma_orphans_dropped(c.drop_first(), parents, id);
        if parents.contains_key(row_id(c[0])) {
            let w = seq![c[0]] + without_orphans(c.drop_first(), parents);
            assert(w[0] == c[0]);
            assert(w.drop_first() =~= without_orphans(c.drop_first(), parents));
        }
    }
}

proof fn lemma_upsert_as_union(m: Map<i64, Seq<SqlValue>>, rows: Seq<Seq<SqlValue>>)
    ensures
        upsert_rows(m, rows) == m.union_prefer_right(upsert_rows(Map::empty(), rows)),
    decreases rows.len(),
{
    if rows.len() == 0 {
        assert(m.union_prefer_right(Map::<i64, Seq<SqlValue>>::empty()) =~= m);
    } else {
        let k = row_id(rows[0]);
        let rest = rows.drop_first();
        let single = Map::<i64, Seq<SqlValue>>::empty().insert(k, rows[0]);
        lemma_upsert_as_union(m.insert(k, rows[0]), rest);
        lemma_upsert_as_union(single, rest);
        let e = upsert_rows(Map::empty(), rest);
        assert(m.insert(k, rows[0]).union_prefer_right(e) =~= m.union_prefer_right(single.union_prefer_right(e)));
    }
}

proof fn lemma_upsert_values(rows: Seq<Seq<SqlValue>>, id: i64)
    requires
        upsert_rows(Map::empty(), rows).contains_key(id),
    ensures
        exists|j: int| 0 <= j < rows.len() && rows[j] == upsert_rows(Map::empty(), rows)[id],
    decreases rows.len(),
{
    let rest = rows.drop_first();
    let single = Map::<i64, Seq<SqlValue>>::empty().insert(row_id(rows[0]), rows[0]);
    lemma_upsert_as_union(single, rest);
    let e = upsert_rows(Map::empty(), rest);
    if e.contains_key(id) {
        lemma_upsert_values(rest, id);
        let j = choose|j: int| 0 <= j < rest.len() && rest[j] == e[id];
        assert(rows[j + 1] == rest[j]);
    } else {
        assert(rows[0] == upsert_rows(Map::empty(), rows)[id]);
    }
}

/// Running the same bulk inserts a second time changes nothing.
pub proof fn lemma_upsert_twice(t: Map<i64, Seq<SqlValue>>, pieces: Seq<Seq<Seq<SqlValue>>>)
    ensures
        upsert_pieces(upsert_pieces(t, pieces), pieces) == upsert_pieces(t, pieces),
{
    let rows = pieces.flatten();
    lemma_upsert_pieces(t, pieces);
    lemma_upsert_pieces(upsert_pieces(t, pieces), pieces);
    lemma_upsert_as_union(t, rows);
    lemma_upsert_as_union(upsert_rows(t, rows), rows);
    let e = upsert_rows(Map::empty(), rows);
    assert(t.union_prefer_right(e).union_prefer_right(e) =~= t.union_prefer_right(e));
}

/// A sync: after the bulk inserts of `rows`, none of them loaded before
/// `started_at_ms`, a prune keeps the rows that were loaded since the start
/// and what the inserts wrote, and nothing else; so when every row of the
/// table is older than the start, the table then holds exactly what the
/// sync wrote.
pub proof fn lemma_sync_replaces(t: Map<i64, Seq<SqlValue>>, rows: Seq<Seq<SqlValue>>, started_at_ms: i64)
    requires
        forall|j: int| 0 <= j < rows.len() ==> !loaded_before(#[trigger] rows[j], started_at_ms),
    ensures
        prune_rows(upsert_rows(t, rows), started_at_ms)
            == prune_rows(t, started_at_ms).union_prefer_right(upsert_rows(Map::empty(), rows)),
        (forall|id: i64| t.contains_key(id) ==> loaded_before(#[trigger] t[id], started_at_ms))
            ==> prune_rows(upsert_rows(t, rows), started_at_ms) == upsert_rows(Map::empty(), rows),
{
    let e = upsert_rows(Map::empty(), rows);
    lemma_upsert_as_union(t, rows);
    assert forall|id: i64| e.contains_key(id) implies !loaded_before(#[trigger] e[id], started_at_ms) by {
        lemma_upsert_values(rows, id);
    }
    let u = t.union_prefer_right(e);
    assert(prune_rows(u, started_at_ms) =~= prune_rows(t, started_at_ms).union_prefer_right(e)) by {
        assert forall|id: i64| prune_rows(u, started_at_ms).contains_key(id)
            <==> prune_rows(t, started_at_ms).union_prefer_right(e).contains_key(id) by {
            lemma_prune_keeps(u, started_at_ms, id);
            lemma_prune_keeps(t, started_at_ms, id);
        }
    }
    if forall|id: i64| t.contains_key(id) ==> loaded_before(#[trigger] t[id], started_at_ms) {
        assert(prune_rows(t, started_at_ms).union_prefer_right(e) =~= e) by {
            assert forall|id: i64| !prune_rows(t, started_at_ms).contains_key(id) by {
                lemma_prune_keeps(t, started_at_ms, id);
            }
        }
    }
}

proof fn lemma_without_parents_concat(a: Seq<Seq<SqlValue>>, b: Seq<Seq<SqlValue>>, ids: Seq<i64>)
    ensures
        without_parents(a + b, ids) == without_parents(a, ids) + without_parents(b, ids),
    decreases a.len(),
{
    if a.len() == 0 {
        assert(a + b =~= b);
        assert(Seq::<Seq<SqlValue>>::empty() + without_parents(b, ids) =~= without_parents(b, ids));
    } else {
        assert((a + b)[0] == a[0]);
        assert((a + b).drop_first() =~= a.drop_first() + b);
        lemma_without_parents_concat(a.drop_first(), b, ids);
        if !ids.contains(row_id(a[0])) {
            assert(seq![a[0]] + (without_parents(a.drop_first(), ids) + without_parents(b, ids))
                =~= (seq![a[0]] + without_parents(a.drop_first(), ids)) + without_parents(b, ids));
        }
    }
}

proof fn lemma_without_parents_idempotent(t: Seq<Seq<SqlValue>>, ids: Seq<i64>)
    ensures
        without_parents(without_parents(t, ids), ids) == without_parents(t, ids),
    decreases t.len(),
{
    if t.len() > 0 {
        lemma_without_parents_idempotent(t.drop_first(), ids);
        if !ids.contains(row_id(t[0])) {
            let w = seq![t[0]] + without_parents(t.drop_first(), ids);
            assert(w[0] == t[0]);
            assert(w.drop_first() =~= without_parents(t.drop_first(), ids));
        }
    }
}

proof fn lemma_without_parents_uniform(s: Seq<Seq<SqlValue>>, x: i64, ids: Seq<i64>)
    requires
        ids.contains(x),
        forall|k: int| 0 <= k < s.len() ==> row_id(#[trigger] s[k]) == x,
    ensures
        without_parents(s, ids) == Seq::<Seq<SqlValue>>::empty(),
    decreases s.len(),
{
    if s.len() > 0 {
        assert forall|k: int| 0 <= k < s.drop_first().len() implies row_id(#[trigger] s.drop_first()[k]) == x by {
            assert(s.drop_first()[k] == s[k + 1]);
        }
        lemma_without_parents_uniform(s.drop_first(), x, ids);
        assert(row_id(s[0]) == x);
    }
}

/// The children written for `items` all belong to parents among `ids`, so
/// deleting the children of `ids` deletes every one of them.
proof fn lemma_item_rows_gone<T>(
    items: Seq<T>,
    rows_of: spec_fn(T) -> Seq<Seq<SqlValue>>,
    id_of: spec_fn(T) -> i64,
    ids: Seq<i64>,
)
    requires
        forall|j: int| 0 <= j < items.len() ==> ids.contains(id_of(#[trigger] items[j])),
        forall|x: T, k: int| 0 <= k < rows_of(x).len() ==> row_id(#[trigger] rows_of(x)[k]) == id_of(x),
    ensures
        without_parents(items.map_values(rows_of).flatten(), ids) == Seq::<Seq<SqlValue>>::empty(),
    decreases items.len(),
{
    if items.len() > 0 {
        let rest = items.drop_first();
        assert(items.map_values(rows_of).drop_first() =~= rest.map_values(rows_of));
        assert forall|j: int| 0 <= j < rest.len() implies ids.contains(id_of(#[trigger] rest[j])) by {
            assert(rest[j] == items[j + 1]);
        }
        lemma_item_rows_gone(rest, rows_of, id_of, ids);
        lemma_without_parents_concat(rows_of(items[0]), rest.map_values(rows_of).flatten(), ids);
        assert(ids.contains(id_of(items[0])));
        lemma_without_parents_uniform(rows_of(items[0]), id_of(items[0]), ids);
        assert(Seq::<Seq<SqlValue>>::empty() + Seq::<Seq<SqlValue>>::empty() =~= Seq::<Seq<SqlValue>>::empty());
    }
}

/// A table of children after the children of the parents `ids` are
/// deleted, five hundred ids to a statement, and `rows` are inserted, fifty
/// to a statement.
pub open spec fn children_rewritten(c: Seq<Seq<SqlValue>>, ids: Seq<i64>, rows: Seq<Seq<SqlValue>>) -> Seq<Seq<SqlValue>> {
    delete_pieces(c, chunks(ids, DELETE_CHUNK as nat)) + chunks(rows, INSERT_CHUNK as nat).flatten()
}

proof fn lemma_children_rewritten_twice(c: Seq<Seq<SqlValue>>, ids: Seq<i64>, rows: Seq<Seq<SqlValue>>)
    requires
        without_parents(rows, ids) == Seq::<Seq<SqlValue>>::empty(),
    ensures
        children_rewritten(children_rewritten(c, ids, rows), ids, rows) == children_rewritten(c, ids, rows),
{
    lemma_chunks_flatten(ids, DELETE_CHUNK as nat);
    lemma_chunks_flatten(rows, INSERT_CHUNK as nat);
    let w = without_parents(c, ids);
    lemma_delete_pieces(c, chunks(ids, DELETE_CHUNK as nat));
    assert(children_rewritten(c, ids, rows) == w + rows);
    lemma_delete_pieces(w + rows, chunks(ids, DELETE_CHUNK as nat));
    lemma_without_parents_concat(w, rows, ids);
    lemma_without_parents_idempotent(c, ids);
    assert(w + Seq::<Seq<SqlValue>>::empty() =~= w);
}

/// The playlists table and the table of their items after a write of
/// `items` stamped `loaded_at_ms`.
pub open spec fn playlists_written(
    t: Map<i64, Seq<SqlValue>>,
    c: Seq<Seq<SqlValue>>,
    items: Seq<Playlist>,
    loaded_at_ms: i64,
) -> (Map<i64, Seq<SqlValue>>, Seq<Seq<SqlValue>>) {
    (
        upsert_pieces(t, chunks(playlist_rows(items, loaded_at_ms), INSERT_CHUNK as nat)),
        children_rewritten(c, items.map_values(|x: Playlist| x.id), all_playlist_item_rows(items)),
    )
}

/// Writing the same playlists a second time, with the same stamp, changes
/// nothing: no playlist item is stored twice and every position stays.
pub proof fn lemma_playlist_write_idempotent(
    t: Map<i64, Seq<SqlValue>>,
    c: Seq<Seq<SqlValue>>,
    items: Seq<Playlist>,
    loaded_at_ms: i64,
)
    ensures
        playlists_written(
            playlists_written(t, c, items, loaded_at_ms).0,
            playlists_written(t, c, items, loaded_at_ms).1,
            items,
            loaded_at_ms,
        ) == playlists_written(t, c, items, loaded_at_ms),
{
    lemma_upsert_twice(t, chunks(playlist_rows(items, loaded_at_ms), INSERT_CHUNK as nat));
    let ids = items.map_values(|x: Playlist| x.id);
    let rows_of = |x: Playlist| playlist_item_rows(x);
    let id_of = |x: Playlist| x.id;
    assert forall|j: int| 0 <= j < items.len() implies ids.contains(id_of(#[trigger] items[j])) by {
        assert(ids[j] == id_of(items[j]));
    }
    assert forall|x: Playlist, k: int| 0 <= k < rows_of(x).len() implies row_id(#[trigger] rows_of(x)[k]) == id_of(x) by {
    }
    assert(all_playlist_item_rows(items) == items.map_values(rows_of).flatten()) by {
        assert(items.map_values(rows_of) =~= items.map_values(|x: Playlist| playlist_item_rows(x)));
    }
    lemma_item_rows_gone(items, rows_of, id_of, ids);
    lemma_children_rewritten_twice(c, ids, all_playlist_item_rows(items));
}


/// The albums table and the tables of their artists and labels after a write of
/// `items` stamped `loaded_at_ms`.
pub open spec fn albums_written(
    t: Map<i64, Seq<SqlValue>>,
    artists: Seq<Seq<SqlValue>>,
    labels: Seq<Seq<SqlValue>>,
    items: Seq<Album>,
    loaded_at_ms: i64,
) -> (Map<i64, Seq<SqlValue>>, Seq<Seq<SqlValue>>, Seq<Seq<SqlValue>>) {
    (
        upsert_pieces(t, chunks(album_rows(items, loaded_at_ms), INSERT_CHUNK as nat)),
        children_rewritten(artists, items.map_values(|x: Album| x.id), all_album_artist_rows(items)),
        children_rewritten(labels, items.map_values(|x: Album| x.id), all_album_label_rows(items)),
    )
}

/// Writing the same albums a second time, with the same stamp, changes
/// nothing: none of their artists and labels is stored twice.
pub proof fn lemma_album_write_idempotent(
    t: Map<i64, Seq<SqlValue>>,
    artists: Seq<Seq<SqlValue>>,
    labels: Seq<Seq<SqlValue>>,
    items: Seq<Album>,
    loaded_at_ms: i64,
)
    ensures
        albums_written(
            albums_written(t, artists, labels, items, loaded_at_ms).0,
            albums_written(t, artists, labels, items, loaded_at_ms).1,
            albums_written(t, artists, labels, items, loaded_at_ms).2,
            items,
            loaded_at_ms,
        ) == albums_written(t, artists, labels, items, loaded_at_ms),
{
    lemma_upsert_twice(t, chunks(album_rows(items, loaded_at_ms), INSERT_CHUNK as nat));
    let ids = items.map_values(|x: Album| x.id);
    let id_of = |x: Album| x.id;
    assert forall|j: int| 0 <= j < items.len() implies ids.contains(id_of(#[trigger] items[j])) by {
        assert(ids[j] == id_of(items[j]));
    }
    let rows_of = |x: Album| album_artist_rows(x);
    assert forall|x: Album, k: int| 0 <= k < rows_of(x).len() implies row_id(#[trigger] rows_of(x)[k]) == id_of(x) by {
    }
    assert(all_album_artist_rows(items) == items.map_values(rows_of).flatten()) by {
        assert(items.map_values(rows_of) =~= items.map_values(|x: Album| album_artist_rows(x)));
    }
    lemma_item_rows_gone(items, rows_of, id_of, ids);
    lemma_children_rewritten_twice(artists, ids, all_album_artist_rows(items));
    let rows_of = |x: Album| album_label_rows(x);
    assert forall|x: Album, k: int| 0 <= k < rows_of(x).len() implies row_id(#[trigger] rows_of(x)[k]) == id_of(x) by {
    }
    assert(all_album_label_rows(items) == items.map_values(rows_of).flatten()) by {
        assert(items.map_values(rows_of) =~= items.map_values(|x: Album| album_label_rows(x)));
    }
    lemma_item_rows_gone(items, rows_of, id_of, ids);
    lemma_children_rewritten_twice(labels, ids, all_album_label_rows(items));
}

/// The tracks table and the tables of their artists and genres after a write of
/// `items` stamped `loaded_at_ms`.
pub open spec fn tracks_written(
    t: Map<i64, Seq<SqlValue>>,
    artists: Seq<Seq<SqlValue>>,
    genres: Seq<Seq<SqlValue>>,
    items: Seq<Track>,
    loaded_at_ms: i64,
) -> (Map<i64, Seq<SqlValue>>, Seq<Seq<SqlValue>>, Seq<Seq<SqlValue>>) {
    (
        upsert_pieces(t, chunks(track_rows(items, loaded_at_ms), INSERT_CHUNK as nat)),
        children_rewritten(artists, items.map_values(|x: Track| x.id), all_track_artist_rows(items)),
        children_rewritten(genres, items.map_values(|x: Track| x.id), all_track_genre_rows(items)),
    )
}

/// Writing the same tracks a second time, with the same stamp, changes
/// nothing: none of their artists and genres is stored twice.
pub proof fn lemma_track_write_idempotent(
    t: Map<i64, Seq<SqlValue>>,
    artists: Seq<Seq<SqlValue>>,
    genres: Seq<Seq<SqlValue>>,
    items: Seq<Track>,
    loaded_at_ms: i64,
)
    ensures
        tracks_written(
            tracks_written(t, artists, genres, items, loaded_at_ms).0,
            tracks_written(t, artists, genres, items, loaded_at_ms).1,
            tracks_written(t, artists, genres, items, loaded_at_ms).2,
            items,
            loaded_at_ms,
        ) == tracks_written(t, artists, genres, items, loaded_at_ms),
{
    lemma_upsert_twice(t, chunks(track_rows(items, loaded_at_ms), INSERT_CHUNK as nat));
    let ids = items.map_values(|x: Track| x.id);
    let id_of = |x: Track| x.id;
    assert forall|j: int| 0 <= j < items.len() implies ids.contains(id_of(#[trigger] items[j])) by {
        assert(ids[j] == id_of(items[j]));
    }
    let rows_of = |x: Track| track_artist_rows(x);
    assert forall|x: Track, k: int| 0 <= k < rows_of(x).len() implies row_id(#[trigger] rows_of(x)[k]) == id_of(x) by {
    }
    assert(all_track_artist_rows(items) == items.map_values(rows_of).flatten()) by {
        assert(items.map_values(rows_of) =~= items.map_values(|x: Track| track_artist_rows(x)));
    }
    lemma_item_rows_gone(items, rows_of, id_of, ids);
    lemma_children_rewritten_twice(artists, ids, all_track_artist_rows(items));
    let rows_of = |x: Track| track_genre_rows(x);
    assert forall|x: Track, k: int| 0 <= k < rows_of(x).len() implies row_id(#[trigger] rows_of(x)[k]) == id_of(x) by {
    }
    assert(all_track_genre_rows(items) == items.map_values(rows_of).flatten()) by {
        assert(items.map_values(rows_of) =~= items.map_values(|x: Track| track_genre_rows(x)));
    }
    lemma_item_rows_gone(items, rows_of, id_of, ids);
    lemma_children_rewritten_twice(genres, ids, all_track_genre_rows(items));
}

} // verus!
