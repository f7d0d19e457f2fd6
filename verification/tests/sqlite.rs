use accentor::api::{Playlist, PlaylistAccess, PlaylistType};
use accentor::db::sql::{SqlValue, Statement};
use accentor::db::statements::{prune, upsert_playlists};
use accentor::sync::Resource;
use sqlx::sqlite::{SqlitePool, SqlitePoolOptions};
use sqlx::AssertSqlSafe;

const PLAYLISTS: &str = "CREATE TABLE playlists (id INTEGER PRIMARY KEY, name TEXT NOT NULL, description TEXT, user_id INTEGER NOT NULL, access TEXT NOT NULL, playlist_type TEXT NOT NULL, created_at TEXT NOT NULL, updated_at TEXT NOT NULL, loaded_at INTEGER NOT NULL)";
const PLAYLIST_ITEMS: &str = "CREATE TABLE playlist_items (playlist_id INTEGER NOT NULL, position INTEGER NOT NULL, item_id INTEGER NOT NULL)";

fn block_on<F: std::future::Future>(f: F) -> F::Output {
    tokio::runtime::Builder::new_current_thread().enable_all().build().unwrap().block_on(f)
}

async fn memory_db() -> SqlitePool {
    let pool = SqlitePoolOptions::new().max_connections(1).connect("sqlite::memory:").await.unwrap();
    sqlx::query(PLAYLISTS).execute(&pool).await.unwrap();
    sqlx::query(PLAYLIST_ITEMS).execute(&pool).await.unwrap();
    pool
}

async fn run(pool: &SqlitePool, statements: Vec<Statement>) {
    for statement in statements {
        let mut query = sqlx::query(AssertSqlSafe(statement.sql));
        for value in statement.binds {
            query = match value {
                SqlValue::Null => query.bind(None::<i64>),
                SqlValue::Integer(i) => query.bind(i),
                SqlValue::Text(s) => query.bind(s),
                SqlValue::Name(n) => query.bind(n),
                SqlValue::Bool(b) => query.bind(b),
            };
        }
        query.execute(pool).await.unwrap();
    }
}

async fn playlists(pool: &SqlitePool) -> Vec<(i64, String, i64)> {
    sqlx::query_as::<_, (i64, String, i64)>("SELECT id, name, loaded_at FROM playlists ORDER BY id")
        .fetch_all(pool)
        .await
        .unwrap()
}

async fn items(pool: &SqlitePool) -> Vec<(i64, i64, i64)> {
    sqlx::query_as::<_, (i64, i64, i64)>("SELECT playlist_id, position, item_id FROM playlist_items ORDER BY rowid")
        .fetch_all(pool)
        .await
        .unwrap()
}

fn playlist(id: i64, name: &str, item_ids: Vec<i64>) -> Playlist {
    Playlist {
        id,
        name: name.into(),
        description: None,
        user_id: 1,
        access: PlaylistAccess::Personal,
        playlist_type: PlaylistType::Track,
        item_ids,
        created_at: "c".into(),
        updated_at: "u".into(),
    }
}

#[test]
fn writing_playlists_twice_changes_nothing() {
    block_on(async {
        let pool = memory_db().await;
        let write = vec![playlist(3, "a", vec![5, 6]), playlist(4, "b", vec![7])];
        run(&pool, upsert_playlists(&write, 10)).await;
        let once = (playlists(&pool).await, items(&pool).await);
        assert_eq!(once.0, vec![(3, "a".to_string(), 10), (4, "b".to_string(), 10)]);
        assert_eq!(once.1, vec![(3, 0, 5), (3, 1, 6), (4, 0, 7)]);
        run(&pool, upsert_playlists(&write, 10)).await;
        assert_eq!((playlists(&pool).await, items(&pool).await), once);
    });
}

#[test]
fn rewriting_a_playlist_replaces_its_items() {
    block_on(async {
        let pool = memory_db().await;
        run(&pool, upsert_playlists(&[playlist(3, "a", vec![5, 6]), playlist(4, "b", vec![7])], 10)).await;
        run(&pool, upsert_playlists(&[playlist(3, "a2", vec![9])], 11)).await;
        assert_eq!(playlists(&pool).await, vec![(3, "a2".to_string(), 11), (4, "b".to_string(), 10)]);
        assert_eq!(items(&pool).await, vec![(4, 0, 7), (3, 0, 9)]);
    });
}

#[test]
fn a_sync_leaves_what_it_wrote() {
    block_on(async {
        let pool = memory_db().await;
        run(&pool, upsert_playlists(&[playlist(1, "old", vec![1]), playlist(2, "old", vec![2])], 5)).await;
        let started_at_ms = 100;
        run(&pool, upsert_playlists(&[playlist(2, "new", vec![3, 4])], 100)).await;
        run(&pool, upsert_playlists(&[playlist(3, "new", vec![5])], 120)).await;
        run(&pool, prune(Resource::Playlists, started_at_ms)).await;
        assert_eq!(playlists(&pool).await, vec![(2, "new".to_string(), 100), (3, "new".to_string(), 120)]);
        assert_eq!(items(&pool).await, vec![(2, 0, 3), (2, 1, 4), (3, 0, 5)]);
    });
}
