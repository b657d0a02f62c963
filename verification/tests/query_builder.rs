use kali::builder::{OnConflict, QueryBuilder};
use kali::column::ColumnExpr;
use kali::model::UserColumn;
use kali::value::Value;
use sqlx::Connection;
use sqlx::Row;

fn rt() -> tokio::runtime::Runtime {
    tokio::runtime::Builder::new_current_thread()
        .enable_all()
        .build()
        .unwrap()
}

async fn connect() -> sqlx::SqliteConnection {
    <sqlx::SqliteConnection as Connection>::connect("sqlite::memory:")
        .await
        .unwrap()
}

async fn setup_users(conn: &mut sqlx::SqliteConnection) {
    sqlx::query("CREATE TABLE users (id INTEGER PRIMARY KEY AUTOINCREMENT, username TEXT NOT NULL)")
        .execute(&mut *conn)
        .await
        .unwrap();
    let seed = [
        (1i64, "holden"),
        (2, "amos"),
        (3, "alex"),
        (4, "bobbie"),
        (5, "chrisjen"),
        (6, "fred"),
        (7, "naomi"),
    ];
    for (id, name) in seed {
        sqlx::query("INSERT INTO users (id, username) VALUES (?, ?)")
            .bind(id)
            .bind(name)
            .execute(&mut *conn)
            .await
            .unwrap();
    }
}

async fn exec_sql(conn: &mut sqlx::SqliteConnection, sql: String, vals: Vec<Value>) -> u64 {
    let mut q = sqlx::query(sqlx::AssertSqlSafe(sql));
    for v in vals {
        q = match v {
            Value::Bool(b) => q.bind(b),
            Value::Text(s) => q.bind(s),
            Value::Integer(i) => q.bind(i),
            Value::Real(bits) => q.bind(f64::from_bits(bits)),
            Value::Blob(b) => q.bind(b),
            Value::Null => q.bind(None::<i64>),
        };
    }
    q.execute(&mut *conn).await.unwrap().rows_affected()
}

async fn fetch_rows(
    conn: &mut sqlx::SqliteConnection,
    sql: String,
    vals: Vec<Value>,
) -> Vec<sqlx::sqlite::SqliteRow> {
    let mut q = sqlx::query(sqlx::AssertSqlSafe(sql));
    for v in vals {
        q = match v {
            Value::Bool(b) => q.bind(b),
            Value::Text(s) => q.bind(s),
            Value::Integer(i) => q.bind(i),
            Value::Real(bits) => q.bind(f64::from_bits(bits)),
            Value::Blob(b) => q.bind(b),
            Value::Null => q.bind(None::<i64>),
        };
    }
    q.fetch_all(&mut *conn).await.unwrap()
}

async fn count_users(conn: &mut sqlx::SqliteConnection) -> i64 {
    let rows = sqlx::query("SELECT COUNT(*) FROM users")
        .fetch_all(&mut *conn)
        .await
        .unwrap();
    rows[0].get::<i64, _>(0)
}

#[test]
fn select_from() {
    rt().block_on(async {
        let mut conn = connect().await;
        setup_users(&mut conn).await;
        let (sql, vals) = QueryBuilder::select_from("users")
            .columns(vec![UserColumn::Id, UserColumn::Username])
            .filter(UserColumn::Id.eq(Value::from(1i64)))
            .to_sql();
        let rows = fetch_rows(&mut conn, sql, vals).await;
        assert_eq!(rows.len(), 1);
        assert_eq!(rows[0].get::<i64, _>(0), 1);
        assert_eq!(rows[0].get::<String, _>(1), "holden");
    });
}

#[test]
fn insert_into() {
    rt().block_on(async {
        let mut conn = connect().await;
        setup_users(&mut conn).await;
        let (sql, vals) = QueryBuilder::insert_into("users")
            .value(UserColumn::Username, Value::text("prax"))
            .to_sql();
        exec_sql(&mut conn, sql, vals).await;

        let (sql, vals) = QueryBuilder::select_from("users")
            .columns(vec![UserColumn::Id, UserColumn::Username])
            .filter(UserColumn::Username.eq(Value::text("prax")))
            .to_sql();
        let rows = fetch_rows(&mut conn, sql, vals).await;
        assert_eq!(rows.len(), 1);
        assert_eq!(rows[0].get::<i64, _>(0), 8);
        assert_eq!(rows[0].get::<String, _>(1), "prax");
    });
}

#[test]
fn update() {
    rt().block_on(async {
        let mut conn = connect().await;
        setup_users(&mut conn).await;
        let (sql, vals) = QueryBuilder::select_from("users")
            .columns(vec![UserColumn::Id, UserColumn::Username])
            .filter(UserColumn::Id.eq(Value::from(1i64)))
            .to_sql();
        let rows = fetch_rows(&mut conn, sql, vals).await;
        assert_eq!(rows[0].get::<i64, _>(0), 1);
        assert_eq!(rows[0].get::<String, _>(1), "holden");

        let (sql, vals) = QueryBuilder::update("users")
            .set(UserColumn::Username, Value::text("james"))
            .filter(UserColumn::Id.eq(Value::from(1i64)))
            .to_sql();
        exec_sql(&mut conn, sql, vals).await;

        let (sql, vals) = QueryBuilder::select_from("users")
            .columns(vec![UserColumn::Id, UserColumn::Username])
            .filter(UserColumn::Id.eq(Value::from(1i64)))
            .to_sql();
        let rows = fetch_rows(&mut conn, sql, vals).await;
        assert_eq!(rows[0].get::<i64, _>(0), 1);
        assert_eq!(rows[0].get::<String, _>(1), "james");
    });
}

#[test]
fn delete() {
    rt().block_on(async {
        let mut conn = connect().await;
        setup_users(&mut conn).await;
        let (sql, vals) = QueryBuilder::select_from("users")
            .columns(vec![UserColumn::Id, UserColumn::Username])
            .filter(UserColumn::Id.eq(Value::from(1i64)))
            .to_sql();
        let rows = fetch_rows(&mut conn, sql, vals).await;
        assert!(!rows.is_empty());

        let (sql, vals) = QueryBuilder::delete_from("users")
            .filter(UserColumn::Id.eq(Value::from(1i64)))
            .to_sql();
        exec_sql(&mut conn, sql, vals).await;

        let (sql, vals) = QueryBuilder::select_from("users")
            .columns(vec![UserColumn::Id, UserColumn::Username])
            .filter(UserColumn::Id.eq(Value::from(1i64)))
            .to_sql();
        let rows = fetch_rows(&mut conn, sql, vals).await;
        assert!(rows.is_empty());
    });
}

#[test]
fn returning() {
    rt().block_on(async {
        let mut conn = connect().await;
        setup_users(&mut conn).await;
        let (sql, vals) = QueryBuilder::insert_into("users")
            .value(UserColumn::Username, Value::text("prax"))
            .returning(vec![UserColumn::Id, UserColumn::Username])
            .to_sql();
        let rows = fetch_rows(&mut conn, sql, vals).await;
        assert_eq!(rows[0].get::<i64, _>(0), 8);
        assert_eq!(rows[0].get::<String, _>(1), "prax");
    });
}

#[test]
fn on_conflict() {
    rt().block_on(async {
        let mut conn = connect().await;
        setup_users(&mut conn).await;
        let (sql, vals) = QueryBuilder::insert_into("users")
            .value(UserColumn::Id, Value::from(1i64))
            .value(UserColumn::Username, Value::text("prax"))
            .on_conflict(UserColumn::Id, OnConflict::Update)
            .set(UserColumn::Username, Value::text("holden"))
            .returning(vec![UserColumn::Id, UserColumn::Username])
            .to_sql();
        let rows = fetch_rows(&mut conn, sql, vals).await;
        assert_eq!(rows[0].get::<i64, _>(0), 1);
        assert_eq!(rows[0].get::<String, _>(1), "holden");
    });
}

#[test]
fn on_conflict_update_against_existing_key_updates_without_duplicating() {
    rt().block_on(async {
        let mut conn = connect().await;
        setup_users(&mut conn).await;
        assert_eq!(count_users(&mut conn).await, 7);
        let (sql, vals) = QueryBuilder::insert_into("users")
            .value(UserColumn::Id, Value::from(1i64))
            .value(UserColumn::Username, Value::text("prax"))
            .on_conflict(UserColumn::Id, OnConflict::Update)
            .set(UserColumn::Username, Value::text("rewritten"))
            .to_sql();
        exec_sql(&mut conn, sql, vals).await;
        assert_eq!(count_users(&mut conn).await, 7);

        let (sql, vals) = QueryBuilder::select_from("users")
            .columns(vec![UserColumn::Username])
            .filter(UserColumn::Id.eq(Value::from(1i64)))
            .to_sql();
        let rows = fetch_rows(&mut conn, sql, vals).await;
        assert_eq!(rows[0].get::<String, _>(0), "rewritten");
    });
}

#[test]
fn on_conflict_update_against_fresh_key_inserts() {
    rt().block_on(async {
        let mut conn = connect().await;
        setup_users(&mut conn).await;
        let (sql, vals) = QueryBuilder::insert_into("users")
            .value(UserColumn::Id, Value::from(42i64))
            .value(UserColumn::Username, Value::text("drummer"))
            .on_conflict(UserColumn::Id, OnConflict::Update)
            .set(UserColumn::Username, Value::text("rewritten"))
            .to_sql();
        exec_sql(&mut conn, sql, vals).await;
        assert_eq!(count_users(&mut conn).await, 8);

        let (sql, vals) = QueryBuilder::select_from("users")
            .columns(vec![UserColumn::Username])
            .filter(UserColumn::Id.eq(Value::from(42i64)))
            .to_sql();
        let rows = fetch_rows(&mut conn, sql, vals).await;
        assert_eq!(rows[0].get::<String, _>(0), "drummer");
    });
}

#[test]
fn on_conflict_ignore_keeps_the_existing_row() {
    rt().block_on(async {
        let mut conn = connect().await;
        setup_users(&mut conn).await;
        let (sql, vals) = QueryBuilder::insert_into("users")
            .value(UserColumn::Id, Value::from(1i64))
            .value(UserColumn::Username, Value::text("prax"))
            .on_conflict(UserColumn::Id, OnConflict::Ignore)
            .to_sql();
        exec_sql(&mut conn, sql, vals).await;
        assert_eq!(count_users(&mut conn).await, 7);

        let (sql, vals) = QueryBuilder::select_from("users")
            .columns(vec![UserColumn::Username])
            .filter(UserColumn::Id.eq(Value::from(1i64)))
            .to_sql();
        let rows = fetch_rows(&mut conn, sql, vals).await;
        assert_eq!(rows[0].get::<String, _>(0), "holden");
    });
}
