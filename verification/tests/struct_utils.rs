use kali::column::Column;
use kali::column::ColumnExpr;
use kali::entity::Entity;
use kali::model::{User, UserColumn, UserProfile, UserProfileColumn};
use kali::value::Value;
use sqlx::Connection;
use sqlx::Row;

fn rt() -> tokio::runtime::Runtime {
    tokio::runtime::Builder::new_current_thread()
        .enable_all()
        .build()
        .unwrap()
}

async fn connect() -> sqlx::SqliteConnection {
    <sqlx::SqliteConnection as Connection>::connect("sqlite::memory:")
        .await
        .unwrap()
}

async fn setup_fixtures(conn: &mut sqlx::SqliteConnection) {
    sqlx::query("CREATE TABLE users (id INTEGER PRIMARY KEY AUTOINCREMENT, username TEXT NOT NULL)")
        .execute(&mut *conn)
        .await
        .unwrap();
    sqlx::query("CREATE TABLE user_profiles (user_id INTEGER PRIMARY KEY, bio TEXT NOT NULL)")
        .execute(&mut *conn)
        .await
        .unwrap();
    sqlx::query("INSERT INTO users (id, username) VALUES (?, ?)")
        .bind(1i64)
        .bind("holden")
        .execute(&mut *conn)
        .await
        .unwrap();
    sqlx::query("INSERT INTO user_profiles (user_id, bio) VALUES (?, ?)")
        .bind(1i64)
        .bind("can't park there bud")
        .execute(&mut *conn)
        .await
        .unwrap();
}

async fn fetch_rows(
    conn: &mut sqlx::SqliteConnection,
    sql: String,
    vals: Vec<Value>,
) -> Vec<sqlx::sqlite::SqliteRow> {
    let mut q = sqlx::query(sqlx::AssertSqlSafe(sql));
    for v in vals {
        q = match v {
            Value::Bool(b) => q.bind(b),
            Value::Text(s) => q.bind(s),
            Value::Integer(i) => q.bind(i),
            Value::Real(bits) => q.bind(f64::from_bits(bits)),
            Value::Blob(b) => q.bind(b),
            Value::Null => q.bind(None::<i64>),
        };
    }
    q.fetch_all(&mut *conn).await.unwrap()
}

#[test]
fn fetch_user_by_id() {
    rt().block_on(async {
        let mut conn = connect().await;
        setup_fixtures(&mut conn).await;
        let (sql, vals) = User::query()
            .filter(User::primary_key().eq(Value::Integer(1)))
            .default_limit_one()
            .to_sql();
        let rows = fetch_rows(&mut conn, sql, vals).await;
        assert_eq!(rows.len(), 1);
        let user = User {
            id: rows[0].get(0),
            username: rows[0].get(1),
        };
        assert_eq!(user.id, 1);
        assert_eq!(user.username, "holden");
    });
}

#[test]
fn query_user_by_id() {
    rt().block_on(async {
        let mut conn = connect().await;
        setup_fixtures(&mut conn).await;
        let (sql, vals) = User::query()
            .filter(UserColumn::Id.eq(Value::Integer(1)))
            .to_sql();
        let rows = fetch_rows(&mut conn, sql, vals).await;
        assert_eq!(rows.len(), 1);
        let user = User {
            id: rows[0].get(0),
            username: rows[0].get(1),
        };
        assert_eq!(user.id, 1);
        assert_eq!(user.username, "holden");
    });
}

#[test]
fn fetch_non_standard_pk() {
    rt().block_on(async {
        let mut conn = connect().await;
        setup_fixtures(&mut conn).await;
        let (sql, vals) = UserProfile::query()
            .filter(UserProfile::primary_key().eq(Value::Integer(1)))
            .default_limit_one()
            .to_sql();
        assert!(sql.ends_with("LIMIT 1"));
        let rows = fetch_rows(&mut conn, sql, vals).await;
        assert_eq!(rows.len(), 1);
        let profile = UserProfile {
            user_id: rows[0].get(0),
            bio: rows[0].get(1),
        };
        assert_eq!(profile.user_id, 1);
        assert_eq!(profile.bio, "can't park there bud");
    });
}

#[test]
fn primary_key_value_returns_the_key_field() {
    let user = User {
        id: 9,
        username: "drummer".to_string(),
    };
    assert_eq!(user.primary_key_value(), 9);
    let profile = UserProfile {
        user_id: 3,
        bio: "hi".to_string(),
    };
    assert_eq!(profile.primary_key_value(), 3);
    assert_eq!(UserProfileColumn::UserId.to_col_name(), "user_id");
}
