use kali::column::ColumnExpr;
use kali::entity::Entity;
use kali::model::{Post, PostColumn, User, UserColumn, UserProfile};
use kali::value::Value;
use sqlx::Connection;
use sqlx::Row;

fn rt() -> tokio::runtime::Runtime {
    tokio::runtime::Builder::new_current_thread()
        .enable_all()
        .build()
        .unwrap()
}

async fn connect() -> sqlx::SqliteConnection {
    <sqlx::SqliteConnection as Connection>::connect("sqlite::memory:")
        .await
        .unwrap()
}

async fn setup_fixtures(conn: &mut sqlx::SqliteConnection) {
    sqlx::query("CREATE TABLE users (id INTEGER PRIMARY KEY AUTOINCREMENT, username TEXT NOT NULL)")
        .execute(&mut *conn)
        .await
        .unwrap();
    sqlx::query("CREATE TABLE user_profiles (user_id INTEGER PRIMARY KEY, bio TEXT NOT NULL)")
        .execute(&mut *conn)
        .await
        .unwrap();
    sqlx::query(
        "CREATE TABLE posts (id INTEGER PRIMARY KEY AUTOINCREMENT, content TEXT NOT NULL, user_id INTEGER NOT NULL, title TEXT NOT NULL)",
    )
    .execute(&mut *conn)
    .await
    .unwrap();
    let users = [
        (1i64, "holden"),
        (2, "amos"),
        (3, "alex"),
        (4, "bobbie"),
        (5, "chrisjen"),
        (6, "fred"),
        (7, "naomi"),
    ];
    for (id, name) in users {
        sqlx::query("INSERT INTO users (id, username) VALUES (?, ?)")
            .bind(id)
            .bind(name)
            .execute(&mut *conn)
            .await
            .unwrap();
    }
    sqlx::query("INSERT INTO user_profiles (user_id, bio) VALUES (?, ?)")
        .bind(1i64)
        .bind("can't park there bud")
        .execute(&mut *conn)
        .await
        .unwrap();
    let posts = [
        (1i64, "a first post", 1i64, "Hello"),
        (2, "another post", 2, "Second"),
        (3, "about the stars", 7, "Expanse"),
        (4, "about the belt", 7, "Ceres"),
        (5, "a classic by Asimov", 7, "Foundation"),
    ];
    for (id, content, user_id, title) in posts {
        sqlx::query("INSERT INTO posts (id, content, user_id, title) VALUES (?, ?, ?, ?)")
            .bind(id)
            .bind(content)
            .bind(user_id)
            .bind(title)
            .execute(&mut *conn)
            .await
            .unwrap();
    }
}

async fn fetch_rows(
    conn: &mut sqlx::SqliteConnection,
    sql: String,
    vals: Vec<Value>,
) -> Vec<sqlx::sqlite::SqliteRow> {
    let mut q = sqlx::query(sqlx::AssertSqlSafe(sql));
    for v in vals {
        q = match v {
            Value::Bool(b) => q.bind(b),
            Value::Text(s) => q.bind(s),
            Value::Integer(i) => q.bind(i),
            Value::Real(bits) => q.bind(f64::from_bits(bits)),
            Value::Blob(b) => q.bind(b),
            Value::Null => q.bind(None::<i64>),
        };
    }
    q.fetch_all(&mut *conn).await.unwrap()
}

async fn load_user(conn: &mut sqlx::SqliteConnection, id: i64) -> User {
    let (sql, vals) = User::query()
        .filter(UserColumn::Id.eq(Value::Integer(id)))
        .to_sql();
    let rows = fetch_rows(conn, sql, vals).await;
    assert_eq!(rows.len(), 1);
    User {
        id: rows[0].get(0),
        username: rows[0].get(1),
    }
}

fn row_to_post(row: &sqlx::sqlite::SqliteRow) -> Post {
    Post {
        id: row.get(0),
        content: row.get(1),
        user_id: row.get(2),
        title: row.get(3),
    }
}

#[test]
fn test_user_profile_relation() {
    rt().block_on(async {
        let mut conn = connect().await;
        setup_fixtures(&mut conn).await;
        let user = load_user(&mut conn, 1).await;
        assert_eq!(user.id, 1);
        assert_eq!(user.username, "holden");

        let (sql, vals) = user.profile().query().to_sql();
        let rows = fetch_rows(&mut conn, sql, vals).await;
        assert_eq!(rows.len(), 1);
        let profile = UserProfile {
            user_id: rows[0].get(0),
            bio: rows[0].get(1),
        };
        assert_eq!(profile.user_id, 1);
        assert_eq!(profile.bio, "can't park there bud");
    });
}

#[test]
fn test_profile_user_relation() {
    rt().block_on(async {
        let mut conn = connect().await;
        setup_fixtures(&mut conn).await;
        let (sql, vals) = UserProfile::query()
            .filter(kali::model::UserProfileColumn::UserId.eq(Value::Integer(1)))
            .to_sql();
        let rows = fetch_rows(&mut conn, sql, vals).await;
        let profile = UserProfile {
            user_id: rows[0].get(0),
            bio: rows[0].get(1),
        };
        assert_eq!(profile.user_id, 1);
        assert_eq!(profile.bio, "can't park there bud");

        let (sql, vals) = profile.user().query().to_sql();
        let rows = fetch_rows(&mut conn, sql, vals).await;
        assert_eq!(rows.len(), 1);
        assert_eq!(rows[0].get::<i64, _>(0), 1);
        assert_eq!(rows[0].get::<String, _>(1), "holden");
    });
}

#[test]
fn test_user_posts_collection() {
    rt().block_on(async {
        let mut conn = connect().await;
        setup_fixtures(&mut conn).await;
        let user = load_user(&mut conn, 7).await;
        assert_eq!(user.id, 7);
        assert_eq!(user.username, "naomi");

        let (sql, vals) = user.posts().query().to_sql();
        let rows = fetch_rows(&mut conn, sql, vals).await;
        assert_eq!(rows.len(), 3);

        let posts: Vec<Post> = rows.iter().map(row_to_post).collect();
        let post = posts.iter().find(|p| p.id == 5).unwrap();
        assert_eq!(post.title, "Foundation");
        assert!(post.content.contains("Asimov"));
    });
}

#[test]
fn test_post_user_relation() {
    rt().block_on(async {
        let mut conn = connect().await;
        setup_fixtures(&mut conn).await;
        let (sql, vals) = Post::query()
            .filter(PostColumn::Id.eq(Value::Integer(1)))
            .to_sql();
        let rows = fetch_rows(&mut conn, sql, vals).await;
        let post = row_to_post(&rows[0]);
        assert_eq!(post.id, 1);

        let (sql, vals) = post.user().query().to_sql();
        let rows = fetch_rows(&mut conn, sql, vals).await;
        assert_eq!(rows[0].get::<i64, _>(0), 1);
        assert_eq!(rows[0].get::<String, _>(1), "holden");
    });
}

#[test]
fn test_query_with_relation_filter() {
    rt().block_on(async {
        let mut conn = connect().await;
        setup_fixtures(&mut conn).await;
        let user = load_user(&mut conn, 7).await;

        let (sql, vals) = user
            .posts()
            .query()
            .filter(PostColumn::Title.eq(Value::text("Foundation")))
            .to_sql();
        let rows = fetch_rows(&mut conn, sql, vals).await;
        assert_eq!(rows.len(), 1);
        let post = row_to_post(&rows[0]);
        assert_eq!(post.id, 5);
        assert_eq!(post.title, "Foundation");
        assert!(post.content.contains("Asimov"));
    });
}

#[test]
fn relation_sides_agree_on_the_link() {
    rt().block_on(async {
        let mut conn = connect().await;
        setup_fixtures(&mut conn).await;
        let user = load_user(&mut conn, 7).await;

        let (sql, vals) = user.posts().query().to_sql();
        let rows = fetch_rows(&mut conn, sql, vals).await;
        let posts: Vec<Post> = rows.iter().map(row_to_post).collect();
        for post in posts {
            let (sql, vals) = post.user().query().to_sql();
            let rows = fetch_rows(&mut conn, sql, vals).await;
            assert_eq!(rows.len(), 1);
            assert_eq!(rows[0].get::<i64, _>(0), user.id);
        }
    });
}
