use sqlx::migrate::MigrateDatabase;
use sqlx::query::Query;
use sqlx::sqlite::{SqliteArguments, SqlitePool, SqlitePoolOptions, SqliteRow};
use sqlx::{Row, Sqlite};
use user_service::handlers::{
    create_user, delete_user, get_user, list_users, Body, Response, StoreError,
};
use user_service::repository::{Param, Statement, UserRepository};
use user_service::setup::{setup_database, SetupEvent, SetupStep, MAX_CONNECTIONS};
use user_service::user::User;

const SCHEMA: &str = "CREATE TABLE IF NOT EXISTS users (\
    id INTEGER PRIMARY KEY AUTOINCREMENT, \
    username TEXT NOT NULL, \
    email TEXT NOT NULL)";

fn block_on<F: std::future::Future>(future: F) -> F::Output {
    actix_rt::Runtime::new().expect("runtime").block_on(future)
}

async fn empty_store() -> SqlitePool {
    let pool = SqlitePoolOptions::new()
        .max_connections(1)
        .connect("sqlite::memory:")
        .await
        .expect("in-memory store");
    sqlx::query(SCHEMA).execute(&pool).await.expect("schema");
    pool
}

fn bound<'q>(statement: &Statement<'q>) -> Query<'q, Sqlite, SqliteArguments<'q>> {
    let mut query = sqlx::query(statement.sql);
    for param in statement.params.iter().copied() {
        query = match param {
            Param::Int(value) => query.bind(value),
            Param::Text(value) => query.bind(value),
        };
    }
    query
}

fn user_of(row: SqliteRow) -> User {
    User::from_row(row.get("id"), row.get("username"), row.get("email"))
}

fn store_error(error: sqlx::Error) -> StoreError {
    StoreError { detail: error.to_string() }
}

async fn list(pool: &SqlitePool) -> Result<Vec<User>, StoreError> {
    let statement = UserRepository::list_users();
    let rows = bound(&statement).fetch_all(pool).await.map_err(store_error)?;
    Ok(rows.into_iter().map(user_of).collect())
}

async fn create(pool: &SqlitePool, username: &str, email: &str) -> Result<User, StoreError> {
    let statement = UserRepository::create_user(username, email);
    let row = bound(&statement).fetch_one(pool).await.map_err(store_error)?;
    Ok(user_of(row))
}

async fn get(pool: &SqlitePool, id: i64) -> Result<Option<User>, StoreError> {
    let statement = UserRepository::get_user_by_id(id);
    let row = bound(&statement).fetch_optional(pool).await.map_err(store_error)?;
    Ok(row.map(user_of))
}

async fn delete(pool: &SqlitePool, id: i64) -> Result<Option<User>, StoreError> {
    let statement = UserRepository::delete_user(id);
    let row = bound(&statement).fetch_optional(pool).await.map_err(store_error)?;
    Ok(row.map(user_of))
}

async fn bring_up(url: &str) -> (SetupStep, Vec<SetupStep>, Option<SqlitePool>) {
    let mut step = SetupStep::CheckExists;
    let mut taken = Vec::new();
    let mut pool: Option<SqlitePool> = None;
    while step != SetupStep::Ready && step != SetupStep::Failed {
        taken.push(step);
        let event = match step {
            SetupStep::CheckExists => match Sqlite::database_exists(url).await {
                Ok(true) => SetupEvent::Found,
                Ok(false) => SetupEvent::Missing,
                Err(_) => SetupEvent::Failed,
            },
            SetupStep::CreateDatabase => match Sqlite::create_database(url).await {
                Ok(()) => SetupEvent::Done,
                Err(_) => SetupEvent::Failed,
            },
            SetupStep::Connect => {
                match SqlitePoolOptions::new().max_connections(MAX_CONNECTIONS).connect(url).await {
                    Ok(opened) => {
                        pool = Some(opened);
                        SetupEvent::Done
                    }
                    Err(_) => SetupEvent::Failed,
                }
            }
            SetupStep::Migrate => {
                match sqlx::query(SCHEMA).execute(pool.as_ref().expect("pool")).await {
                    Ok(_) => SetupEvent::Done,
                    Err(_) => SetupEvent::Failed,
                }
            }
            SetupStep::Ready | SetupStep::Failed => unreachable!(),
        };
        step = setup_database(step, event);
    }
    (step, taken, pool)
}

#[test]
fn created_record_is_read_back_equal() {
    block_on(async {
        let pool = empty_store().await;
        for (username, email) in [("alice", "a@x.com"), ("", ""), ("  Bob ", "NOT AN EMAIL")] {
            let created = create(&pool, username, email).await.expect("create");
            assert!(created.id.is_some());
            assert_eq!(created.username, username);
            assert_eq!(created.email, email);
            let fetched = get(&pool, created.id.expect("id")).await.expect("get");
            assert_eq!(fetched, Some(created));
        }
    });
}

#[test]
fn id_never_created_is_not_found_and_no_failure() {
    block_on(async {
        let pool = empty_store().await;
        let created = create(&pool, "alice", "a@x.com").await.expect("create");
        let known = created.id.expect("id");
        for id in [known + 1, 0, -1, 999, i64::MAX, i64::MIN] {
            let outcome = get(&pool, id).await;
            assert_eq!(outcome, Ok(None));
            assert_eq!(get_user(outcome).status, 404);
        }
    });
}

#[test]
fn first_delete_yields_the_record_and_the_second_not_found() {
    block_on(async {
        let pool = empty_store().await;
        let created = create(&pool, "alice", "a@x.com").await.expect("create");
        let id = created.id.expect("id");
        assert_eq!(delete(&pool, id).await, Ok(Some(created)));
        assert_eq!(delete(&pool, id).await, Ok(None));
        assert_eq!(delete(&pool, id).await, Ok(None));
        assert_eq!(get(&pool, id).await, Ok(None));
        assert_eq!(list(&pool).await, Ok(Vec::new()));
    });
}

#[test]
fn list_holds_exactly_the_created_records() {
    block_on(async {
        let pool = empty_store().await;
        assert_eq!(list(&pool).await, Ok(Vec::new()));
        let a = create(&pool, "alice", "a@x.com").await.expect("create");
        let b = create(&pool, "bob", "b@x.com").await.expect("create");
        let c = create(&pool, "carol", "c@x.com").await.expect("create");
        let listed = list(&pool).await.expect("list");
        assert_eq!(listed.len(), 3);
        for user in [&a, &b, &c] {
            assert_eq!(listed.iter().filter(|other| *other == user).count(), 1);
        }
        let response = list_users(Ok(listed.clone()));
        assert_eq!(response, Response { status: 200, body: Body::Users(listed) });
    });
}

#[test]
fn identical_texts_are_stored_twice_under_distinct_ids() {
    block_on(async {
        let pool = empty_store().await;
        let first = create(&pool, "alice", "a@x.com").await.expect("first");
        let second = create(&pool, "alice", "a@x.com").await.expect("second");
        assert_ne!(first.id, second.id);
        assert_eq!(first.username, second.username);
        assert_eq!(first.email, second.email);
        assert_eq!(list(&pool).await.expect("list").len(), 2);
    });
}

#[test]
fn create_get_delete_get_round_trip() {
    block_on(async {
        let pool = empty_store().await;
        let alice = User::from_row(1, "alice".to_string(), "a@x.com".to_string());
        let same_body = Body::User(alice);

        let posted = create_user(create(&pool, "alice", "a@x.com").await);
        assert_eq!(posted, Response { status: 201, body: same_body.clone() });

        let fetched = get_user(get(&pool, 1).await);
        assert_eq!(fetched, Response { status: 200, body: same_body.clone() });

        let deleted = delete_user(delete(&pool, 1).await);
        assert_eq!(deleted, Response { status: 200, body: same_body });

        let gone = get_user(get(&pool, 1).await);
        assert_eq!(gone, Response { status: 404, body: Body::Text("User not found".to_string()) });
    });
}

#[test]
fn get_on_empty_store_is_404() {
    block_on(async {
        let pool = empty_store().await;
        let response = get_user(get(&pool, 999).await);
        assert_eq!(response, Response { status: 404, body: Body::Text("User not found".to_string()) });
        let response = delete_user(delete(&pool, 999).await);
        assert_eq!(response.status, 404);
    });
}

#[test]
fn hostile_text_is_stored_verbatim_and_harms_nothing() {
    block_on(async {
        let pool = empty_store().await;
        let kept = create(&pool, "alice", "a@x.com").await.expect("create");
        let hostile = "x'); DROP TABLE users; -- ?";
        let stored = create(&pool, hostile, hostile).await.expect("hostile");
        assert_eq!(stored.username, hostile);
        assert_eq!(stored.email, hostile);
        assert_eq!(list(&pool).await, Ok(vec![kept, stored]));
    });
}

#[test]
fn store_failure_is_answered_with_500_and_a_fixed_text() {
    block_on(async {
        let pool = SqlitePoolOptions::new()
            .max_connections(1)
            .connect("sqlite::memory:")
            .await
            .expect("in-memory store");
        let listing = list(&pool).await;
        let detail = listing.clone().expect_err("no table").detail;
        assert!(detail.contains("users"));
        assert_eq!(
            list_users(listing),
            Response { status: 500, body: Body::Text("Error fetching users".to_string()) }
        );
        assert_eq!(create_user(create(&pool, "a", "b").await).status, 500);
        assert_eq!(get_user(get(&pool, 1).await).status, 500);
        assert_eq!(delete_user(delete(&pool, 1).await).status, 500);
    });
}

#[test]
fn records_outlive_a_restart() {
    block_on(async {
        let url = "sqlite:/tmp/user_service_records_outlive_a_restart.db";
        if Sqlite::database_exists(url).await.unwrap_or(false) {
            Sqlite::drop_database(url).await.expect("clean start");
        }

        let (end, taken, pool) = bring_up(url).await;
        assert_eq!(end, SetupStep::Ready);
        assert_eq!(
            taken,
            vec![
                SetupStep::CheckExists,
                SetupStep::CreateDatabase,
                SetupStep::Connect,
                SetupStep::Migrate
            ]
        );
        let pool = pool.expect("pool");
        let created = create(&pool, "alice", "a@x.com").await.expect("create");
        pool.close().await;

        let (end, taken, pool) = bring_up(url).await;
        assert_eq!(end, SetupStep::Ready);
        assert_eq!(taken, vec![SetupStep::CheckExists, SetupStep::Connect, SetupStep::Migrate]);
        let pool = pool.expect("pool");
        assert_eq!(get(&pool, created.id.expect("id")).await, Ok(Some(created.clone())));
        assert_eq!(list(&pool).await, Ok(vec![created]));
        pool.close().await;

        Sqlite::drop_database(url).await.expect("clean end");
    });
}

#[test]
fn start_fails_where_the_database_cannot_be_created() {
    block_on(async {
        let url = "sqlite:/nonexistent-directory-for-user-service/users.db";
        let (end, taken, pool) = bring_up(url).await;
        assert_eq!(end, SetupStep::Failed);
        assert_eq!(taken, vec![SetupStep::CheckExists, SetupStep::CreateDatabase]);
        assert!(pool.is_none());
    });
}
