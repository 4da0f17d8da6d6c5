use qgo::config::{Connection, DatabaseType};
use qgo::database::{
    extract_names, name_index, table_query, ColumnsPlan, ConnectOutcome, QueryResult, Session,
    TablesPlan,
};
use qgo::error::QgoError;

fn profile(kind: DatabaseType) -> Connection {
    Connection::new(
        String::from("test"),
        kind,
        String::from("localhost"),
        kind.default_port(),
        String::from("user"),
        String::from("pass"),
        String::from("db"),
    )
}

fn session(kind: DatabaseType) -> Session {
    Session::connect(profile(kind), ConnectOutcome::Ready).expect("ready outcome connects")
}

fn strings(items: &[&str]) -> Vec<String> {
    items.iter().map(|s| String::from(*s)).collect()
}

#[test]
fn ready_outcome_yields_a_session() {
    let s = session(DatabaseType::MySQL);
    assert_eq!(s.get_connection().name, "test");
}

#[test]
fn timed_out_outcome_is_connect_timeout() {
    let r = Session::connect(profile(DatabaseType::MySQL), ConnectOutcome::TimedOut);
    assert!(matches!(r, Err(QgoError::ConnectTimeout)));
}

#[test]
fn failed_outcome_carries_the_cause() {
    let r = Session::connect(
        profile(DatabaseType::PostgreSQL),
        ConnectOutcome::Failed(String::from("auth denied")),
    );
    match r {
        Err(QgoError::ConnectionFailed(cause)) => assert_eq!(cause, "auth denied"),
        _ => panic!("expected a connection failure"),
    }
}

#[test]
fn probe_outcomes_map_the_same_way() {
    assert!(Session::test_connection(ConnectOutcome::Ready).is_ok());
    assert!(matches!(
        Session::test_connection(ConnectOutcome::TimedOut),
        Err(QgoError::ConnectTimeout)
    ));
    assert!(matches!(
        Session::test_connection(ConnectOutcome::Failed(String::from("x"))),
        Err(QgoError::ConnectionFailed(_))
    ));
}

#[test]
fn fresh_session_fetches_tables_with_the_dialect_query() {
    let s = session(DatabaseType::MySQL);
    match s.list_tables_plan() {
        TablesPlan::Fetch(q) => assert_eq!(q, "SHOW TABLES"),
        TablesPlan::Cached(_) => panic!("empty cache must query the backend"),
    }
    let s = session(DatabaseType::PostgreSQL);
    match s.list_tables_plan() {
        TablesPlan::Fetch(q) => assert_eq!(
            q,
            "SELECT table_name FROM information_schema.tables WHERE table_schema = 'public'"
        ),
        TablesPlan::Cached(_) => panic!("empty cache must query the backend"),
    }
    let s = session(DatabaseType::SQLite);
    match s.list_tables_plan() {
        TablesPlan::Fetch(q) => {
            assert_eq!(q, "SELECT name FROM sqlite_master WHERE type='table'")
        }
        TablesPlan::Cached(_) => panic!("empty cache must query the backend"),
    }
}

#[test]
fn second_table_listing_is_cache_served_with_identical_names() {
    let mut s = session(DatabaseType::MySQL);
    assert!(matches!(s.list_tables_plan(), TablesPlan::Fetch(_)));
    s.store_tables(strings(&["users", "orders"]));
    match s.list_tables_plan() {
        TablesPlan::Cached(names) => assert_eq!(names, strings(&["users", "orders"])),
        TablesPlan::Fetch(_) => panic!("second listing must be cache-served"),
    }
    match s.list_tables_plan() {
        TablesPlan::Cached(names) => assert_eq!(names, strings(&["users", "orders"])),
        TablesPlan::Fetch(_) => panic!("second listing must be cache-served"),
    }
}

#[test]
fn invalidate_forces_a_fresh_fetch() {
    let mut s = session(DatabaseType::SQLite);
    s.store_tables(strings(&["accounts"]));
    s.store_columns("accounts", strings(&["id", "owner"]));
    assert!(matches!(s.list_tables_plan(), TablesPlan::Cached(_)));
    assert!(matches!(s.list_columns_plan("accounts"), ColumnsPlan::Cached(_)));
    s.invalidate_cache();
    assert!(matches!(s.list_tables_plan(), TablesPlan::Fetch(_)));
    assert!(matches!(s.list_columns_plan("accounts"), ColumnsPlan::Fetch(_, _)));
}

#[test]
fn column_plan_uses_the_dialect_query_and_index() {
    let s = session(DatabaseType::MySQL);
    match s.list_columns_plan("users") {
        ColumnsPlan::Fetch(q, idx) => {
            assert_eq!(q, "SHOW COLUMNS FROM `users`");
            assert_eq!(idx, 0);
        }
        ColumnsPlan::Cached(_) => panic!("empty cache must query the backend"),
    }
    let s = session(DatabaseType::PostgreSQL);
    match s.list_columns_plan("users") {
        ColumnsPlan::Fetch(q, idx) => {
            assert_eq!(
                q,
                "SELECT column_name FROM information_schema.columns WHERE table_name = 'users' AND table_schema = 'public'"
            );
            assert_eq!(idx, 0);
        }
        ColumnsPlan::Cached(_) => panic!("empty cache must query the backend"),
    }
    let s = session(DatabaseType::SQLite);
    match s.list_columns_plan("accounts") {
        ColumnsPlan::Fetch(q, idx) => {
            assert_eq!(q, "PRAGMA table_info(accounts)");
            assert_eq!(idx, 1);
        }
        ColumnsPlan::Cached(_) => panic!("empty cache must query the backend"),
    }
}

#[test]
fn stored_columns_are_cache_served_per_table() {
    let mut s = session(DatabaseType::MySQL);
    s.store_columns("users", strings(&["id", "email"]));
    match s.list_columns_plan("users") {
        ColumnsPlan::Cached(cols) => assert_eq!(cols, strings(&["id", "email"])),
        ColumnsPlan::Fetch(_, _) => panic!("cached table must not query the backend"),
    }
    assert!(matches!(s.list_columns_plan("orders"), ColumnsPlan::Fetch(_, _)));
}

#[test]
fn sqlite_pragma_row_yields_the_name_at_index_one() {
    // PRAGMA table_info rows are (cid, name, type, notnull, dflt_value, pk).
    let rows = vec![vec![
        Some(String::from("0")),
        Some(String::from("id")),
        Some(String::from("INTEGER")),
        Some(String::from("0")),
        None,
        Some(String::from("1")),
    ]];
    let names = extract_names(&rows, name_index(DatabaseType::SQLite));
    assert_eq!(names, strings(&["id"]));
}

#[test]
fn extract_names_keeps_row_order_and_skips_missing_cells() {
    let rows = vec![
        vec![Some(String::from("users"))],
        vec![None],
        vec![],
        vec![Some(String::from("orders"))],
    ];
    let names = extract_names(&rows, 0);
    assert_eq!(names, strings(&["users", "orders"]));
}

#[test]
fn table_query_matches_the_dialect() {
    assert_eq!(table_query(DatabaseType::MySQL), "SHOW TABLES");
    assert_eq!(name_index(DatabaseType::MySQL), 0);
    assert_eq!(name_index(DatabaseType::PostgreSQL), 0);
    assert_eq!(name_index(DatabaseType::SQLite), 1);
}

#[test]
fn select_one_normalizes_to_a_single_cell() {
    let result = QueryResult::from_raw(
        strings(&["1"]),
        vec![vec![Some(String::from("1"))]],
    );
    assert_eq!(result.columns, strings(&["1"]));
    assert_eq!(result.rows, vec![strings(&["1"])]);
    assert_eq!(result.row_count, 1);
}

#[test]
fn null_cells_become_the_null_literal() {
    let result = QueryResult::from_raw(
        strings(&["a", "b"]),
        vec![vec![Some(String::from("x")), None]],
    );
    assert_eq!(result.rows, vec![strings(&["x", "NULL"])]);
}

#[test]
fn short_rows_are_padded_to_the_column_count() {
    let result = QueryResult::from_raw(
        strings(&["a", "b", "c"]),
        vec![vec![Some(String::from("1"))], vec![]],
    );
    assert_eq!(result.rows.len(), 2);
    for row in &result.rows {
        assert_eq!(row.len(), result.columns.len());
    }
    assert_eq!(result.rows[0], strings(&["1", "NULL", "NULL"]));
    assert_eq!(result.rows[1], strings(&["NULL", "NULL", "NULL"]));
}

#[test]
fn zero_rows_give_the_empty_result() {
    let result = QueryResult::empty();
    assert!(result.columns.is_empty());
    assert!(result.rows.is_empty());
    assert_eq!(result.row_count, 0);
    assert!(result.is_empty());
}

#[test]
fn nonempty_result_is_not_empty() {
    let result = QueryResult::from_raw(strings(&["a"]), vec![vec![Some(String::from("1"))]]);
    assert!(!result.is_empty());
}
