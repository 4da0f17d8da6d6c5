use qgo::error::QgoError;
use qgo::query_gate::QueryGate;

#[test]
fn select_is_allowed() {
    assert!(QueryGate::check("SELECT 1").is_ok());
    assert!(QueryGate::check("select * from users").is_ok());
}

#[test]
fn all_five_keywords_are_allowed_case_insensitively() {
    assert!(QueryGate::check("SELECT id FROM t").is_ok());
    assert!(QueryGate::check("ShOw tables").is_ok());
    assert!(QueryGate::check("DESCRIBE users").is_ok());
    assert!(QueryGate::check("explain select 1").is_ok());
    assert!(QueryGate::check("WITH cte AS (SELECT 1) SELECT * FROM cte").is_ok());
}

#[test]
fn leading_and_trailing_whitespace_is_ignored() {
    assert!(QueryGate::check("   SELECT 1   ").is_ok());
    assert!(QueryGate::check("\t\nselect 1\n").is_ok());
}

#[test]
fn empty_query_is_rejected() {
    assert!(matches!(QueryGate::check(""), Err(QgoError::EmptyQuery)));
}

#[test]
fn whitespace_only_query_is_rejected_as_empty() {
    assert!(matches!(QueryGate::check("   \t\n  "), Err(QgoError::EmptyQuery)));
}

#[test]
fn delete_is_rejected_without_backend_call() {
    assert!(matches!(
        QueryGate::check("DELETE FROM users"),
        Err(QgoError::WriteOrUnsafeQuery)
    ));
}

#[test]
fn other_write_statements_are_rejected() {
    assert!(matches!(
        QueryGate::check("INSERT INTO t VALUES (1)"),
        Err(QgoError::WriteOrUnsafeQuery)
    ));
    assert!(matches!(
        QueryGate::check("UPDATE t SET x = 1"),
        Err(QgoError::WriteOrUnsafeQuery)
    ));
    assert!(matches!(
        QueryGate::check("DROP TABLE t"),
        Err(QgoError::WriteOrUnsafeQuery)
    ));
    assert!(matches!(QueryGate::check(".tables"), Err(QgoError::WriteOrUnsafeQuery)));
}

#[test]
fn gate_is_a_prefix_check_not_a_parser() {
    // Anything textually beginning with an allowed keyword passes; invalid
    // SQL is left for the backend to reject.
    assert!(QueryGate::check("selectx").is_ok());
    assert!(QueryGate::check("showing off").is_ok());
}

#[test]
fn error_kind_labels() {
    assert_eq!(QgoError::EmptyQuery.kind_label(), "query cannot be empty");
    assert_eq!(
        QgoError::WriteOrUnsafeQuery.kind_label(),
        "only read-only queries are allowed"
    );
    assert_eq!(QgoError::ConnectTimeout.kind_label(), "connection timed out");
    assert_eq!(
        QgoError::ConnectionFailed(String::from("down")).kind_label(),
        "connection failed"
    );
    assert_eq!(
        QgoError::ExecutionFailed(String::from("syntax")).kind_label(),
        "query execution failed"
    );
    assert_eq!(
        QgoError::ProfileNotFound(String::from("prod")).kind_label(),
        "connection not found"
    );
}
