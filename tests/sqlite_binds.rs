use diesel::result::{DatabaseErrorKind, Error};
use diesel::sql_types::SqliteType;
use diesel::sqlite::{
    ensure_sqlite_ok, last_error, BoundStatement, ColumnNames, NativeCall, Phase, SqliteBindValue,
    SQLITE_CONSTRAINT_FOREIGNKEY, SQLITE_CONSTRAINT_PRIMARYKEY, SQLITE_CONSTRAINT_UNIQUE,
    SQLITE_DONE, SQLITE_ROW,
};

#[derive(Debug, PartialEq)]
enum Recorded {
    Bind(i32, String),
    Null(i32),
    Reset,
}

/// Drives the bind cycle against a stub engine that fails the bind of
/// `fail_at` and records every call.
fn drive(stmt: &mut BoundStatement, fail_at: Option<i32>, calls: &mut Vec<Recorded>) {
    loop {
        match stmt.next_call() {
            NativeCall::Bind { index, position } => {
                let shown = match stmt.value(position) {
                    SqliteBindValue::BorrowedString(s) => s.to_string(),
                    SqliteBindValue::String(s) => s.clone(),
                    SqliteBindValue::I32(i) => i.to_string(),
                    SqliteBindValue::I64(i) => i.to_string(),
                    SqliteBindValue::Null => "NULL".to_string(),
                    _ => "bytes".to_string(),
                };
                calls.push(Recorded::Bind(index, shown));
                stmt.record_bind(Some(index) != fail_at);
            }
            NativeCall::Reject { .. } => stmt.record_bind(false),
            NativeCall::Reset => {
                calls.push(Recorded::Reset);
                stmt.record_unbind();
            }
            NativeCall::BindNull { index } => {
                calls.push(Recorded::Null(index));
                stmt.record_unbind();
            }
            NativeCall::Idle => return,
        }
    }
}

#[test]
fn failed_bind_rebinds_earlier_indices_to_null() {
    let text = String::from("borrowed");
    let binds = vec![
        (SqliteBindValue::BorrowedString(text.as_str()), SqliteType::Text),
        (SqliteBindValue::I32(5), SqliteType::Integer),
        (SqliteBindValue::String("owned".to_string()), SqliteType::Text),
    ];
    let mut stmt = BoundStatement::bind(binds);
    let mut calls = vec![];
    drive(&mut stmt, Some(3), &mut calls);
    assert_eq!(
        calls,
        vec![
            Recorded::Bind(1, "borrowed".to_string()),
            Recorded::Bind(2, "5".to_string()),
            Recorded::Bind(3, "owned".to_string()),
            Recorded::Null(1),
            Recorded::Null(2),
        ]
    );
    assert!(stmt.failed());
    assert_eq!(stmt.phase(), Phase::Unbound);
    assert_eq!(stmt.release().len(), 3);
}

#[test]
fn type_mismatch_fails_without_a_native_call() {
    let binds = vec![
        (SqliteBindValue::BorrowedString("a"), SqliteType::Text),
        (SqliteBindValue::I64(1), SqliteType::Integer),
    ];
    let mut stmt = BoundStatement::bind(binds);
    let mut calls = vec![];
    drive(&mut stmt, None, &mut calls);
    assert_eq!(calls, vec![Recorded::Bind(1, "a".to_string()), Recorded::Null(1)]);
    assert!(stmt.failed());
}

#[test]
fn completed_statement_resets_then_unbinds_everything() {
    let bytes = vec![1u8, 2];
    let binds = vec![
        (SqliteBindValue::BorrowedBinary(&bytes), SqliteType::Binary),
        (SqliteBindValue::Null, SqliteType::Text),
        (SqliteBindValue::Binary(vec![3]), SqliteType::Binary),
    ];
    let mut stmt = BoundStatement::bind(binds);
    let mut calls = vec![];
    drive(&mut stmt, None, &mut calls);
    assert_eq!(stmt.phase(), Phase::Bound);
    assert_eq!(stmt.binds_to_free(), &vec![1, 3]);
    calls.clear();
    stmt.start_release();
    drive(&mut stmt, None, &mut calls);
    assert_eq!(calls, vec![Recorded::Reset, Recorded::Null(1), Recorded::Null(2), Recorded::Null(3)]);
    assert_eq!(stmt.phase(), Phase::Unbound);
}

#[test]
fn first_bind_failing_leaves_nothing_to_unbind() {
    let binds = vec![(SqliteBindValue::I32(1), SqliteType::Integer)];
    let mut stmt = BoundStatement::bind(binds);
    let mut calls = vec![];
    drive(&mut stmt, Some(1), &mut calls);
    assert_eq!(calls, vec![Recorded::Bind(1, "1".to_string())]);
    assert_eq!(stmt.phase(), Phase::Unbound);
}

#[test]
fn constraint_codes_are_classified() {
    let kind = |code: i32| match last_error(code, "m".to_string()) {
        Error::DatabaseError(k, m) => {
            assert_eq!(m, "m");
            k
        }
        _ => panic!("expected a database error"),
    };
    assert_eq!(kind(SQLITE_CONSTRAINT_UNIQUE), DatabaseErrorKind::UniqueViolation);
    assert_eq!(kind(SQLITE_CONSTRAINT_PRIMARYKEY), DatabaseErrorKind::UniqueViolation);
    assert_eq!(kind(SQLITE_CONSTRAINT_FOREIGNKEY), DatabaseErrorKind::ForeignKeyViolation);
    assert_eq!(kind(1299), DatabaseErrorKind::NotNullViolation);
    assert_eq!(kind(275), DatabaseErrorKind::CheckViolation);
    assert_eq!(kind(1), DatabaseErrorKind::Unknown);
    assert!(ensure_sqlite_ok(0, 0, String::new()).is_ok());
    assert!(ensure_sqlite_ok(19, 2067, "UNIQUE constraint failed".to_string()).is_err());
}

#[test]
fn column_names_are_dropped_on_each_step() {
    let mut names = ColumnNames::new();
    assert_eq!(names.step(SQLITE_ROW, 0, String::new()).ok(), Some(true));
    names.fill(vec!["id".to_string(), "name".to_string(), "id".to_string()]);
    assert_eq!(names.field_name(1), Some("name"));
    assert_eq!(names.field_name(3), None);
    assert_eq!(names.index_for_column_name("id"), Some(0));
    assert_eq!(names.index_for_column_name("other"), None);
    assert_eq!(names.step(SQLITE_ROW, 0, String::new()).ok(), Some(true));
    assert!(!names.is_cached());
    assert_eq!(names.field_name(0), None);
    assert_eq!(names.step(SQLITE_DONE, 0, String::new()).ok(), Some(false));
    assert!(names.step(1, 1, "boom".to_string()).is_err());
}

#[test]
fn owned_buffer_is_kept_alive_at_its_index() {
    let binds = vec![
        (SqliteBindValue::String("owned".to_string()), SqliteType::Text),
        (SqliteBindValue::I32(4), SqliteType::Integer),
    ];
    let mut stmt = BoundStatement::bind(binds);
    assert!(stmt.binds_to_free().is_empty());
    stmt.record_bind(true);
    assert_eq!(stmt.binds_to_free(), &vec![1]);
    stmt.record_bind(true);
    assert_eq!(stmt.binds_to_free(), &vec![1]);
    assert_eq!(stmt.phase(), Phase::Bound);
}
