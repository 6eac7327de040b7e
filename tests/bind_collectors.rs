use diesel::ast::collect_binds;
use diesel::bind_collector::{collect_pg_binds, collect_sqlite_binds};
use diesel::expression::{bind, NamedColumn};
use diesel::query_builder::SqliteQueryBuilder;
use diesel::sql_types::{BigInt, Binary, Bool, Integer, Nullable, SqliteType, Text};
use diesel::sqlite::{BoundStatement, NativeCall, SqliteBindValue};
use diesel::statement::{insert_into, Comma, Table, ValuesClause};
use diesel::value::SqlValue;

#[test]
fn pg_binds_are_wire_bytes() {
    let values = vec![
        SqlValue::Integer(1),
        SqlValue::Null,
        SqlValue::Text("hé".to_string()),
        SqlValue::Bool(true),
        SqlValue::BigInt(-1),
        SqlValue::SmallInt(258),
        SqlValue::Binary(vec![]),
    ];
    let binds = collect_pg_binds(&values);
    assert_eq!(
        binds,
        vec![
            Some(vec![0, 0, 0, 1]),
            None,
            Some("hé".as_bytes().to_vec()),
            Some(vec![1]),
            Some(vec![0xff; 8]),
            Some(vec![1, 2]),
            Some(vec![]),
        ]
    );
}

#[test]
fn walked_statement_binds_cleanly_on_the_embedded_engine() {
    let none: Option<i64> = None;
    let stmt = insert_into(Table::new("t")).values(ValuesClause::new(
        Comma(
            NamedColumn::<Integer>::new("a"),
            Comma(NamedColumn::<Text>::new("b"), Comma(NamedColumn::<Bool>::new("c"), NamedColumn::<Binary>::new("d"))),
        ),
        Comma(
            bind::<Integer, i32>(&3),
            Comma(
                bind::<Text, String>(&"x".to_string()),
                Comma(bind::<Bool, bool>(&false), bind::<Nullable<BigInt>, Option<i64>>(&none)),
            ),
        ),
    ));
    let values = collect_binds::<SqliteQueryBuilder, _>(&stmt);
    let binds = collect_sqlite_binds(&values);
    assert_eq!(binds.len(), 4);
    assert!(matches!(binds[0], (SqliteBindValue::I32(3), SqliteType::Integer)));
    assert!(matches!(&binds[1], (SqliteBindValue::String(s), SqliteType::Text) if s == "x"));
    assert!(matches!(binds[2], (SqliteBindValue::I32(0), SqliteType::Integer)));
    assert!(matches!(binds[3], (SqliteBindValue::Null, SqliteType::Text)));
    let mut cycle = BoundStatement::bind(binds);
    let mut indices = vec![];
    loop {
        match cycle.next_call() {
            NativeCall::Bind { index, .. } => {
                indices.push(index);
                cycle.record_bind(true);
            }
            NativeCall::Idle => break,
            other => panic!("unexpected call {:?}", other),
        }
    }
    assert_eq!(indices, vec![1, 2, 3, 4]);
    assert!(!cycle.failed());
}
