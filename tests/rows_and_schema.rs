use diesel::diagnostic::{Diagnostic, Level};
use diesel::mysql::{MysqlFieldMetadata, StatementMetadata};
use diesel::row::{build_from_row, DbRow, PgNamedRow, PgResult, PgRow, Queryable, Row};
use diesel::sql_types::{Integer, Nullable, Text};
use diesel::schema::{
    capitalize, determine_column_type, remove_unsafe_foreign_keys_for_codegen, ColumnInformation,
    ForeignKeyConstraint, TableData,
};

fn result() -> PgResult {
    PgResult::new(
        vec![vec![Some(vec![1]), None, None, Some(vec![2, 3])]],
        vec![23, 25, 25, 17],
        vec!["id".to_string(), "a".to_string(), "b".to_string(), "data".to_string()],
    )
}

#[test]
fn row_takes_columns_in_order() {
    let res = result();
    let mut row = PgRow::new(&res, 0);
    let first = row.take().unwrap();
    assert_eq!(first.bytes, &[1u8][..]);
    assert_eq!(first.type_oid, 23);
    assert!(row.next_is_null(2));
    assert!(!row.next_is_null(3));
    assert!(row.take().is_none());
    assert!(row.take().is_none());
    assert_eq!(row.take().unwrap().bytes, &[2u8, 3][..]);
    assert!(row.take().is_none());
    assert!(row.next_is_null(5));
}

#[test]
fn named_row_resolves_names() {
    let res = result();
    let row = PgNamedRow::new(&res, 0);
    assert_eq!(row.index_of("data"), Some(3));
    assert_eq!(row.index_of("missing"), None);
    assert_eq!(row.get_raw_value(3).unwrap().type_oid, 17);
    assert!(row.get_raw_value(1).is_none());
    let mut raw = DbRow::new(&res, 0);
    assert_eq!(raw.take(), Some(&[1u8][..]));
    assert_eq!(raw.take(), None);
}

#[test]
fn column_types_come_from_catalog_names() {
    let t = determine_column_type(&ColumnInformation::new("array_col", "_varchar", false)).ok().unwrap();
    assert_eq!(t.path, vec!["diesel".to_string(), "types".to_string(), "Varchar".to_string()]);
    assert!(t.is_array);
    assert!(!t.is_nullable);
    let t = determine_column_type(&ColumnInformation::new("n", "numeric(10,2)", true)).ok().unwrap();
    assert_eq!(t.path[2], "Numeric");
    assert!(!t.is_array);
    assert!(t.is_nullable);
    assert!(determine_column_type(&ColumnInformation::new("x", "_", false)).is_err());
    assert_eq!(capitalize("int4"), "Int4");
}

fn fk(child: &str, parent: &str, pk: &str) -> ForeignKeyConstraint {
    ForeignKeyConstraint {
        child_table: TableData::new(child, "public"),
        parent_table: TableData::new(parent, "public"),
        foreign_key: format!("{}_id", parent),
        primary_key: pk.to_string(),
    }
}

#[test]
fn unsafe_foreign_keys_are_removed() {
    let keys = vec![
        fk("posts", "users", "id"),
        fk("comments", "posts", "id"),
        fk("posts", "comments", "id"),
        fk("users", "users", "id"),
        fk("likes", "users", "id"),
        fk("tags", "users", "id"),
    ];
    let safe = vec![
        TableData::new("users", "public"),
        TableData::new("posts", "public"),
        TableData::new("comments", "public"),
        TableData::new("tags", "public"),
    ];
    let pks = vec![
        vec!["id".to_string()],
        vec!["id".to_string()],
        vec!["id".to_string()],
        vec!["id".to_string()],
        vec!["id".to_string()],
        vec!["id".to_string(), "other".to_string()],
    ];
    let kept = remove_unsafe_foreign_keys_for_codegen(&keys, &safe, &pks);
    assert_eq!(kept.len(), 1);
    assert_eq!(kept[0].child_table.name, "posts");
    assert_eq!(kept[0].parent_table.name, "users");
}

#[test]
fn diagnostics_collect_help_lines() {
    let d = Diagnostic::error("bad".to_string()).help("try this").note("see that");
    assert_eq!(d.message(), "bad\ntry this\nsee that");
    assert_eq!(d.level(), Level::Error);
    assert_eq!(Diagnostic::warning("w".to_string()).level(), Level::Warning);
}

#[test]
fn mysql_metadata_exposes_fields() {
    let meta = StatementMetadata::new(vec![
        MysqlFieldMetadata::new(Some("id".to_string()), 3, 1),
        MysqlFieldMetadata::new(None, 253, 0),
    ]);
    assert_eq!(meta.fields().len(), 2);
    assert_eq!(meta.fields()[0].field_name(), Some("id"));
    assert_eq!(meta.fields()[1].field_name(), None);
    assert_eq!(meta.fields()[1].field_type(), 253);
    assert_eq!(meta.fields()[0].flags(), 1);
}

#[test]
fn rows_decode_column_by_column() {
    let res = PgResult::new(
        vec![vec![Some(vec![0, 0, 0, 42]), None, Some(b"Sean".to_vec())]],
        vec![23, 23, 25],
        vec!["id".to_string(), "n".to_string(), "name".to_string()],
    );
    let mut row = DbRow::new(&res, 0);
    let id: i32 = build_from_row::<Integer, i32>(&mut row).unwrap();
    let n: Option<i32> = build_from_row::<Nullable<Integer>, Option<i32>>(&mut row).unwrap();
    let name: String = build_from_row::<Text, String>(&mut row).unwrap();
    assert_eq!((id, n, name.as_str()), (42, None, "Sean"));
    assert!(build_from_row::<Integer, i32>(&mut row).is_err());
    assert_eq!(<i32 as Queryable<Integer>>::build(7), 7);
}
