use diesel::ast::{collect_binds, debug_sql, is_safe_to_cache_prepared, to_sql};
use diesel::expression::{bind, eq_any, sql, Add, Any, Equal, Grouped, Mul, NamedColumn, Sub};
use diesel::query_builder::{AsBindParam, MysqlQueryBuilder, PgQueryBuilder, QueryBuilder, SqliteQueryBuilder};
use diesel::sql_types::{Array, Bool, Integer, Text};
use diesel::statement::{
    delete, excluded, insert, insert_default_values, insert_into, replace_into, select, sql_query,
    update, Comma, OffsetDsl, Table, ValuesClause,
};
use diesel::value::SqlValue;

fn id() -> NamedColumn<Integer> {
    NamedColumn::new("id")
}

fn name() -> NamedColumn<Text> {
    NamedColumn::new("name")
}

#[test]
fn pg_identifiers_double_embedded_quotes() {
    let mut b = PgQueryBuilder::new();
    b.push_identifier("a\"b");
    assert_eq!(b.finish(), "\"a\"\"b\"");
}

#[test]
fn backtick_identifiers_double_embedded_backticks() {
    let mut b = MysqlQueryBuilder::new();
    b.push_identifier("a`b");
    assert_eq!(b.finish(), "`a``b`");
    let mut b = SqliteQueryBuilder::new();
    b.push_identifier("``");
    b.push_sql(" ");
    b.push_identifier("");
    assert_eq!(b.finish(), "`````` ``");
}

#[test]
fn pg_placeholders_are_numbered() {
    let mut b = PgQueryBuilder::new();
    for _ in 0..11 {
        b.push_bind_param();
        b.push_sql(",");
    }
    assert_eq!(b.finish(), "$1,$2,$3,$4,$5,$6,$7,$8,$9,$10,$11,");
    let mut b = SqliteQueryBuilder::new();
    b.push_bind_param();
    b.push_bind_param();
    assert_eq!(b.finish(), "??");
}

#[test]
fn placeholders_match_bind_values_through_nesting() {
    let expr = Add::new(
        Grouped(Mul::new(bind::<Integer, i32>(&2), id())),
        Grouped(Sub::new(bind::<Integer, i32>(&3), bind::<Integer, i32>(&4))),
    );
    assert_eq!(debug_sql::<PgQueryBuilder, _>(&expr), "($1 * \"id\") + ($2 - $3)");
    assert_eq!(debug_sql::<MysqlQueryBuilder, _>(&expr), "(? * `id`) + (? - ?)");
    let binds = collect_binds::<PgQueryBuilder, _>(&expr);
    assert_eq!(binds.len(), 3);
    let ints: Vec<i32> = binds
        .iter()
        .map(|v| match v {
            SqlValue::Integer(i) => *i,
            _ => panic!("expected an integer"),
        })
        .collect();
    assert_eq!(ints, vec![2, 3, 4]);
    assert!(is_safe_to_cache_prepared::<PgQueryBuilder, _>(&expr));
}

#[test]
fn to_sql_appends_and_continues_numbering() {
    let mut b = PgQueryBuilder::new();
    b.push_sql("SELECT ");
    b.push_bind_param();
    b.push_sql(", ");
    to_sql(&Equal::new(id(), bind::<Integer, i32>(&1)), &mut b);
    assert_eq!(b.finish(), "SELECT $1, \"id\" = $2");
}

#[test]
fn grouped_wraps_in_parentheses() {
    let inner = Equal::new(name(), bind::<Text, String>(&"x".to_string()));
    let plain = debug_sql::<SqliteQueryBuilder, _>(&inner);
    let grouped = debug_sql::<SqliteQueryBuilder, _>(&Grouped(inner));
    assert_eq!(grouped, format!("({})", plain));
    assert_eq!(grouped, "(`name` = ?)");
}

#[test]
fn sql_literal_is_verbatim_and_not_cacheable() {
    let lit = sql::<Bool>("1 = 1");
    assert_eq!(debug_sql::<PgQueryBuilder, _>(&lit), "1 = 1");
    assert!(!is_safe_to_cache_prepared::<PgQueryBuilder, _>(&lit));
    assert!(!is_safe_to_cache_prepared::<PgQueryBuilder, _>(&Grouped(lit)));
    let q = sql_query("SELECT 1".to_string());
    assert_eq!(debug_sql::<MysqlQueryBuilder, _>(&q), "SELECT 1");
    assert!(!is_safe_to_cache_prepared::<MysqlQueryBuilder, _>(&q));
}

#[test]
fn any_renders_around_its_array() {
    let ids: NamedColumn<Array<Integer>> = NamedColumn::new("ids");
    let cmp = Equal::new(id(), Any::<_, Integer>::new(ids));
    assert_eq!(debug_sql::<PgQueryBuilder, _>(&cmp), "\"id\" = ANY(\"ids\")");
    let all = diesel::expression::all::<Integer, _>(NamedColumn::<Array<Integer>>::new("xs"));
    assert_eq!(debug_sql::<PgQueryBuilder, _>(&all), "ALL(\"xs\")");
}

fn users_insert() -> diesel::statement::InsertStatement<
    Table,
    ValuesClause<Comma<NamedColumn<Integer>, NamedColumn<Text>>, Comma<diesel::expression::Bound<Integer>, diesel::expression::Bound<Text>>>,
    diesel::statement::Insert,
    diesel::statement::NoReturningClause,
> {
    insert_into(Table::new("users")).values(ValuesClause::new(
        Comma(id(), name()),
        Comma(bind::<Integer, i32>(&1), bind::<Text, String>(&"Sean".to_string())),
    ))
}

#[test]
fn insert_renders_columns_and_values() {
    assert_eq!(
        debug_sql::<PgQueryBuilder, _>(&users_insert()),
        "INSERT INTO \"users\" (\"id\", \"name\") VALUES ($1, $2)"
    );
    let stmt = replace_into(Table::new("users")).default_values();
    assert_eq!(debug_sql::<MysqlQueryBuilder, _>(&stmt), "REPLACE INTO `users` DEFAULT VALUES");
    let stmt = insert_default_values().into(Table::new("t"));
    assert_eq!(debug_sql::<SqliteQueryBuilder, _>(&stmt), "INSERT INTO `t` DEFAULT VALUES");
    let stmt = insert(ValuesClause::new(id(), bind::<Integer, i32>(&9))).into(Table::new("t"));
    assert_eq!(debug_sql::<SqliteQueryBuilder, _>(&stmt), "INSERT INTO `t` (`id`) VALUES (?)");
}

#[test]
fn on_conflict_do_nothing_with_target() {
    let stmt = users_insert().on_conflict(id()).do_nothing();
    assert_eq!(
        debug_sql::<PgQueryBuilder, _>(&stmt),
        "INSERT INTO \"users\" (\"id\", \"name\") VALUES ($1, $2) ON CONFLICT (\"id\") DO NOTHING"
    );
}

#[test]
fn on_conflict_do_nothing_without_target() {
    let stmt = users_insert().on_conflict_do_nothing();
    assert_eq!(
        debug_sql::<SqliteQueryBuilder, _>(&stmt),
        "INSERT INTO `users` (`id`, `name`) VALUES (?, ?) ON CONFLICT DO NOTHING"
    );
}

#[test]
fn on_conflict_do_update_sets_from_excluded() {
    let stmt = users_insert()
        .on_conflict(id())
        .do_update()
        .set(Equal::new(name(), excluded(name())));
    assert_eq!(
        debug_sql::<PgQueryBuilder, _>(&stmt),
        "INSERT INTO \"users\" (\"id\", \"name\") VALUES ($1, $2) ON CONFLICT (\"id\") DO UPDATE SET \"name\" = excluded.\"name\""
    );
    let binds = collect_binds::<PgQueryBuilder, _>(&stmt);
    assert_eq!(binds.len(), 2);
}

#[test]
fn returning_clause_follows_the_statement() {
    let stmt = users_insert().returning(id());
    assert_eq!(
        debug_sql::<PgQueryBuilder, _>(&stmt),
        "INSERT INTO \"users\" (\"id\", \"name\") VALUES ($1, $2) RETURNING \"id\""
    );
}

#[test]
fn update_and_delete_render_with_filters() {
    let stmt = update(Table::new("users"))
        .filter(Equal::new(id(), bind::<Integer, i32>(&7)))
        .set(Equal::new(name(), bind::<Text, String>(&"Tess".to_string())));
    assert_eq!(
        debug_sql::<PgQueryBuilder, _>(&stmt),
        "UPDATE \"users\" SET \"name\" = $1 WHERE \"id\" = $2"
    );
    let binds = collect_binds::<PgQueryBuilder, _>(&stmt);
    match (&binds[0], &binds[1]) {
        (SqlValue::Text(t), SqlValue::Integer(i)) => {
            assert_eq!(t, "Tess");
            assert_eq!(*i, 7);
        }
        _ => panic!("binds out of order"),
    }
    let stmt = delete(Table::new("users")).filter(Equal::new(id(), bind::<Integer, i32>(&1)));
    assert_eq!(debug_sql::<MysqlQueryBuilder, _>(&stmt), "DELETE FROM `users` WHERE `id` = ?");
    assert_eq!(debug_sql::<MysqlQueryBuilder, _>(&delete(Table::new("users"))), "DELETE FROM `users`");
}

#[test]
fn nullable_binds_collect_null() {
    let none: Option<i32> = None;
    let b = bind::<diesel::sql_types::Nullable<Integer>, Option<i32>>(&none);
    let binds = collect_binds::<SqliteQueryBuilder, _>(&b);
    assert!(binds[0].is_null());
}

#[test]
fn filtered_conflict_target_renders_where() {
    let active: NamedColumn<Bool> = NamedColumn::new("active");
    let stmt = users_insert().on_conflict(id()).filter_target(active).do_nothing();
    assert_eq!(
        debug_sql::<SqliteQueryBuilder, _>(&stmt),
        "INSERT INTO `users` (`id`, `name`) VALUES (?, ?) ON CONFLICT (`id`) WHERE `active` DO NOTHING"
    );
}

#[test]
fn select_with_from_filter_and_offset() {
    let q = select(id())
        .from(Table::new("users"))
        .filter(Equal::new(name(), bind::<Text, String>(&"Sean".to_string())))
        .offset(10);
    assert_eq!(
        debug_sql::<PgQueryBuilder, _>(&q),
        "SELECT \"id\" FROM \"users\" WHERE \"name\" = $1 OFFSET $2"
    );
    let binds = collect_binds::<PgQueryBuilder, _>(&q);
    assert!(matches!(binds[1], SqlValue::BigInt(10)));
    assert_eq!(diesel::statement::deprecated_debug_sql(&select(id())), "SELECT \"id\"");
}

#[test]
fn bind_params_for_insert_number_positionally() {
    let mut idx: usize = 1;
    let a = AsBindParam::<Integer>::as_bind_param_for_insert(&5i32, &mut idx);
    let none: Option<i32> = None;
    let b = AsBindParam::<diesel::sql_types::Nullable<Integer>>::as_bind_param_for_insert(&none, &mut idx);
    let c = AsBindParam::<Text>::as_bind_param_for_insert(&"x".to_string(), &mut idx);
    assert_eq!((a.as_str(), b.as_str(), c.as_str()), ("$1", "DEFAULT", "$2"));
    assert_eq!(idx, 3);
}

#[test]
fn in_list_binds_each_value_and_is_not_cacheable() {
    let q = eq_any(id(), &vec![1i32, 2, 3]);
    assert_eq!(debug_sql::<PgQueryBuilder, _>(&q), "\"id\" IN ($1, $2, $3)");
    assert_eq!(collect_binds::<PgQueryBuilder, _>(&q).len(), 3);
    assert!(!is_safe_to_cache_prepared::<PgQueryBuilder, _>(&q));
    let one = eq_any(id(), &vec![9i32]);
    assert_eq!(debug_sql::<MysqlQueryBuilder, _>(&one), "`id` IN (?)");
}
