//! Per-backend serialization of the collected bind values: wire bytes for
//! the Postgres-like backend, typed native values for the embedded engine.
use crate::codec::{encode_signed, IsNull, ToSql};
use crate::sql_types::{BigInt, Binary, Bool, Integer, SmallInt, SqliteType, Text};
use crate::sqlite::{bind_fits, SqliteBindValue};
use crate::value::{copy_bytes, SqlValue, ValueModel};
use vstd::prelude::*;
use vstd::utf8::encode_utf8;

verus! {

/// The wire bytes of a value on the Postgres-like backend; `None` is NULL.
pub open spec fn pg_encode(v: ValueModel) -> Option<Seq<u8>> {
    match v {
        ValueModel::Null => None,
        ValueModel::Bool(b) => Some(
            if b {
                seq![1u8]
            } else {
                seq![0u8]
            },
        ),
        ValueModel::SmallInt(i) => Some(encode_signed(i as int, 2)),
        ValueModel::Integer(i) => Some(encode_signed(i as int, 4)),
        ValueModel::BigInt(i) => Some(encode_signed(i as int, 8)),
        ValueModel::Text(t) => Some(encode_utf8(t)),
        ValueModel::Binary(b) => Some(b),
    }
}

pub open spec fn bytes_option_view(b: Option<Vec<u8>>) -> Option<Seq<u8>> {
    match b {
        Some(v) => Some(v@),
        None => None,
    }
}

/// The wire bytes of one value.
pub fn pg_bind_bytes(value: &SqlValue) -> (r: Option<Vec<u8>>)
    ensures
        bytes_option_view(r) == pg_encode(value@),
{
    let mut out: Vec<u8> = Vec::new();
    let written = match value {
        SqlValue::Null => IsNull::Yes,
        SqlValue::Bool(b) => ToSql::<Bool>::to_sql(b, &mut out),
        SqlValue::SmallInt(i) => ToSql::<SmallInt>::to_sql(i, &mut out),
        SqlValue::Integer(i) => ToSql::<Integer>::to_sql(i, &mut out),
        SqlValue::BigInt(i) => ToSql::<BigInt>::to_sql(i, &mut out),
        SqlValue::Text(t) => ToSql::<Text>::to_sql(t, &mut out),
        SqlValue::Binary(b) => ToSql::<Binary>::to_sql(b, &mut out),
    };
    proof {
        assert(Seq::<u8>::empty() + pg_encode(value@).unwrap_or(Seq::empty()) =~= pg_encode(
            value@,
        ).unwrap_or(Seq::empty()));
    }
    match written {
        IsNull::Yes => None,
        IsNull::No => Some(out),
    }
}

/// The wire bytes of every collected value, in placeholder order.
pub fn collect_pg_binds(values: &Vec<SqlValue>) -> (r: Vec<Option<Vec<u8>>>)
    ensures
        r@.len() == values@.len(),
        forall|i: int|
            0 <= i < values@.len() ==> bytes_option_view(#[trigger] r@[i]) == pg_encode(
                values@[i]@,
            ),
{
    let mut r: Vec<Option<Vec<u8>>> = Vec::new();
    let mut i: usize = 0;
    while i < values.len()
        invariant
            i <= values@.len(),
            r@.len() == i,
            forall|j: int|
                0 <= j < i ==> bytes_option_view(#[trigger] r@[j]) == pg_encode(values@[j]@),
        decreases values@.len() - i,
    {
        r.push(pg_bind_bytes(&values[i]));
        i = i + 1;
    }
    r
}

/// The type of the placeholder a value is bound to on the embedded engine.
pub open spec fn sqlite_type_of(v: ValueModel) -> SqliteType {
    match v {
        ValueModel::Null => SqliteType::Text,
        ValueModel::Bool(_) => SqliteType::Integer,
        ValueModel::SmallInt(_) => SqliteType::Integer,
        ValueModel::Integer(_) => SqliteType::Integer,
        ValueModel::BigInt(_) => SqliteType::Long,
        ValueModel::Text(_) => SqliteType::Text,
        ValueModel::Binary(_) => SqliteType::Binary,
    }
}

/// The native value the embedded engine receives for `v`.
pub open spec fn sqlite_value_of(v: ValueModel, b: SqliteBindValue) -> bool {
    match (v, b) {
        (ValueModel::Null, SqliteBindValue::Null) => true,
        (ValueModel::Bool(x), SqliteBindValue::I32(y)) => y == if x {
            1i32
        } else {
            0i32
        },
        (ValueModel::SmallInt(x), SqliteBindValue::I32(y)) => y == x as i32,
        (ValueModel::Integer(x), SqliteBindValue::I32(y)) => y == x,
        (ValueModel::BigInt(x), SqliteBindValue::I64(y)) => y == x,
        (ValueModel::Text(t), SqliteBindValue::String(s)) => s@ == t,
        (ValueModel::Binary(x), SqliteBindValue::Binary(y)) => y@ == x,
        _ => false,
    }
}

/// The native value and placeholder type of one collected value.
pub fn sqlite_bind_value(value: &SqlValue) -> (r: (SqliteBindValue<'static>, SqliteType))
    ensures
        sqlite_value_of(value@, r.0),
        r.1 == sqlite_type_of(value@),
        bind_fits(r.1, r.0),
{
    match value {
        SqlValue::Null => (SqliteBindValue::Null, SqliteType::Text),
        SqlValue::Bool(b) => (SqliteBindValue::I32(if *b { 1 } else { 0 }), SqliteType::Integer),
        SqlValue::SmallInt(i) => (SqliteBindValue::I32(*i as i32), SqliteType::Integer),
        SqlValue::Integer(i) => (SqliteBindValue::I32(*i), SqliteType::Integer),
        SqlValue::BigInt(i) => (SqliteBindValue::I64(*i), SqliteType::Long),
        SqlValue::Text(t) => (SqliteBindValue::String(t.clone()), SqliteType::Text),
        SqlValue::Binary(b) => (SqliteBindValue::Binary(copy_bytes(b)), SqliteType::Binary),
    }
}

/// The native values of every collected value, in placeholder order; each
/// fits its placeholder's type, so the bind cycle never rejects one.
pub fn collect_sqlite_binds(values: &Vec<SqlValue>) -> (r: Vec<(SqliteBindValue<'static>, SqliteType)>)
    ensures
        r@.len() == values@.len(),
        forall|i: int|
            0 <= i < values@.len() ==> sqlite_value_of(values@[i]@, (#[trigger] r@[i]).0) && r@[i].1
                == sqlite_type_of(values@[i]@) && bind_fits(r@[i].1, r@[i].0),
{
    let mut r: Vec<(SqliteBindValue<'static>, SqliteType)> = Vec::new();
    let mut i: usize = 0;
    while i < values.len()
        invariant
            i <= values@.len(),
            r@.len() == i,
            forall|j: int|
                0 <= j < i ==> sqlite_value_of(values@[j]@, (#[trigger] r@[j]).0) && r@[j].1
                    == sqlite_type_of(values@[j]@) && bind_fits(r@[j].1, r@[j].0),
        decreases values@.len() - i,
    {
        r.push(sqlite_bind_value(&values[i]));
        i = i + 1;
    }
    r
}

} // verus!
