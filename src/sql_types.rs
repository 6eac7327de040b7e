//! Tags for logical SQL types, the numeric-operation capabilities between
//! them, and each backend's native descriptor for them.
use core::marker::PhantomData;
use vstd::prelude::*;

verus! {

pub struct Bool;

pub struct SmallInt;

pub struct Integer;

pub struct BigInt;

pub struct Text;

pub struct VarChar;

pub struct Binary;

pub struct Date;

pub struct Time;

pub struct Timestamp;

pub struct Money;

pub struct Oid;

pub struct Timestamptz;

pub struct Uuid;

pub struct Json;

pub struct Jsonb;

pub struct Interval;

/// The array of `ST`.
pub struct Array<ST> {
    _marker: PhantomData<ST>,
}

/// `ST` or SQL NULL.
pub struct Nullable<ST> {
    _marker: PhantomData<ST>,
}

/// `+` is defined on this type; its result has type `Output`.
pub trait AddOp {
    type Output;
}

/// `-` is defined on this type.
pub trait SubOp {
    type Output;
}

/// `*` is defined on this type.
pub trait MulOp {
    type Output;
}

/// `/` is defined on this type.
pub trait DivOp {
    type Output;
}

impl AddOp for SmallInt {
    type Output = SmallInt;
}

impl SubOp for SmallInt {
    type Output = SmallInt;
}

impl MulOp for SmallInt {
    type Output = SmallInt;
}

impl DivOp for SmallInt {
    type Output = SmallInt;
}

impl AddOp for Integer {
    type Output = Integer;
}

impl SubOp for Integer {
    type Output = Integer;
}

impl MulOp for Integer {
    type Output = Integer;
}

impl DivOp for Integer {
    type Output = Integer;
}

impl AddOp for BigInt {
    type Output = BigInt;
}

impl SubOp for BigInt {
    type Output = BigInt;
}

impl MulOp for BigInt {
    type Output = BigInt;
}

impl DivOp for BigInt {
    type Output = BigInt;
}

impl AddOp for Money {
    type Output = Money;
}

impl SubOp for Money {
    type Output = Money;
}

impl AddOp for Interval {
    type Output = Interval;
}

impl SubOp for Interval {
    type Output = Interval;
}

/// OID of a type and of the array of it, on the Postgres-like backend.
#[derive(PartialEq, Eq, Structural, Clone, Copy, Debug)]
pub struct PgTypeMetadata {
    pub oid: u32,
    pub array_oid: u32,
}

/// The Postgres-like backend has this type.
pub trait HasPgType {
    spec fn oids() -> (u32, u32);

    fn pg_metadata() -> (r: PgTypeMetadata)
        ensures
            r.oid == Self::oids().0,
            r.array_oid == Self::oids().1,
    ;
}

/// Column affinity of the embedded engine.
#[derive(PartialEq, Eq, Structural, Clone, Copy, Debug)]
pub enum SqliteType {
    Binary,
    Text,
    Float,
    Double,
    SmallInt,
    Integer,
    Long,
}

/// The embedded engine has this type.
pub trait HasSqliteType {
    spec fn affinity() -> SqliteType;

    fn sqlite_metadata() -> (r: SqliteType)
        ensures
            r == Self::affinity(),
    ;
}

impl HasPgType for Bool {
    open spec fn oids() -> (u32, u32) {
        (16, 1000)
    }

    fn pg_metadata() -> (r: PgTypeMetadata) {
        PgTypeMetadata { oid: 16, array_oid: 1000 }
    }
}

impl HasPgType for SmallInt {
    open spec fn oids() -> (u32, u32) {
        (21, 1005)
    }

    fn pg_metadata() -> (r: PgTypeMetadata) {
        PgTypeMetadata { oid: 21, array_oid: 1005 }
    }
}

impl HasPgType for Integer {
    open spec fn oids() -> (u32, u32) {
        (23, 1007)
    }

    fn pg_metadata() -> (r: PgTypeMetadata) {
        PgTypeMetadata { oid: 23, array_oid: 1007 }
    }
}

impl HasPgType for BigInt {
    open spec fn oids() -> (u32, u32) {
        (20, 1016)
    }

    fn pg_metadata() -> (r: PgTypeMetadata) {
        PgTypeMetadata { oid: 20, array_oid: 1016 }
    }
}

impl HasPgType for Oid {
    open spec fn oids() -> (u32, u32) {
        (26, 1018)
    }

    fn pg_metadata() -> (r: PgTypeMetadata) {
        PgTypeMetadata { oid: 26, array_oid: 1018 }
    }
}

impl HasPgType for VarChar {
    open spec fn oids() -> (u32, u32) {
        (1043, 1015)
    }

    fn pg_metadata() -> (r: PgTypeMetadata) {
        PgTypeMetadata { oid: 1043, array_oid: 1015 }
    }
}

impl HasPgType for Text {
    open spec fn oids() -> (u32, u32) {
        (25, 1009)
    }

    fn pg_metadata() -> (r: PgTypeMetadata) {
        PgTypeMetadata { oid: 25, array_oid: 1009 }
    }
}

impl HasPgType for Binary {
    open spec fn oids() -> (u32, u32) {
        (17, 1001)
    }

    fn pg_metadata() -> (r: PgTypeMetadata) {
        PgTypeMetadata { oid: 17, array_oid: 1001 }
    }
}

impl HasPgType for Money {
    open spec fn oids() -> (u32, u32) {
        (790, 791)
    }

    fn pg_metadata() -> (r: PgTypeMetadata) {
        PgTypeMetadata { oid: 790, array_oid: 791 }
    }
}

impl HasSqliteType for Bool {
    open spec fn affinity() -> SqliteType {
        SqliteType::Integer
    }

    fn sqlite_metadata() -> (r: SqliteType) {
        SqliteType::Integer
    }
}

impl HasSqliteType for SmallInt {
    open spec fn affinity() -> SqliteType {
        SqliteType::SmallInt
    }

    fn sqlite_metadata() -> (r: SqliteType) {
        SqliteType::SmallInt
    }
}

impl HasSqliteType for Integer {
    open spec fn affinity() -> SqliteType {
        SqliteType::Integer
    }

    fn sqlite_metadata() -> (r: SqliteType) {
        SqliteType::Integer
    }
}

impl HasSqliteType for BigInt {
    open spec fn affinity() -> SqliteType {
        SqliteType::Long
    }

    fn sqlite_metadata() -> (r: SqliteType) {
        SqliteType::Long
    }
}

impl HasSqliteType for Text {
    open spec fn affinity() -> SqliteType {
        SqliteType::Text
    }

    fn sqlite_metadata() -> (r: SqliteType) {
        SqliteType::Text
    }
}

impl HasSqliteType for VarChar {
    open spec fn affinity() -> SqliteType {
        SqliteType::Text
    }

    fn sqlite_metadata() -> (r: SqliteType) {
        SqliteType::Text
    }
}

impl HasSqliteType for Binary {
    open spec fn affinity() -> SqliteType {
        SqliteType::Binary
    }

    fn sqlite_metadata() -> (r: SqliteType) {
        SqliteType::Binary
    }
}

impl HasSqliteType for Date {
    open spec fn affinity() -> SqliteType {
        SqliteType::Text
    }

    fn sqlite_metadata() -> (r: SqliteType) {
        SqliteType::Text
    }
}

impl HasSqliteType for Time {
    open spec fn affinity() -> SqliteType {
        SqliteType::Text
    }

    fn sqlite_metadata() -> (r: SqliteType) {
        SqliteType::Text
    }
}

impl HasSqliteType for Timestamp {
    open spec fn affinity() -> SqliteType {
        SqliteType::Text
    }

    fn sqlite_metadata() -> (r: SqliteType) {
        SqliteType::Text
    }
}

} // verus!
