//! Native values that travel as bind parameters.
use vstd::prelude::*;

verus! {

/// A native value bound to a placeholder.
pub enum SqlValue {
    Null,
    Bool(bool),
    SmallInt(i16),
    Integer(i32),
    BigInt(i64),
    Text(String),
    Binary(Vec<u8>),
}

/// The mathematical content of a [`SqlValue`].
pub enum ValueModel {
    Null,
    Bool(bool),
    SmallInt(i16),
    Integer(i32),
    BigInt(i64),
    Text(Seq<char>),
    Binary(Seq<u8>),
}

impl View for SqlValue {
    type V = ValueModel;

    open spec fn view(&self) -> ValueModel {
        match self {
            SqlValue::Null => ValueModel::Null,
            SqlValue::Bool(b) => ValueModel::Bool(*b),
            SqlValue::SmallInt(v) => ValueModel::SmallInt(*v),
            SqlValue::Integer(v) => ValueModel::Integer(*v),
            SqlValue::BigInt(v) => ValueModel::BigInt(*v),
            SqlValue::Text(s) => ValueModel::Text(s@),
            SqlValue::Binary(b) => ValueModel::Binary(b@),
        }
    }
}

/// A copy of a byte buffer.
pub fn copy_bytes(b: &Vec<u8>) -> (r: Vec<u8>)
    ensures
        r@ == b@,
{
    let mut r: Vec<u8> = Vec::new();
    let mut i: usize = 0;
    while i < b.len()
        invariant
            i <= b.len(),
            r@ == b@.take(i as int),
        decreases b.len() - i,
    {
        r.push(b[i]);
        i = i + 1;
        assert(r@ =~= b@.take(i as int));
    }
    assert(b@.take(i as int) =~= b@);
    r
}

impl SqlValue {
    /// A copy of this value.
    pub fn duplicate(&self) -> (r: SqlValue)
        ensures
            r@ == self@,
    {
        match self {
            SqlValue::Null => SqlValue::Null,
            SqlValue::Bool(b) => SqlValue::Bool(*b),
            SqlValue::SmallInt(v) => SqlValue::SmallInt(*v),
            SqlValue::Integer(v) => SqlValue::Integer(*v),
            SqlValue::BigInt(v) => SqlValue::BigInt(*v),
            SqlValue::Text(s) => SqlValue::Text(s.clone()),
            SqlValue::Binary(b) => SqlValue::Binary(copy_bytes(b)),
        }
    }

    pub fn is_null(&self) -> (r: bool)
        ensures
            r == (self@ == ValueModel::Null),
    {
        match self {
            SqlValue::Null => true,
            _ => false,
        }
    }
}

} // verus!
