//! Conversion of native values to the bytes bound to a statement and back
//! from the bytes of a fetched column.
use crate::result::DeserializeError;
use crate::value::ValueModel;
use crate::sql_types::{BigInt, Binary, Bool, Integer, Money, Nullable, SmallInt, Text};
use byteorder::{BigEndian, ReadBytesExt, WriteBytesExt};
use vstd::prelude::*;
use vstd::string::*;
use vstd::utf8::{decode_utf8, encode_utf8, valid_utf8};

verus! {

/// The unsigned value of `s`, big-endian.
pub open spec fn be_value(s: Seq<u8>) -> nat
    decreases s.len(),
{
    if s.len() == 0 {
        0
    } else {
        be_value(s.drop_last()) * 256 + s.last() as nat
    }
}

/// The `n` low bytes of `u`, big-endian.
pub open spec fn be_bytes(u: nat, n: nat) -> Seq<u8>
    decreases n,
{
    if n == 0 {
        seq![]
    } else {
        be_bytes(u / 256, (n - 1) as nat).push((u % 256) as u8)
    }
}

pub open spec fn pow256(n: nat) -> nat
    decreases n,
{
    if n == 0 {
        1
    } else {
        256 * pow256((n - 1) as nat)
    }
}

/// The two's-complement bits of `v` in `n` bytes, as an unsigned number.
pub open spec fn unsigned_of(v: int, n: nat) -> nat {
    if v < 0 {
        (v + pow256(n)) as nat
    } else {
        v as nat
    }
}

/// The signed number whose `n`-byte two's-complement bits are `u`.
pub open spec fn signed_of(u: nat, n: nat) -> int {
    if 2 * u >= pow256(n) {
        u - pow256(n)
    } else {
        u as int
    }
}

/// `v` as `n` big-endian two's-complement bytes.
pub open spec fn encode_signed(v: int, n: nat) -> Seq<u8> {
    be_bytes(unsigned_of(v, n), n)
}

/// The signed number in the first `n` bytes of `s`, big-endian.
pub open spec fn decode_signed(s: Seq<u8>, n: nat) -> int {
    signed_of(be_value(s.take(n as int)), n)
}

proof fn lemma_pow256_positive(n: nat)
    ensures
        pow256(n) >= 1,
    decreases n,
{
    if n > 0 {
        lemma_pow256_positive((n - 1) as nat);
    }
}

proof fn lemma_be_bytes_len(u: nat, n: nat)
    ensures
        be_bytes(u, n).len() == n,
    decreases n,
{
    if n > 0 {
        lemma_be_bytes_len(u / 256, (n - 1) as nat);
    }
}

proof fn lemma_be_value_of_bytes(u: nat, n: nat)
    ensures
        be_value(be_bytes(u, n)) == u % pow256(n),
    decreases n,
{
    if n == 0 {
        assert(u % 1 == 0) by (nonlinear_arith);
    } else {
        let m = (n - 1) as nat;
        lemma_be_value_of_bytes(u / 256, m);
        lemma_pow256_positive(m);
        let s = be_bytes(u, n);
        assert(s.drop_last() =~= be_bytes(u / 256, m));
        let p = pow256(m);
        let q = u / 256;
        let r = u % 256;
        vstd::arithmetic::div_mod::lemma_fundamental_div_mod(u as int, 256);
        vstd::arithmetic::div_mod::lemma_mod_pos_bound(u as int, 256);
        let q2 = q / p;
        let r2 = q % p;
        vstd::arithmetic::div_mod::lemma_fundamental_div_mod(q as int, p as int);
        vstd::arithmetic::div_mod::lemma_mod_pos_bound(q as int, p as int);
        assert(u == q2 * (256 * p) + (r2 * 256 + r)) by (nonlinear_arith)
            requires
                u == 256 * q + r,
                q == p * q2 + r2,
        ;
        assert(r2 * 256 + r < 256 * p) by (nonlinear_arith)
            requires
                r2 < p,
                r < 256,
        ;
        assert(be_value(s) == be_value(s.drop_last()) * 256 + r);
        assert(be_value(s.drop_last()) == r2);
        vstd::arithmetic::div_mod::lemma_fundamental_div_mod_converse(
            u as int,
            (256 * p) as int,
            q2 as int,
            (r2 * 256 + r) as int,
        );
    }
}

/// Decoding the encoding of a value that fits in `n` bytes gives it back.
pub proof fn lemma_signed_round_trip(v: int, n: nat)
    requires
        n >= 1,
        -pow256(n) <= 2 * v < pow256(n),
    ensures
        encode_signed(v, n).len() == n,
        decode_signed(encode_signed(v, n), n) == v,
{
    let u = unsigned_of(v, n);
    lemma_be_bytes_len(u, n);
    lemma_be_value_of_bytes(u, n);
    assert(encode_signed(v, n).take(n as int) =~= encode_signed(v, n));
    vstd::arithmetic::div_mod::lemma_small_mod(u, pow256(n));
}

pub proof fn lemma_pow256_values()
    ensures
        pow256(2) == 0x1_0000,
        pow256(4) == 0x1_0000_0000,
        pow256(8) == 0x1_0000_0000_0000_0000,
{
    reveal_with_fuel(pow256, 9);
}

/// Relies on byteorder's `ReadBytesExt::read_i16::<BigEndian>` on a byte
/// slice: the first two bytes, big-endian; an error when there are fewer.
#[verifier::external_body]
fn read_i16_be(bytes: &[u8]) -> (r: Option<i16>)
    ensures
        r is Some <==> bytes@.len() >= 2,
        r matches Some(v) ==> v as int == decode_signed(bytes@, 2),
{
    let mut reader = bytes;
    reader.read_i16::<BigEndian>().ok()
}

/// Relies on byteorder's `ReadBytesExt::read_i32::<BigEndian>` on a byte
/// slice: the first four bytes, big-endian; an error when there are fewer.
#[verifier::external_body]
fn read_i32_be(bytes: &[u8]) -> (r: Option<i32>)
    ensures
        r is Some <==> bytes@.len() >= 4,
        r matches Some(v) ==> v as int == decode_signed(bytes@, 4),
{
    let mut reader = bytes;
    reader.read_i32::<BigEndian>().ok()
}

/// Relies on byteorder's `ReadBytesExt::read_i64::<BigEndian>` on a byte
/// slice: the first eight bytes, big-endian; an error when there are fewer.
#[verifier::external_body]
fn read_i64_be(bytes: &[u8]) -> (r: Option<i64>)
    ensures
        r is Some <==> bytes@.len() >= 8,
        r matches Some(v) ==> v as int == decode_signed(bytes@, 8),
{
    let mut reader = bytes;
    reader.read_i64::<BigEndian>().ok()
}

/// Relies on byteorder's `WriteBytesExt::write_i16::<BigEndian>` on a
/// vector, which appends the two big-endian bytes (writing to a vector does
/// not fail).
#[verifier::external_body]
fn write_i16_be(out: &mut Vec<u8>, v: i16)
    ensures
        final(out)@ == old(out)@ + encode_signed(v as int, 2),
{
    let _ = out.write_i16::<BigEndian>(v);
}

/// Relies on byteorder's `WriteBytesExt::write_i32::<BigEndian>` on a
/// vector, which appends the four big-endian bytes.
#[verifier::external_body]
fn write_i32_be(out: &mut Vec<u8>, v: i32)
    ensures
        final(out)@ == old(out)@ + encode_signed(v as int, 4),
{
    let _ = out.write_i32::<BigEndian>(v);
}

/// Relies on byteorder's `WriteBytesExt::write_i64::<BigEndian>` on a
/// vector, which appends the eight big-endian bytes.
#[verifier::external_body]
fn write_i64_be(out: &mut Vec<u8>, v: i64)
    ensures
        final(out)@ == old(out)@ + encode_signed(v as int, 8),
{
    let _ = out.write_i64::<BigEndian>(v);
}

/// Relies on `core::str::from_utf8`: succeeds exactly on valid UTF-8, and
/// the text is the decoded bytes.
#[verifier::external_body]
fn str_from_utf8(bytes: &[u8]) -> (r: Option<&str>)
    ensures
        r is Some <==> valid_utf8(bytes@),
        r matches Some(s) ==> s@ == decode_utf8(bytes@),
{
    core::str::from_utf8(bytes).ok()
}

/// Whether a value was written or is SQL NULL.
#[derive(PartialEq, Eq, Structural, Clone, Copy, Debug)]
pub enum IsNull {
    Yes,
    No,
}

/// An amount of money in cents.
#[derive(PartialEq, Eq, Structural, Clone, Copy, Debug, PartialOrd, Ord)]
pub struct Cents(pub i64);

/// A column value as the decoders see it: `None` is SQL NULL.
pub open spec fn bytes_view(bytes: Option<&[u8]>) -> Option<Seq<u8>> {
    match bytes {
        Some(b) => Some(b@),
        None => None,
    }
}

/// Appends `bytes` to `out`.
fn append_bytes(out: &mut Vec<u8>, bytes: &[u8])
    ensures
        final(out)@ == old(out)@ + bytes@,
{
    let mut i: usize = 0;
    while i < bytes.len()
        invariant
            i <= bytes@.len(),
            out@ == old(out)@ + bytes@.take(i as int),
        decreases bytes@.len() - i,
    {
        out.push(bytes[i]);
        i = i + 1;
        assert(out@ =~= old(out)@ + bytes@.take(i as int));
    }
    assert(bytes@.take(i as int) =~= bytes@);
}

/// A native type decoded from the column bytes of SQL type `ST`.
pub trait FromSql<ST>: Sized {
    /// The value a decoded native value stands for.
    spec fn model(&self) -> crate::value::ValueModel;

    /// What `bytes` decode to; `None` is SQL NULL.
    spec fn decode(bytes: Option<Seq<u8>>) -> Result<crate::value::ValueModel, DeserializeError>;

    fn from_sql(bytes: Option<&[u8]>) -> (r: Result<Self, DeserializeError>)
        ensures
            match r {
                Ok(v) => Self::decode(bytes_view(bytes)) == Ok::<
                    crate::value::ValueModel,
                    DeserializeError,
                >(v.model()),
                Err(e) => Self::decode(bytes_view(bytes)) == Err::<
                    crate::value::ValueModel,
                    DeserializeError,
                >(e),
            },
    ;
}

/// A native type encoded as the bind bytes of SQL type `ST`.
pub trait ToSql<ST> {
    spec fn sql_model(&self) -> crate::value::ValueModel;

    /// The bytes of a value; `None` is SQL NULL.
    spec fn encode(v: crate::value::ValueModel) -> Option<Seq<u8>>;

    /// NULL is written as NULL.
    proof fn lemma_null_encodes_as_null()
        ensures
            Self::encode(crate::value::ValueModel::Null) == None::<Seq<u8>>,
    ;

    fn to_sql(&self, out: &mut Vec<u8>) -> (r: IsNull)
        ensures
            match Self::encode(self.sql_model()) {
                Some(b) => r == IsNull::No && final(out)@ == old(out)@ + b,
                None => r == IsNull::Yes && final(out)@ == old(out)@,
            },
    ;
}

/// The decoding of a fixed-width signed integer of `n` bytes, wrapped by `wrap`.
pub open spec fn decode_int(bytes: Option<Seq<u8>>, n: nat, wrap: spec_fn(int) -> ValueModel) -> Result<
    ValueModel,
    DeserializeError,
> {
    match bytes {
        None => Err(DeserializeError::UnexpectedNull),
        Some(b) => if b.len() < n {
            Err(DeserializeError::UnexpectedEof)
        } else {
            Ok(wrap(decode_signed(b, n)))
        },
    }
}

impl FromSql<Bool> for bool {
    open spec fn model(&self) -> ValueModel {
        ValueModel::Bool(*self)
    }

    open spec fn decode(bytes: Option<Seq<u8>>) -> Result<ValueModel, DeserializeError> {
        match bytes {
            None => Err(DeserializeError::UnexpectedNull),
            Some(b) => if b.len() == 0 {
                Err(DeserializeError::UnexpectedEof)
            } else {
                Ok(ValueModel::Bool(b[0] != 0))
            },
        }
    }

    fn from_sql(bytes: Option<&[u8]>) -> (r: Result<bool, DeserializeError>) {
        match bytes {
            None => crate::result::unexpected_null(),
            Some(b) => {
                if b.len() == 0 {
                    Err(DeserializeError::UnexpectedEof)
                } else {
                    Ok(b[0] != 0)
                }
            },
        }
    }
}

impl ToSql<Bool> for bool {
    open spec fn sql_model(&self) -> ValueModel {
        ValueModel::Bool(*self)
    }

    open spec fn encode(v: ValueModel) -> Option<Seq<u8>> {
        match v {
            ValueModel::Bool(b) => Some(
                if b {
                    seq![1u8]
                } else {
                    seq![0u8]
                },
            ),
            _ => None,
        }
    }

    proof fn lemma_null_encodes_as_null() {
    }

    fn to_sql(&self, out: &mut Vec<u8>) -> (r: IsNull) {
        if *self {
            out.push(1u8);
        } else {
            out.push(0u8);
        }
        proof {
            assert(final(out)@ =~= old(out)@ + Self::encode(self.sql_model()).unwrap());
        }
        IsNull::No
    }
}

pub open spec fn small_int_of(v: int) -> ValueModel {
    ValueModel::SmallInt(v as i16)
}

pub open spec fn integer_of(v: int) -> ValueModel {
    ValueModel::Integer(v as i32)
}

pub open spec fn big_int_of(v: int) -> ValueModel {
    ValueModel::BigInt(v as i64)
}

impl FromSql<SmallInt> for i16 {
    open spec fn model(&self) -> ValueModel {
        ValueModel::SmallInt(*self)
    }

    open spec fn decode(bytes: Option<Seq<u8>>) -> Result<ValueModel, DeserializeError> {
        decode_int(bytes, 2, |v: int| small_int_of(v))
    }

    fn from_sql(bytes: Option<&[u8]>) -> (r: Result<i16, DeserializeError>) {
        match bytes {
            None => crate::result::unexpected_null(),
            Some(b) => match read_i16_be(b) {
                Some(v) => Ok(v),
                None => Err(DeserializeError::UnexpectedEof),
            },
        }
    }
}

impl ToSql<SmallInt> for i16 {
    open spec fn sql_model(&self) -> ValueModel {
        ValueModel::SmallInt(*self)
    }

    open spec fn encode(v: ValueModel) -> Option<Seq<u8>> {
        match v {
            ValueModel::SmallInt(i) => Some(encode_signed(i as int, 2)),
            _ => None,
        }
    }

    proof fn lemma_null_encodes_as_null() {
    }

    fn to_sql(&self, out: &mut Vec<u8>) -> (r: IsNull) {
        write_i16_be(out, *self);
        IsNull::No
    }
}

impl FromSql<Integer> for i32 {
    open spec fn model(&self) -> ValueModel {
        ValueModel::Integer(*self)
    }

    open spec fn decode(bytes: Option<Seq<u8>>) -> Result<ValueModel, DeserializeError> {
        decode_int(bytes, 4, |v: int| integer_of(v))
    }

    fn from_sql(bytes: Option<&[u8]>) -> (r: Result<i32, DeserializeError>) {
        match bytes {
            None => crate::result::unexpected_null(),
            Some(b) => match read_i32_be(b) {
                Some(v) => Ok(v),
                None => Err(DeserializeError::UnexpectedEof),
            },
        }
    }
}

impl ToSql<Integer> for i32 {
    open spec fn sql_model(&self) -> ValueModel {
        ValueModel::Integer(*self)
    }

    open spec fn encode(v: ValueModel) -> Option<Seq<u8>> {
        match v {
            ValueModel::Integer(i) => Some(encode_signed(i as int, 4)),
            _ => None,
        }
    }

    proof fn lemma_null_encodes_as_null() {
    }

    fn to_sql(&self, out: &mut Vec<u8>) -> (r: IsNull) {
        write_i32_be(out, *self);
        IsNull::No
    }
}

impl FromSql<BigInt> for i64 {
    open spec fn model(&self) -> ValueModel {
        ValueModel::BigInt(*self)
    }

    open spec fn decode(bytes: Option<Seq<u8>>) -> Result<ValueModel, DeserializeError> {
        decode_int(bytes, 8, |v: int| big_int_of(v))
    }

    fn from_sql(bytes: Option<&[u8]>) -> (r: Result<i64, DeserializeError>) {
        match bytes {
            None => crate::result::unexpected_null(),
            Some(b) => match read_i64_be(b) {
                Some(v) => Ok(v),
                None => Err(DeserializeError::UnexpectedEof),
            },
        }
    }
}

impl ToSql<BigInt> for i64 {
    open spec fn sql_model(&self) -> ValueModel {
        ValueModel::BigInt(*self)
    }

    open spec fn encode(v: ValueModel) -> Option<Seq<u8>> {
        match v {
            ValueModel::BigInt(i) => Some(encode_signed(i as int, 8)),
            _ => None,
        }
    }

    proof fn lemma_null_encodes_as_null() {
    }

    fn to_sql(&self, out: &mut Vec<u8>) -> (r: IsNull) {
        write_i64_be(out, *self);
        IsNull::No
    }
}

impl FromSql<Money> for Cents {
    open spec fn model(&self) -> ValueModel {
        ValueModel::BigInt(self.0)
    }

    open spec fn decode(bytes: Option<Seq<u8>>) -> Result<ValueModel, DeserializeError> {
        decode_int(bytes, 8, |v: int| big_int_of(v))
    }

    fn from_sql(bytes: Option<&[u8]>) -> (r: Result<Cents, DeserializeError>) {
        match <i64 as FromSql<BigInt>>::from_sql(bytes) {
            Ok(v) => Ok(Cents(v)),
            Err(e) => Err(e),
        }
    }
}

impl ToSql<Money> for Cents {
    open spec fn sql_model(&self) -> ValueModel {
        ValueModel::BigInt(self.0)
    }

    open spec fn encode(v: ValueModel) -> Option<Seq<u8>> {
        match v {
            ValueModel::BigInt(i) => Some(encode_signed(i as int, 8)),
            _ => None,
        }
    }

    proof fn lemma_null_encodes_as_null() {
    }

    fn to_sql(&self, out: &mut Vec<u8>) -> (r: IsNull) {
        write_i64_be(out, self.0);
        IsNull::No
    }
}

impl FromSql<Text> for String {
    open spec fn model(&self) -> ValueModel {
        ValueModel::Text(self@)
    }

    open spec fn decode(bytes: Option<Seq<u8>>) -> Result<ValueModel, DeserializeError> {
        match bytes {
            None => Err(DeserializeError::UnexpectedNull),
            Some(b) => if valid_utf8(b) {
                Ok(ValueModel::Text(decode_utf8(b)))
            } else {
                Err(DeserializeError::InvalidUtf8)
            },
        }
    }

    fn from_sql(bytes: Option<&[u8]>) -> (r: Result<String, DeserializeError>) {
        match bytes {
            None => crate::result::unexpected_null(),
            Some(b) => match str_from_utf8(b) {
                Some(s) => Ok(s.to_owned()),
                None => Err(DeserializeError::InvalidUtf8),
            },
        }
    }
}

impl ToSql<Text> for String {
    open spec fn sql_model(&self) -> ValueModel {
        ValueModel::Text(self@)
    }

    open spec fn encode(v: ValueModel) -> Option<Seq<u8>> {
        match v {
            ValueModel::Text(t) => Some(encode_utf8(t)),
            _ => None,
        }
    }

    proof fn lemma_null_encodes_as_null() {
    }

    fn to_sql(&self, out: &mut Vec<u8>) -> (r: IsNull) {
        append_bytes(out, self.as_str().as_bytes());
        IsNull::No
    }
}

impl FromSql<Binary> for Vec<u8> {
    open spec fn model(&self) -> ValueModel {
        ValueModel::Binary(self@)
    }

    open spec fn decode(bytes: Option<Seq<u8>>) -> Result<ValueModel, DeserializeError> {
        match bytes {
            None => Err(DeserializeError::UnexpectedNull),
            Some(b) => Ok(ValueModel::Binary(b)),
        }
    }

    fn from_sql(bytes: Option<&[u8]>) -> (r: Result<Vec<u8>, DeserializeError>) {
        match bytes {
            None => crate::result::unexpected_null(),
            Some(b) => {
                let mut v: Vec<u8> = Vec::new();
                append_bytes(&mut v, b);
                assert(v@ =~= b@);
                Ok(v)
            },
        }
    }
}

impl ToSql<Binary> for Vec<u8> {
    open spec fn sql_model(&self) -> ValueModel {
        ValueModel::Binary(self@)
    }

    open spec fn encode(v: ValueModel) -> Option<Seq<u8>> {
        match v {
            ValueModel::Binary(b) => Some(b),
            _ => None,
        }
    }

    proof fn lemma_null_encodes_as_null() {
    }

    fn to_sql(&self, out: &mut Vec<u8>) -> (r: IsNull) {
        append_bytes(out, self.as_slice());
        IsNull::No
    }
}

impl<ST, T: FromSql<ST>> FromSql<Nullable<ST>> for Option<T> {
    open spec fn model(&self) -> ValueModel {
        match self {
            Some(v) => v.model(),
            None => ValueModel::Null,
        }
    }

    open spec fn decode(bytes: Option<Seq<u8>>) -> Result<ValueModel, DeserializeError> {
        match bytes {
            None => Ok(ValueModel::Null),
            Some(_) => T::decode(bytes),
        }
    }

    fn from_sql(bytes: Option<&[u8]>) -> (r: Result<Option<T>, DeserializeError>)
        ensures
            bytes is None ==> r matches Ok(None),
            bytes is Some ==> (r matches Ok(v) ==> v is Some),
    {
        match bytes {
            None => Ok(None),
            Some(_) => match T::from_sql(bytes) {
                Ok(v) => Ok(Some(v)),
                Err(e) => Err(e),
            },
        }
    }
}

impl<ST, T: ToSql<ST>> ToSql<Nullable<ST>> for Option<T> {
    open spec fn sql_model(&self) -> ValueModel {
        match self {
            Some(v) => v.sql_model(),
            None => ValueModel::Null,
        }
    }

    open spec fn encode(v: ValueModel) -> Option<Seq<u8>> {
        T::encode(v)
    }

    proof fn lemma_null_encodes_as_null() {
        T::lemma_null_encodes_as_null();
    }

    fn to_sql(&self, out: &mut Vec<u8>) -> (r: IsNull) {
        match self {
            Some(v) => v.to_sql(out),
            None => {
                proof {
                    T::lemma_null_encodes_as_null();
                }
                IsNull::Yes
            },
        }
    }
}

/// Decoding what was encoded gives the value back, for every value of each
/// primitive type, the extremes, empty text and empty buffers included.
pub proof fn lemma_round_trip(
    b: bool,
    small: i16,
    integer: i32,
    big: i64,
    money: Cents,
    text: Seq<char>,
    bytes: Seq<u8>,
)
    ensures
        <bool as FromSql<Bool>>::decode(<bool as ToSql<Bool>>::encode(ValueModel::Bool(b)))
            == Ok::<ValueModel, DeserializeError>(ValueModel::Bool(b)),
        <i16 as FromSql<SmallInt>>::decode(
            <i16 as ToSql<SmallInt>>::encode(ValueModel::SmallInt(small)),
        ) == Ok::<ValueModel, DeserializeError>(ValueModel::SmallInt(small)),
        <i32 as FromSql<Integer>>::decode(<i32 as ToSql<Integer>>::encode(ValueModel::Integer(integer)))
            == Ok::<ValueModel, DeserializeError>(ValueModel::Integer(integer)),
        <i64 as FromSql<BigInt>>::decode(<i64 as ToSql<BigInt>>::encode(ValueModel::BigInt(big)))
            == Ok::<ValueModel, DeserializeError>(ValueModel::BigInt(big)),
        <Cents as FromSql<Money>>::decode(<Cents as ToSql<Money>>::encode(money.sql_model()))
            == Ok::<ValueModel, DeserializeError>(money.model()),
        <String as FromSql<Text>>::decode(<String as ToSql<Text>>::encode(ValueModel::Text(text)))
            == Ok::<ValueModel, DeserializeError>(ValueModel::Text(text)),
        <Vec<u8> as FromSql<Binary>>::decode(
            <Vec<u8> as ToSql<Binary>>::encode(ValueModel::Binary(bytes)),
        ) == Ok::<ValueModel, DeserializeError>(ValueModel::Binary(bytes)),
{
    lemma_pow256_values();
    lemma_signed_round_trip(small as int, 2);
    lemma_signed_round_trip(integer as int, 4);
    lemma_signed_round_trip(big as int, 8);
    lemma_signed_round_trip(money.0 as int, 8);
    vstd::utf8::encode_utf8_valid_utf8(text);
    vstd::utf8::encode_utf8_decode_utf8(text);
}

/// SQL NULL is an error for every type that is not nullable, with the fixed
/// null-violation error; for a nullable type it is `None`, without error.
pub proof fn lemma_null_decoding<ST, T: FromSql<ST>>()
    ensures
        <bool as FromSql<Bool>>::decode(None) == Err::<ValueModel, DeserializeError>(
            DeserializeError::UnexpectedNull,
        ),
        <i16 as FromSql<SmallInt>>::decode(None) == Err::<ValueModel, DeserializeError>(
            DeserializeError::UnexpectedNull,
        ),
        <i32 as FromSql<Integer>>::decode(None) == Err::<ValueModel, DeserializeError>(
            DeserializeError::UnexpectedNull,
        ),
        <i64 as FromSql<BigInt>>::decode(None) == Err::<ValueModel, DeserializeError>(
            DeserializeError::UnexpectedNull,
        ),
        <Cents as FromSql<Money>>::decode(None) == Err::<ValueModel, DeserializeError>(
            DeserializeError::UnexpectedNull,
        ),
        <String as FromSql<Text>>::decode(None) == Err::<ValueModel, DeserializeError>(
            DeserializeError::UnexpectedNull,
        ),
        <Vec<u8> as FromSql<Binary>>::decode(None) == Err::<ValueModel, DeserializeError>(
            DeserializeError::UnexpectedNull,
        ),
        <Option<T> as FromSql<Nullable<ST>>>::decode(None) == Ok::<ValueModel, DeserializeError>(
            ValueModel::Null,
        ),
{
}

#[verifier::external_type_specification]
#[verifier::external_body]
pub struct ExJsonValue(serde_json::Value);

/// Whether `b` is one JSON document, as serde_json reads it.
pub uninterp spec fn is_json(b: Seq<u8>) -> bool;

/// Relies on `serde_json::from_slice::<serde_json::Value>`: a value exactly
/// when the bytes hold one JSON document.
#[verifier::external_body]
fn parse_json(bytes: &[u8]) -> (r: Option<serde_json::Value>)
    ensures
        r is Some <==> is_json(bytes@),
{
    serde_json::from_slice::<serde_json::Value>(bytes).ok()
}

/// Relies on `serde_json::to_writer` into a vector: the JSON text of `value`
/// (never empty) is appended after what was there. A `Value` fails to
/// serialize only when the writer fails, and writing to a vector does not.
#[verifier::external_body]
fn write_json(out: &mut Vec<u8>, value: &serde_json::Value) -> (r: bool)
    ensures
        r,
        final(out)@.len() > old(out)@.len(),
        final(out)@.take(old(out)@.len() as int) == old(out)@,
{
    serde_json::to_writer(out, value).is_ok()
}

/// Decodes a JSON column of the MySQL-like backend.
pub fn json_from_sql(bytes: Option<&[u8]>) -> (r: Result<serde_json::Value, DeserializeError>)
    ensures
        bytes is None ==> r == Err::<serde_json::Value, DeserializeError>(
            DeserializeError::UnexpectedNull,
        ),
        bytes matches Some(b) ==> (r is Ok <==> is_json(b@)),
        bytes matches Some(b) ==> (!is_json(b@) ==> r == Err::<serde_json::Value, DeserializeError>(
            DeserializeError::InvalidJson,
        )),
{
    match bytes {
        None => crate::result::unexpected_null(),
        Some(b) => match parse_json(b) {
            Some(v) => Ok(v),
            None => Err(DeserializeError::InvalidJson),
        },
    }
}

/// Encodes a JSON value as its text.
pub fn json_to_sql(value: &serde_json::Value, out: &mut Vec<u8>) -> (r: Result<
    IsNull,
    crate::result::Error,
>)
    ensures
        r matches Ok(n) && n == IsNull::No,
        final(out)@.len() > old(out)@.len(),
        final(out)@.take(old(out)@.len() as int) == old(out)@,
{
    if write_json(out, value) {
        Ok(IsNull::No)
    } else {
        Err(crate::result::Error::SerializationError(String::from_str("JSON serialization failed")))
    }
}

} // verus!
