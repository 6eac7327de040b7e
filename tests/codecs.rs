use diesel::codec;
use diesel::codec::{json_from_sql, Cents, FromSql, IsNull, ToSql};
use diesel::result::DeserializeError;
use diesel::sql_types::{BigInt, Binary, Bool, Integer, Money, Nullable, SmallInt, Text};

#[test]
fn cents_to_sql() {
    let mut bytes = vec![];
    let test_cents = Cents(72624976668147840);
    let r = ToSql::<Money>::to_sql(&test_cents, &mut bytes);
    assert_eq!(r, IsNull::No);
    assert_eq!(bytes, [0x1, 0x1 << 1, 0x1 << 2, 0x1 << 3, 0x1 << 4, 0x1 << 5, 0x1 << 6, 0x1 << 7]);
}

#[test]
fn some_cents_from_sql() {
    let input = [0x1, 0x1 << 1, 0x1 << 2, 0x1 << 3, 0x1 << 4, 0x1 << 5, 0x1 << 6, 0x1 << 7];
    let output_cents: Cents = FromSql::<Money>::from_sql(Some(&input[..])).unwrap();
    assert_eq!(output_cents, Cents(72624976668147840));
}

#[test]
fn bad_cents_from_sql() {
    let undersized = [0x1 << 1, 0x1 << 2, 0x1 << 3, 0x1 << 4, 0x1 << 5, 0x1 << 6, 0x1 << 7];
    let bad_cents: Result<Cents, _> = FromSql::<Money>::from_sql(Some(&undersized[..]));
    assert_eq!(bad_cents.unwrap_err().message(), "failed to fill whole buffer");
}

#[test]
fn no_cents_from_sql() {
    let no_cents: Result<Cents, DeserializeError> = FromSql::<Money>::from_sql(None);
    assert_eq!(no_cents.unwrap_err().message(), "Unexpected null for non-null column");
}

#[test]
fn json_to_sql() {
    let mut bytes = vec![];
    let test_json = serde_json::Value::Bool(true);
    codec::json_to_sql(&test_json, &mut bytes).ok().unwrap();
    assert_eq!(bytes, b"true");
}

#[test]
fn some_json_from_sql() {
    let input_json = b"true";
    let output_json = json_from_sql(Some(&input_json[..])).unwrap();
    assert_eq!(output_json, serde_json::Value::Bool(true));
}

#[test]
fn bad_json_from_sql() {
    let uuid = json_from_sql(Some(&b"boom"[..]));
    assert_eq!(uuid.unwrap_err().message(), "Invalid Json");
}

#[test]
fn no_json_from_sql() {
    let uuid = json_from_sql(None);
    assert_eq!(uuid.unwrap_err().message(), "Unexpected null for non-null column");
}

#[test]
fn bool_to_sql() {
    let mut bytes = vec![];
    ToSql::<Bool>::to_sql(&true, &mut bytes);
    ToSql::<Bool>::to_sql(&false, &mut bytes);
    assert_eq!(bytes, vec![1u8, 0u8]);
}

#[test]
fn bool_from_sql_rejects_null() {
    let result = <bool as FromSql<Bool>>::from_sql(None);
    assert_eq!(result, Err(DeserializeError::UnexpectedNull));
    assert_eq!(<bool as FromSql<Bool>>::from_sql(Some(&[][..])), Err(DeserializeError::UnexpectedEof));
    assert_eq!(<bool as FromSql<Bool>>::from_sql(Some(&[7][..])), Ok(true));
    assert_eq!(<bool as FromSql<Bool>>::from_sql(Some(&[0][..])), Ok(false));
}

#[test]
fn integers_are_big_endian() {
    let mut bytes = vec![];
    ToSql::<SmallInt>::to_sql(&0x0102i16, &mut bytes);
    ToSql::<Integer>::to_sql(&-2i32, &mut bytes);
    assert_eq!(bytes, vec![1, 2, 0xff, 0xff, 0xff, 0xfe]);
    assert_eq!(<i16 as FromSql<SmallInt>>::from_sql(Some(&[1, 2][..])), Ok(0x0102));
    assert_eq!(<i32 as FromSql<Integer>>::from_sql(Some(&[0xff, 0xff, 0xff, 0xfe, 9][..])), Ok(-2));
    assert_eq!(<i32 as FromSql<Integer>>::from_sql(Some(&[0, 0, 1][..])), Err(DeserializeError::UnexpectedEof));
}

fn round_trip_i64(v: i64) -> i64 {
    let mut bytes = vec![];
    ToSql::<BigInt>::to_sql(&v, &mut bytes);
    <i64 as FromSql<BigInt>>::from_sql(Some(&bytes[..])).unwrap()
}

#[test]
fn integer_round_trip_at_the_extremes() {
    for v in [i64::MIN, -1, 0, 1, i64::MAX] {
        assert_eq!(round_trip_i64(v), v);
    }
    for v in [i16::MIN, 0, i16::MAX] {
        let mut bytes = vec![];
        ToSql::<SmallInt>::to_sql(&v, &mut bytes);
        assert_eq!(<i16 as FromSql<SmallInt>>::from_sql(Some(&bytes[..])), Ok(v));
    }
    for v in [i32::MIN, 0, i32::MAX] {
        let mut bytes = vec![];
        ToSql::<Integer>::to_sql(&v, &mut bytes);
        assert_eq!(<i32 as FromSql<Integer>>::from_sql(Some(&bytes[..])), Ok(v));
    }
}

#[test]
fn text_and_binary_round_trip_including_empty() {
    for s in ["", "héllo wörld", "plain"] {
        let mut bytes = vec![];
        ToSql::<Text>::to_sql(&s.to_string(), &mut bytes);
        assert_eq!(bytes, s.as_bytes());
        assert_eq!(<String as FromSql<Text>>::from_sql(Some(&bytes[..])), Ok(s.to_string()));
    }
    for b in [vec![], vec![0u8, 255, 7]] {
        let mut bytes = vec![];
        ToSql::<Binary>::to_sql(&b, &mut bytes);
        assert_eq!(<Vec<u8> as FromSql<Binary>>::from_sql(Some(&bytes[..])), Ok(b.clone()));
    }
}

#[test]
fn invalid_utf8_text_is_refused() {
    let r = <String as FromSql<Text>>::from_sql(Some(&[0xff, 0xfe][..]));
    assert_eq!(r, Err(DeserializeError::InvalidUtf8));
}

#[test]
fn null_for_nullable_is_none() {
    let r = <Option<i32> as FromSql<Nullable<Integer>>>::from_sql(None);
    assert_eq!(r, Ok(None));
    let r = <Option<i32> as FromSql<Nullable<Integer>>>::from_sql(Some(&[0, 0, 0, 5][..]));
    assert_eq!(r, Ok(Some(5)));
    let r = <i32 as FromSql<Integer>>::from_sql(None);
    assert_eq!(r, Err(DeserializeError::UnexpectedNull));
    let mut bytes = vec![];
    let none: Option<i32> = None;
    assert_eq!(ToSql::<Nullable<Integer>>::to_sql(&none, &mut bytes), IsNull::Yes);
    assert!(bytes.is_empty());
}

#[test]
fn every_decoding_error_has_its_message() {
    assert_eq!(DeserializeError::UnexpectedNull.message(), "Unexpected null for non-null column");
    assert_eq!(DeserializeError::UnexpectedEof.message(), "failed to fill whole buffer");
    assert_eq!(DeserializeError::InvalidUtf8.message(), "invalid utf-8 sequence");
    assert_eq!(DeserializeError::InvalidJson.message(), "Invalid Json");
}

#[test]
fn nested_nullable_null_is_outer_none() {
    let r = <Option<Option<i32>> as FromSql<Nullable<Nullable<Integer>>>>::from_sql(None);
    assert_eq!(r, Ok(None));
}
