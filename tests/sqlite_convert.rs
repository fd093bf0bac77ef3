use spin_sqlx::error::DecodeError;
use spin_sqlx::sqlite::convert::{decode, encode, into_or_err};
use spin_sqlx::sqlite::{SpinSqliteArgs, SpinSqliteTypeInfo, SpinSqliteValue, SqliteKind, SqliteScalar};
use spin_sqlx::IsNull;

fn round_trip(s: SqliteScalar, k: SqliteKind) {
    let v = encode(s.clone());
    assert_eq!(decode(k, &v), Ok(s));
}

#[test]
fn round_trip_every_scalar() {
    round_trip(SqliteScalar::Bool(true), SqliteKind::Bool);
    round_trip(SqliteScalar::Bool(false), SqliteKind::Bool);
    round_trip(SqliteScalar::I16(i16::MIN), SqliteKind::I16);
    round_trip(SqliteScalar::U16(u16::MAX), SqliteKind::U16);
    round_trip(SqliteScalar::I32(-7), SqliteKind::I32);
    round_trip(SqliteScalar::U32(u32::MAX), SqliteKind::U32);
    round_trip(SqliteScalar::I64(i64::MIN), SqliteKind::I64);
    round_trip(SqliteScalar::F64Bits(2.5f64.to_bits()), SqliteKind::F64Bits);
    round_trip(SqliteScalar::Text("Rosie".to_string()), SqliteKind::Text);
    round_trip(SqliteScalar::Blob(vec![0, 1, 255]), SqliteKind::Blob);
    round_trip(SqliteScalar::Text(String::new()), SqliteKind::Text);
    round_trip(SqliteScalar::Blob(Vec::new()), SqliteKind::Blob);
}

#[test]
fn encode_widens_to_integer() {
    assert_eq!(encode(SqliteScalar::Bool(true)), SpinSqliteValue::Integer(1));
    assert_eq!(encode(SqliteScalar::Bool(false)), SpinSqliteValue::Integer(0));
    assert_eq!(encode(SqliteScalar::U32(4_000_000_000)), SpinSqliteValue::Integer(4_000_000_000));
    assert_eq!(encode(SqliteScalar::I16(-3)), SpinSqliteValue::Integer(-3));
    assert_eq!(encode(SqliteScalar::F64Bits(1.5f64.to_bits())), SpinSqliteValue::Real(1.5f64.to_bits()));
}

#[test]
fn float32_narrowing_is_within_rounding() {
    let v: f32 = 0.1;
    let stored = encode(SqliteScalar::F64Bits((v as f64).to_bits()));
    match decode(SqliteKind::F64Bits, &stored) {
        Ok(SqliteScalar::F64Bits(bits)) => {
            let back = f64::from_bits(bits) as f32;
            assert!((back - v).abs() <= f32::EPSILON);
        }
        other => panic!("unexpected {:?}", other),
    }
}

#[test]
fn overflow_is_a_bad_value() {
    let big = SpinSqliteValue::Integer(1i64 << 40);
    assert_eq!(decode(SqliteKind::I16, &big), Err(DecodeError::BadValue));
    assert_eq!(decode(SqliteKind::U16, &big), Err(DecodeError::BadValue));
    assert_eq!(decode(SqliteKind::I32, &big), Err(DecodeError::BadValue));
    assert_eq!(decode(SqliteKind::U32, &big), Err(DecodeError::BadValue));
    assert_eq!(decode(SqliteKind::I64, &big), Ok(SqliteScalar::I64(1i64 << 40)));
    assert_eq!(decode(SqliteKind::U16, &SpinSqliteValue::Integer(-1)), Err(DecodeError::BadValue));
    assert_eq!(decode(SqliteKind::I16, &SpinSqliteValue::Integer(32768)), Err(DecodeError::BadValue));
    assert_eq!(decode(SqliteKind::I16, &SpinSqliteValue::Integer(32767)), Ok(SqliteScalar::I16(32767)));
}

#[test]
fn bool_accepts_only_zero_and_one() {
    assert_eq!(decode(SqliteKind::Bool, &SpinSqliteValue::Integer(0)), Ok(SqliteScalar::Bool(false)));
    assert_eq!(decode(SqliteKind::Bool, &SpinSqliteValue::Integer(1)), Ok(SqliteScalar::Bool(true)));
    assert_eq!(decode(SqliteKind::Bool, &SpinSqliteValue::Integer(2)), Err(DecodeError::BadValue));
    assert_eq!(decode(SqliteKind::Bool, &SpinSqliteValue::Integer(-1)), Err(DecodeError::BadValue));
    assert_eq!(decode(SqliteKind::Bool, &SpinSqliteValue::Text("1".to_string())), Err(DecodeError::BadType));
}

#[test]
fn variant_mismatch_is_a_bad_type() {
    assert_eq!(decode(SqliteKind::Text, &SpinSqliteValue::Integer(1)), Err(DecodeError::BadType));
    assert_eq!(decode(SqliteKind::I64, &SpinSqliteValue::Real(0)), Err(DecodeError::BadType));
    assert_eq!(decode(SqliteKind::Blob, &SpinSqliteValue::Text("x".to_string())), Err(DecodeError::BadType));
    assert_eq!(decode(SqliteKind::F64Bits, &SpinSqliteValue::Blob(vec![1])), Err(DecodeError::BadType));
}

#[test]
fn narrowing_helper() {
    assert_eq!(into_or_err(SqliteKind::I32, -5), Ok(SqliteScalar::I32(-5)));
    assert_eq!(into_or_err(SqliteKind::U32, 1i64 << 32), Err(DecodeError::BadValue));
    assert_eq!(into_or_err(SqliteKind::I64, i64::MAX), Ok(SqliteScalar::I64(i64::MAX)));
}

#[test]
fn null_binds_and_reads_as_null() {
    let mut args = SpinSqliteArgs::new();
    assert_eq!(args.add(None), IsNull::Yes);
    assert_eq!(args.as_slice(), &[SpinSqliteValue::Null][..]);
    assert!(args.as_slice()[0].is_null());
    for k in [SqliteKind::Bool, SqliteKind::I16, SqliteKind::I64, SqliteKind::Text, SqliteKind::Blob, SqliteKind::F64Bits] {
        assert_eq!(decode(k, &SpinSqliteValue::Null), Err(DecodeError::BadType));
    }
}

#[test]
fn arguments_are_encoded_in_order() {
    let mut args = SpinSqliteArgs::new();
    assert_eq!(args.add(Some(SqliteScalar::I32(1))), IsNull::No);
    assert_eq!(args.add(Some(SqliteScalar::Text("Rosie".to_string()))), IsNull::No);
    assert_eq!(args.add(Some(SqliteScalar::Bool(true))), IsNull::No);
    assert_eq!(args.len(), 3);
    assert_eq!(
        args.as_slice(),
        &[
            SpinSqliteValue::Integer(1),
            SpinSqliteValue::Text("Rosie".to_string()),
            SpinSqliteValue::Integer(1)
        ][..]
    );
}

#[test]
fn sqlite_type_info_and_names() {
    assert_eq!(SpinSqliteValue::Integer(3).type_info(), SpinSqliteTypeInfo::Int);
    assert_eq!(SpinSqliteValue::Real(0).type_info(), SpinSqliteTypeInfo::Real);
    assert_eq!(SpinSqliteValue::Text(String::new()).type_info(), SpinSqliteTypeInfo::Text);
    assert_eq!(SpinSqliteValue::Blob(vec![]).type_info(), SpinSqliteTypeInfo::Blob);
    assert_eq!(SpinSqliteValue::Null.type_info(), SpinSqliteTypeInfo::Null);
    assert_eq!(SpinSqliteTypeInfo::Blob.name(), "BINARY");
    assert_eq!(SpinSqliteTypeInfo::Int.name(), "INT");
    assert_eq!(SpinSqliteTypeInfo::Null.name(), "NULL");
    assert_eq!(SpinSqliteTypeInfo::Real.name(), "REAL");
    assert_eq!(SpinSqliteTypeInfo::Text.name(), "TEXT");
    assert!(SpinSqliteTypeInfo::Null.is_null());
    assert!(!SpinSqliteTypeInfo::Int.is_null());
    assert!(!SpinSqliteValue::Integer(0).is_null());
}
