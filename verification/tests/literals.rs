use spacetimedb_expr::decimal::{Decimal, I256, U256};
use spacetimedb_expr::errors::LiteralError;
use spacetimedb_expr::formats::TIMESTAMP_FORMAT;
use spacetimedb_expr::literal::{float_literal, int_literal, parse, parse_float, parse_int, timestamp_literal};
use spacetimedb_expr::ty::{
    AlgebraicType, ArrayType, ProductType, ProductTypeElement, SumType, SumTypeVariant, CONNECTION_ID_TAG,
    IDENTITY_TAG, TIMESTAMP_TAG,
};
use spacetimedb_expr::value::{AlgebraicValue, ArrayValue, ProductValue};

fn newtype(tag: &str, ty: AlgebraicType) -> AlgebraicType {
    AlgebraicType::Product(ProductType {
        elements: vec![ProductTypeElement { name: Some(tag.to_string()), algebraic_type: ty }],
    })
}

fn timestamp() -> AlgebraicType {
    newtype(TIMESTAMP_TAG, AlgebraicType::I64)
}

fn identity() -> AlgebraicType {
    newtype(IDENTITY_TAG, AlgebraicType::U256)
}

fn connection_id() -> AlgebraicType {
    newtype(CONNECTION_ID_TAG, AlgebraicType::U128)
}

fn bytes() -> AlgebraicType {
    AlgebraicType::Array(ArrayType { elem_ty: Box::new(AlgebraicType::U8) })
}

fn unit() -> AlgebraicType {
    AlgebraicType::Product(ProductType::unit())
}

fn sum(variants: Vec<(&str, AlgebraicType)>) -> AlgebraicType {
    AlgebraicType::Sum(SumType {
        variants: variants
            .into_iter()
            .map(|(name, algebraic_type)| SumTypeVariant { name: Some(name.to_string()), algebraic_type })
            .collect(),
    })
}

fn product(value: AlgebraicValue) -> AlgebraicValue {
    AlgebraicValue::Product(ProductValue { elements: vec![value] })
}

fn decimal(unscaled: &str, scale: i64) -> Decimal {
    Decimal { unscaled: unscaled.to_string(), scale }
}

fn out_of_bounds(text: &str, ty: AlgebraicType) -> Result<AlgebraicValue, LiteralError> {
    Err(LiteralError::OutOfBounds(text.to_string(), ty))
}

fn not_an_integer(text: &str) -> Result<AlgebraicValue, LiteralError> {
    Err(LiteralError::NotAnInteger(text.to_string()))
}

#[test]
fn small_integers_have_their_bounds() {
    assert_eq!(parse("-128", &AlgebraicType::I8), Ok(AlgebraicValue::I8(-128)));
    assert_eq!(parse("127", &AlgebraicType::I8), Ok(AlgebraicValue::I8(127)));
    assert_eq!(parse("128", &AlgebraicType::I8), out_of_bounds("128", AlgebraicType::I8));
    assert_eq!(parse("255", &AlgebraicType::U8), Ok(AlgebraicValue::U8(255)));
    assert_eq!(parse("256", &AlgebraicType::U8), out_of_bounds("256", AlgebraicType::U8));
    assert_eq!(parse("-1", &AlgebraicType::U8), out_of_bounds("-1", AlgebraicType::U8));
    assert_eq!(parse("-32768", &AlgebraicType::I16), Ok(AlgebraicValue::I16(-32768)));
    assert_eq!(parse("32768", &AlgebraicType::I16), out_of_bounds("32768", AlgebraicType::I16));
    assert_eq!(parse("65535", &AlgebraicType::U16), Ok(AlgebraicValue::U16(65535)));
    assert_eq!(parse("65536", &AlgebraicType::U16), out_of_bounds("65536", AlgebraicType::U16));
}

#[test]
fn large_integers_have_their_bounds() {
    assert_eq!(parse("-2147483648", &AlgebraicType::I32), Ok(AlgebraicValue::I32(i32::MIN)));
    assert_eq!(parse("4294967295", &AlgebraicType::U32), Ok(AlgebraicValue::U32(u32::MAX)));
    assert_eq!(parse("-9223372036854775808", &AlgebraicType::I64), Ok(AlgebraicValue::I64(i64::MIN)));
    assert_eq!(parse("18446744073709551615", &AlgebraicType::U64), Ok(AlgebraicValue::U64(u64::MAX)));
    assert_eq!(
        parse("18446744073709551616", &AlgebraicType::U64),
        out_of_bounds("18446744073709551616", AlgebraicType::U64)
    );
    assert_eq!(
        parse("-170141183460469231731687303715884105728", &AlgebraicType::I128),
        Ok(AlgebraicValue::I128(i128::MIN))
    );
    assert_eq!(
        parse("340282366920938463463374607431768211455", &AlgebraicType::U128),
        Ok(AlgebraicValue::U128(u128::MAX))
    );
    let over = "340282366920938463463374607431768211456";
    assert_eq!(parse(over, &AlgebraicType::U128), out_of_bounds(over, AlgebraicType::U128));
}

#[test]
fn integers_of_256_bits() {
    assert_eq!(parse("5", &AlgebraicType::I256), Ok(AlgebraicValue::I256(I256 { hi: 0, lo: 5 })));
    assert_eq!(parse("-1", &AlgebraicType::I256), Ok(AlgebraicValue::I256(I256 { hi: -1, lo: u128::MAX })));
    assert_eq!(
        parse("-57896044618658097711785492504343953926634992332820282019728792003956564819968", &AlgebraicType::I256),
        Ok(AlgebraicValue::I256(I256 { hi: i128::MIN, lo: 0 }))
    );
    let over = "57896044618658097711785492504343953926634992332820282019728792003956564819968";
    assert_eq!(parse(over, &AlgebraicType::I256), out_of_bounds(over, AlgebraicType::I256));
    assert_eq!(
        parse(
            "115792089237316195423570985008687907853269984665640564039457584007913129639935",
            &AlgebraicType::U256
        ),
        Ok(AlgebraicValue::U256(U256 { hi: u128::MAX, lo: u128::MAX }))
    );
    assert_eq!(parse("-1", &AlgebraicType::U256), out_of_bounds("-1", AlgebraicType::U256));
    assert_eq!(
        parse("1e77", &AlgebraicType::U256),
        Ok(AlgebraicValue::U256(U256 {
            hi: 293873587705571876992184134305561419454,
            lo: 226760491892019584008648750389815934976,
        }))
    );
    assert_eq!(parse("1e78", &AlgebraicType::U256), out_of_bounds("1e78", AlgebraicType::U256));
    assert_eq!(parse("1e78", &AlgebraicType::I256), out_of_bounds("1e78", AlgebraicType::I256));
}

#[test]
fn integers_of_256_bits_have_no_decimal_point() {
    assert_eq!(parse("1.0", &AlgebraicType::I128), Ok(AlgebraicValue::I128(1)));
    assert_eq!(parse("1.0", &AlgebraicType::I256), out_of_bounds("1.0", AlgebraicType::I256));
    assert_eq!(parse("1.0", &AlgebraicType::U256), out_of_bounds("1.0", AlgebraicType::U256));
    assert_eq!(parse("0.0", &AlgebraicType::U256), out_of_bounds("0.0", AlgebraicType::U256));
    assert_eq!(parse("1.5e1", &AlgebraicType::U256), Ok(AlgebraicValue::U256(U256 { hi: 0, lo: 15 })));
}

#[test]
fn notations_of_one_integer() {
    for text in ["1000", "1e3", "1E3", "1000.0", "1000.000", "10000e-1", "0.1e4", "1_000", "+1000"] {
        assert_eq!(parse(text, &AlgebraicType::U16), Ok(AlgebraicValue::U16(1000)));
        assert_eq!(parse(text, &AlgebraicType::I64), Ok(AlgebraicValue::I64(1000)));
    }
    assert_eq!(parse("-2e2", &AlgebraicType::I16), Ok(AlgebraicValue::I16(-200)));
    assert_eq!(parse("-2.50e1", &AlgebraicType::I8), Ok(AlgebraicValue::I8(-25)));
}

#[test]
fn what_is_not_an_integer() {
    for text in ["", "abc", "1.5", "-0.5", "1e", "e5", "0x10", " 1", "1e-1"] {
        assert_eq!(parse(text, &AlgebraicType::I32), not_an_integer(text));
        assert_eq!(parse(text, &AlgebraicType::U256), not_an_integer(text));
    }
}

#[test]
fn huge_exponents_are_out_of_bounds() {
    for ty in [AlgebraicType::I8, AlgebraicType::U64, AlgebraicType::I128, AlgebraicType::I256, AlgebraicType::U256] {
        let text = "1e1000000000000";
        assert_eq!(parse(text, &ty), out_of_bounds(text, ty));
    }
    assert_eq!(parse("1e-1000000000000", &AlgebraicType::I8), not_an_integer("1e-1000000000000"));
    assert_eq!(parse("0e1000000000000", &AlgebraicType::I8), Ok(AlgebraicValue::I8(0)));
    assert_eq!(parse("0e-1000000000000", &AlgebraicType::U128), Ok(AlgebraicValue::U128(0)));
    assert_eq!(parse("0e1000000000000", &AlgebraicType::I256), Ok(AlgebraicValue::I256(I256 { hi: 0, lo: 0 })));
    assert_eq!(parse("0e100", &AlgebraicType::U256), Ok(AlgebraicValue::U256(U256 { hi: 0, lo: 0 })));
    assert_eq!(parse("0e40", &AlgebraicType::U256), Ok(AlgebraicValue::U256(U256 { hi: 0, lo: 0 })));
    let text = "0e-1000000000000";
    assert_eq!(parse(text, &AlgebraicType::U256), out_of_bounds(text, AlgebraicType::U256));
    assert_eq!(parse("1e9223372036854775809", &AlgebraicType::U8), not_an_integer("1e9223372036854775809"));
}

#[test]
fn the_integer_of_a_decimal() {
    assert_eq!(int_literal(Some(decimal("12", -1)), "x", &AlgebraicType::U8), Ok(AlgebraicValue::U8(120)));
    assert_eq!(int_literal(Some(decimal("-1200", 2)), "x", &AlgebraicType::I32), Ok(AlgebraicValue::I32(-12)));
    assert_eq!(int_literal(Some(decimal("12", 1)), "x", &AlgebraicType::U8), not_an_integer("x"));
    assert_eq!(int_literal(Some(decimal("12", 5)), "x", &AlgebraicType::U8), not_an_integer("x"));
    assert_eq!(int_literal(Some(decimal("26", -1)), "x", &AlgebraicType::U8), out_of_bounds("x", AlgebraicType::U8));
    assert_eq!(int_literal(None, "x", &AlgebraicType::U8), not_an_integer("x"));
    assert_eq!(parse_int("7", &AlgebraicType::U32), Ok(AlgebraicValue::U32(7)));
}

#[test]
fn decimals_are_integers_or_not() {
    assert!(decimal("5", 0).is_integer());
    assert!(decimal("5", -3).is_integer());
    assert!(decimal("500", 2).is_integer());
    assert!(!decimal("500", 3).is_integer());
    assert!(!decimal("-1", i64::MAX).is_integer());
    assert!(decimal("0", i64::MAX).is_integer());
    assert_eq!(decimal("-3", -1).to_i256(), Some(I256 { hi: -1, lo: u128::MAX - 29 }));
    assert_eq!(decimal("-3", 0).to_u256(), None);
    assert_eq!(decimal("3", 0).clone(), decimal("3", 0));
}

#[test]
fn floats_keep_their_decimal() {
    assert_eq!(parse("3.14", &AlgebraicType::F32), Ok(AlgebraicValue::F32(decimal("314", 2))));
    assert_eq!(parse("-0.5", &AlgebraicType::F64), Ok(AlgebraicValue::F64(decimal("-5", 1))));
    assert_eq!(parse("1e10", &AlgebraicType::F64), Ok(AlgebraicValue::F64(decimal("1", -10))));
    assert_eq!(
        parse_float("x", &AlgebraicType::F64),
        Err(LiteralError::NotValid("x".to_string(), AlgebraicType::F64))
    );
    assert_eq!(
        float_literal(Some(decimal("1", 0)), "x", &AlgebraicType::F32),
        Ok(AlgebraicValue::F32(decimal("1", 0)))
    );
    assert_eq!(
        float_literal(None, "x", &AlgebraicType::F32),
        Err(LiteralError::NotValid("x".to_string(), AlgebraicType::F32))
    );
}

#[test]
fn strings_stand_for_themselves() {
    assert_eq!(parse("a'b", &AlgebraicType::String), Ok(AlgebraicValue::String("a'b".to_string())));
    assert_eq!(parse("", &AlgebraicType::String), Ok(AlgebraicValue::String(String::new())));
}

#[test]
fn timestamps_are_rfc3339() {
    assert_eq!(parse("1970-01-01T00:00:00Z", &timestamp()), Ok(product(AlgebraicValue::I64(0))));
    assert_eq!(
        parse("2025-02-10T15:45:30Z", &timestamp()),
        Ok(product(AlgebraicValue::I64(1_739_202_330_000_000)))
    );
    assert_eq!(
        parse("2025-02-10 16:45:30.000001+01:00", &timestamp()),
        Ok(product(AlgebraicValue::I64(1_739_202_330_000_001)))
    );
    assert_eq!(parse("1969-12-31T23:59:59Z", &timestamp()), Ok(product(AlgebraicValue::I64(-1_000_000))));
    assert_eq!(parse("yesterday", &timestamp()), Err(LiteralError::Timestamp(TIMESTAMP_FORMAT.to_string())));
    assert_eq!(timestamp_literal(Ok(5)), Ok(product(AlgebraicValue::I64(5))));
    assert_eq!(timestamp_literal(Err("why".to_string())), Err(LiteralError::Timestamp("why".to_string())));
}

#[test]
fn bytes_are_hexadecimal() {
    let array = |bytes: Vec<u8>| Ok(AlgebraicValue::Array(ArrayValue::U8(bytes)));
    assert_eq!(parse("0xff00", &bytes()), array(vec![255, 0]));
    assert_eq!(parse("Ff0a", &bytes()), array(vec![255, 10]));
    assert_eq!(parse("X'10", &bytes()), array(vec![16]));
    assert_eq!(parse("", &bytes()), array(vec![]));
    assert_eq!(parse("0x", &bytes()), array(vec![]));
    assert_eq!(parse("0xf", &bytes()), Err(LiteralError::Hex));
    assert_eq!(parse("0xfg", &bytes()), Err(LiteralError::Hex));
    assert_eq!(parse("X'10'", &bytes()), Err(LiteralError::Hex));
    assert_eq!(parse("\u{e9}", &bytes()), Err(LiteralError::Hex));
}

#[test]
fn identities_are_big_endian() {
    let text = "0x0000000000000000000000000000000100000000000000000000000000000002";
    assert_eq!(parse(text, &identity()), Ok(product(AlgebraicValue::U256(U256 { hi: 1, lo: 2 }))));
    assert_eq!(parse(&text[2..], &identity()), Ok(product(AlgebraicValue::U256(U256 { hi: 1, lo: 2 }))));
    assert_eq!(parse("0x01", &identity()), Err(LiteralError::Identity));
    assert_eq!(parse(&text[4..], &identity()), Err(LiteralError::Identity));
}

#[test]
fn connection_ids_are_big_endian() {
    let text = "0x00000000000000000000000000000103";
    assert_eq!(parse(text, &connection_id()), Ok(product(AlgebraicValue::U128(259))));
    assert_eq!(parse("0x0103", &connection_id()), Err(LiteralError::ConnectionId));
}

#[test]
fn simple_enums_are_named() {
    let ty = sum(vec![("red", unit()), ("green", unit()), ("red", unit())]);
    assert_eq!(parse("red", &ty), Ok(AlgebraicValue::enum_simple(0)));
    assert_eq!(parse("green", &ty), Ok(AlgebraicValue::enum_simple(1)));
    assert_eq!(parse("blue", &ty), Err(LiteralError::NotValid("blue".to_string(), ty.clone())));
}

#[test]
fn the_tag_of_a_variant_is_its_low_byte() {
    let names: Vec<String> = (0..300).map(|i| format!("v{i}")).collect();
    let ty = sum(names.iter().map(|n| (n.as_str(), unit())).collect());
    assert_eq!(parse("v255", &ty), Ok(AlgebraicValue::enum_simple(255)));
    assert_eq!(parse("v258", &ty), Ok(AlgebraicValue::enum_simple(2)));
}

#[test]
fn other_types_have_no_literals() {
    let option = sum(vec![("some", AlgebraicType::I8), ("none", unit())]);
    for ty in [AlgebraicType::Bool, unit(), option, newtype("x", AlgebraicType::U128), AlgebraicType::Ref(3)] {
        assert_eq!(parse("1", &ty), Err(LiteralError::NotSupported(ty.clone())));
    }
}

#[test]
fn one_number_at_every_integer_type() {
    assert_eq!(parse("100", &AlgebraicType::I8), Ok(AlgebraicValue::I8(100)));
    assert_eq!(parse("100", &AlgebraicType::U128), Ok(AlgebraicValue::U128(100)));
    assert_eq!(parse("100", &AlgebraicType::U256), Ok(AlgebraicValue::U256(U256 { hi: 0, lo: 100 })));
}
