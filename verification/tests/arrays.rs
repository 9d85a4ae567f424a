use spacetimedb_expr::ast::SqlLiteral;
use spacetimedb_expr::decimal::Decimal;
use spacetimedb_expr::errors::{InvalidLiteral, TypingError, UnexpectedArrayType, UnexpectedType};
use spacetimedb_expr::literal::parse_array_value;
use spacetimedb_expr::ty::{AlgebraicType, ArrayType, ProductType};
use spacetimedb_expr::value::{AlgebraicValue, ArrayValue};

fn array(ty: AlgebraicType) -> ArrayType {
    ArrayType { elem_ty: Box::new(ty) }
}

fn num(text: &str) -> SqlLiteral {
    SqlLiteral::Num(text.to_string())
}

fn read(lits: Vec<SqlLiteral>, ty: AlgebraicType) -> Result<AlgebraicValue, TypingError> {
    parse_array_value(&lits, &array(ty))
}

fn ok(value: ArrayValue) -> Result<AlgebraicValue, TypingError> {
    Ok(AlgebraicValue::Array(value))
}

fn decimal(unscaled: &str, scale: i64) -> Decimal {
    Decimal { unscaled: unscaled.to_string(), scale }
}

#[test]
fn arrays_of_integers() {
    let lits = || vec![num("1"), num("2e1"), num("3.0")];
    assert_eq!(read(lits(), AlgebraicType::I8), ok(ArrayValue::I8(vec![1, 20, 3])));
    assert_eq!(read(lits(), AlgebraicType::U8), ok(ArrayValue::U8(vec![1, 20, 3])));
    assert_eq!(read(lits(), AlgebraicType::I16), ok(ArrayValue::I16(vec![1, 20, 3])));
    assert_eq!(read(lits(), AlgebraicType::U16), ok(ArrayValue::U16(vec![1, 20, 3])));
    assert_eq!(read(lits(), AlgebraicType::I32), ok(ArrayValue::I32(vec![1, 20, 3])));
    assert_eq!(read(lits(), AlgebraicType::U32), ok(ArrayValue::U32(vec![1, 20, 3])));
    assert_eq!(read(lits(), AlgebraicType::I128), ok(ArrayValue::I128(vec![1, 20, 3])));
    assert_eq!(read(lits(), AlgebraicType::U128), ok(ArrayValue::U128(vec![1, 20, 3])));
}

#[test]
fn arrays_of_other_types() {
    assert_eq!(
        read(vec![SqlLiteral::Bool(true), SqlLiteral::Bool(false)], AlgebraicType::Bool),
        ok(ArrayValue::Bool(vec![true, false]))
    );
    assert_eq!(
        read(vec![SqlLiteral::Str("a".to_string())], AlgebraicType::String),
        ok(ArrayValue::String(vec!["a".to_string()]))
    );
    assert_eq!(read(vec![num("0.5")], AlgebraicType::F32), ok(ArrayValue::F32(vec![decimal("5", 1)])));
    assert_eq!(read(vec![num("2")], AlgebraicType::F64), ok(ArrayValue::F64(vec![decimal("2", 0)])));
    assert_eq!(read(vec![], AlgebraicType::U32), ok(ArrayValue::U32(vec![])));
}

#[test]
fn types_without_array_literals() {
    for ty in [
        AlgebraicType::I64,
        AlgebraicType::U64,
        AlgebraicType::I256,
        AlgebraicType::U256,
        AlgebraicType::Product(ProductType::unit()),
        AlgebraicType::Array(array(AlgebraicType::I8)),
        AlgebraicType::Ref(0),
    ] {
        assert_eq!(
            read(vec![], ty.clone()),
            Err(TypingError::UnexpectedArrayType(UnexpectedArrayType { expected: ty }))
        );
    }
}

#[test]
fn the_first_error_is_reported() {
    let invalid = |text: &str| {
        Err(TypingError::InvalidLiteral(InvalidLiteral {
            literal: text.to_string(),
            expected: AlgebraicType::U8,
        }))
    };
    assert_eq!(read(vec![num("1"), num("256"), num("x")], AlgebraicType::U8), invalid("256"));
    assert_eq!(read(vec![SqlLiteral::Hex("0xff".to_string())], AlgebraicType::U8), invalid("0xff"));
    assert_eq!(read(vec![SqlLiteral::Hex("12".to_string())], AlgebraicType::U8), ok(ArrayValue::U8(vec![12])));
}

#[test]
fn literals_of_another_kind() {
    let unexpected = |expected: AlgebraicType, inferred: AlgebraicType| {
        Err(TypingError::UnexpectedType(UnexpectedType { expected, inferred }))
    };
    assert_eq!(
        read(vec![SqlLiteral::Str("1".to_string())], AlgebraicType::I8),
        unexpected(AlgebraicType::I8, AlgebraicType::String)
    );
    assert_eq!(
        read(vec![SqlLiteral::Bool(true)], AlgebraicType::F64),
        unexpected(AlgebraicType::F64, AlgebraicType::Bool)
    );
    assert_eq!(
        read(vec![SqlLiteral::Arr(vec![])], AlgebraicType::I8),
        Err(TypingError::UnexpectedArrayType(UnexpectedArrayType { expected: AlgebraicType::I8 }))
    );
    assert_eq!(read(vec![num("1")], AlgebraicType::Bool), unexpected(AlgebraicType::Bool, AlgebraicType::Bool));
    assert_eq!(
        read(vec![num("1")], AlgebraicType::String),
        unexpected(AlgebraicType::String, AlgebraicType::String)
    );
}
