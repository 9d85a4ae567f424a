use spacetimedb_expr::literal::{parse, parse_float};
use spacetimedb_expr::names::name_of;
use spacetimedb_expr::ty::{AlgebraicType, ArrayType, ProductType, ProductTypeElement, SumType, SumTypeVariant};
use spacetimedb_expr::value::AlgebraicValue;
use spacetimedb_sats as sats;
use spacetimedb_sats::algebraic_type::fmt::fmt_algebraic_type;

fn newtype(t: &sats::AlgebraicType, inner: AlgebraicType) -> AlgebraicType {
    let pt = t.as_product().unwrap();
    AlgebraicType::Product(ProductType {
        elements: vec![ProductTypeElement {
            name: pt.elements[0].name.as_ref().map(|name| name.to_string()),
            algebraic_type: inner,
        }],
    })
}

#[test]
fn special_types_have_the_tags_of_the_database() {
    let identity = newtype(&sats::AlgebraicType::identity(), AlgebraicType::U256);
    let connection_id = newtype(&sats::AlgebraicType::connection_id(), AlgebraicType::U128);
    let timestamp = newtype(&sats::AlgebraicType::timestamp(), AlgebraicType::I64);
    assert!(identity.is_identity() && !identity.is_connection_id() && !identity.is_timestamp());
    assert!(connection_id.is_connection_id() && !connection_id.is_identity());
    assert!(timestamp.is_timestamp() && !timestamp.is_identity());
    assert!(!newtype(&sats::AlgebraicType::identity(), AlgebraicType::U128).is_identity());
    assert!(!newtype(&sats::AlgebraicType::timestamp(), AlgebraicType::U64).is_timestamp());
}

#[test]
fn simple_types() {
    assert!(AlgebraicType::Product(ProductType::unit()).is_unit());
    assert!(!AlgebraicType::U8.is_unit());
    let bytes = AlgebraicType::Array(ArrayType { elem_ty: Box::new(AlgebraicType::U8) });
    assert!(bytes.is_bytes());
    assert!(!AlgebraicType::Array(ArrayType { elem_ty: Box::new(AlgebraicType::I8) }).is_bytes());
    assert!(AlgebraicType::I256.is_integer() && !AlgebraicType::F32.is_integer());
    assert!(AlgebraicType::F32.is_float() && AlgebraicType::String.is_string() && AlgebraicType::Bool.is_bool());
    assert!(!AlgebraicType::Bool.is_simple_enum());
}

/// The message, which names the type as the database does.
fn message(text: &str, ty: &AlgebraicType, named: &sats::AlgebraicType) -> String {
    let e = parse(text, ty).unwrap_err();
    assert_eq!(e.message(), e.message_with(&fmt_algebraic_type(named).to_string()));
    e.message()
}

#[test]
fn messages() {
    let (i8, f32) = (sats::AlgebraicType::I8, sats::AlgebraicType::F32);
    assert_eq!(message("1.5", &AlgebraicType::I8, &i8), "1.5 is not an integer");
    assert_eq!(message("x", &AlgebraicType::I8, &i8), "x is not an integer");
    assert_eq!(message("128", &AlgebraicType::I8, &i8), "128 is out of bounds for type I8");
    assert_eq!(message("x", &AlgebraicType::F32, &f32), "x is not a valid F32");
    assert_eq!(
        message("x", &AlgebraicType::Bool, &sats::AlgebraicType::Bool),
        "Literal values for type Bool are not supported"
    );
    let (named, id) = (sats::AlgebraicType::timestamp(), sats::AlgebraicType::identity());
    assert_eq!(
        message("x", &newtype(&named, AlgebraicType::I64), &named),
        "Invalid timestamp format. Expected RFC 3339 format (e.g. '2025-02-10 15:45:30')."
    );
    assert_eq!(message("x", &newtype(&id, AlgebraicType::U256), &id), "Could not parse identity");
    let id = sats::AlgebraicType::connection_id();
    assert_eq!(message("x", &newtype(&id, AlgebraicType::U128), &id), "Could not parse connection id");
    let bytes = AlgebraicType::Array(ArrayType { elem_ty: Box::new(AlgebraicType::U8) });
    assert_eq!(message("x", &bytes, &sats::AlgebraicType::bytes()), "Could not parse hex value");
    assert!(parse("x", &bytes).unwrap_err().ty().is_none());
    assert!(parse("128", &AlgebraicType::I8).unwrap_err().ty() == Some(&AlgebraicType::I8));
}

#[test]
fn names_of_types() {
    let elem = |name: Option<&str>, ty| ProductTypeElement { name: name.map(str::to_string), algebraic_type: ty };
    let variant = |name: Option<&str>, ty| SumTypeVariant { name: name.map(str::to_string), algebraic_type: ty };
    let unit = || AlgebraicType::Product(ProductType::unit());
    for (ty, name) in [
        (AlgebraicType::I8, "I8"),
        (AlgebraicType::U8, "U8"),
        (AlgebraicType::I16, "I16"),
        (AlgebraicType::U16, "U16"),
        (AlgebraicType::I32, "I32"),
        (AlgebraicType::U32, "U32"),
        (AlgebraicType::I64, "I64"),
        (AlgebraicType::U64, "U64"),
        (AlgebraicType::I128, "I128"),
        (AlgebraicType::U128, "U128"),
        (AlgebraicType::I256, "I256"),
        (AlgebraicType::U256, "U256"),
        (AlgebraicType::F32, "F32"),
        (AlgebraicType::F64, "F64"),
        (AlgebraicType::Bool, "Bool"),
        (AlgebraicType::String, "String"),
        (AlgebraicType::Ref(42), "&42"),
        (AlgebraicType::Array(ArrayType { elem_ty: Box::new(AlgebraicType::U8) }), "Array<U8>"),
        (unit(), "()"),
        (
            AlgebraicType::Product(ProductType {
                elements: vec![elem(Some("x"), AlgebraicType::I8), elem(None, AlgebraicType::String)],
            }),
            "(x: I8, 1: String)",
        ),
        (AlgebraicType::Sum(SumType { variants: vec![] }), "(|)"),
        (
            AlgebraicType::Sum(SumType { variants: vec![variant(Some("a"), unit()), variant(None, AlgebraicType::F64)] }),
            "(a: () | F64)",
        ),
    ] {
        assert_eq!(name_of(&ty), name);
    }
    let ty = AlgebraicType::Sum(SumType { variants: vec![variant(Some("a"), unit())] });
    assert_eq!(parse("b", &ty).unwrap_err().message(), "b is not a valid (a: ())");
}

#[test]
fn every_notation_of_decimals() {
    let read = |text: &str| match parse_float(text, &AlgebraicType::F64) {
        Ok(AlgebraicValue::F64(d)) => Some((d.unscaled, d.scale)),
        _ => None,
    };
    for (text, unscaled, scale) in [
        ("007", "7", 0),
        ("-0", "0", 0),
        ("1_000__0_", "10000", 0),
        ("1_0.2_5_", "1025", 2),
        ("1._5", "15", 1),
        ("1._", "1", 0),
        (".5", "5", 1),
        ("-.5", "-5", 1),
        ("+.5", "5", 1),
        (".-5", "-5", 2),
        ("5.", "5", 0),
        ("5.e-2", "5", 2),
        ("2.50E+1", "250", 1),
        ("1e-0", "1", 0),
        ("1e9223372036854775808", "1", i64::MIN),
        ("1e-9223372036854775807", "1", i64::MAX),
    ] {
        assert_eq!(read(text), Some((unscaled.to_string(), scale)), "{text}");
    }
    for text in [
        ".", "..", "1.2.3", "1..2", "_1", "-_1", "._5", "1e", "1e+", "1e1.0", "1e1_0", "1e1e1", "e1", "-e1", "--1",
        "-+1", "+-1", "++1", "-", "+", "1-", "1.-5", "1e9223372036854775809", "1e-9223372036854775808",
        "1e999999999999999999999999999999999999999999",
    ] {
        assert_eq!(read(text), None, "{text}");
    }
}
