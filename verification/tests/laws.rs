use spacetimedb_expr::ast::{BinOp, LogOp, SqlExpr, SqlIdent, SqlLiteral};
use spacetimedb_expr::errors::{LiteralError, TypingError, Unresolved};
use spacetimedb_expr::expr::Expr;
use spacetimedb_expr::literal::{parse, parse_float};
use spacetimedb_expr::schema::{ColumnSchema, Relvars, TableSchema};
use spacetimedb_expr::ty::{
    AlgebraicType, ArrayType, ProductType, ProductTypeElement, SumType, SumTypeVariant, CONNECTION_ID_TAG,
};
use spacetimedb_expr::typing::type_expr;
use spacetimedb_expr::value::{AlgebraicValue, ArrayValue};

fn table(name: &str) -> TableSchema {
    TableSchema {
        table_name: name.to_string(),
        columns: vec![ColumnSchema { col_name: "x".to_string(), col_pos: 0, col_type: AlgebraicType::U8 }],
    }
}

fn scope(names: &[&str]) -> Relvars {
    let mut vars = Relvars::new();
    for name in names {
        vars.insert(name.to_string(), table(name));
    }
    vars
}

fn column(table: &str) -> SqlExpr {
    SqlExpr::Field(SqlIdent(table.to_string()), SqlIdent("x".to_string()))
}

fn equals(table: &str, text: &str) -> SqlExpr {
    let lit = SqlExpr::Lit(SqlLiteral::Num(text.to_string()));
    SqlExpr::Bin(Box::new(column(table)), Box::new(lit), BinOp::Eq)
}

#[test]
fn more_tables_change_nothing() {
    let few = type_expr(&scope(&["a"]), equals("a", "1"), None);
    let many = type_expr(&scope(&["a", "b", "c"]), equals("a", "1"), None);
    assert!(few.is_ok());
    assert_eq!(few, many);
}

#[test]
fn both_sides_of_a_logical_operator_are_predicates() {
    let vars = scope(&["a"]);
    for op in [LogOp::And, LogOp::Or] {
        let both = SqlExpr::Log(Box::new(equals("a", "1")), Box::new(equals("a", "2")), op);
        let x = type_expr(&vars, equals("a", "1"), Some(&AlgebraicType::Bool)).unwrap();
        let y = type_expr(&vars, equals("a", "2"), Some(&AlgebraicType::Bool)).unwrap();
        assert_eq!(type_expr(&vars, both, None), Ok(Expr::LogOp(op, Box::new(x), Box::new(y))));
        let column_left = SqlExpr::Log(Box::new(column("a")), Box::new(equals("a", "2")), op);
        assert!(type_expr(&vars, column_left, None).is_err());
        let column_right = SqlExpr::Log(Box::new(equals("a", "2")), Box::new(column("a")), op);
        assert!(type_expr(&vars, column_right, None).is_err());
    }
}

#[test]
fn the_text_of_a_literal_decides() {
    let vars = scope(&[]);
    for text in ["12", "300", "0x1f", "abc"] {
        for ty in [AlgebraicType::U8, AlgebraicType::String, AlgebraicType::F64] {
            let str = type_expr(&vars, SqlExpr::Lit(SqlLiteral::Str(text.to_string())), Some(&ty));
            let num = type_expr(&vars, SqlExpr::Lit(SqlLiteral::Num(text.to_string())), Some(&ty));
            let hex = type_expr(&vars, SqlExpr::Lit(SqlLiteral::Hex(text.to_string())), Some(&ty));
            assert_eq!(str, num);
            assert_eq!(str, hex);
        }
    }
}

#[test]
fn two_literals_are_not_compared() {
    let one = || Box::new(SqlExpr::Lit(SqlLiteral::Num("1".to_string())));
    let yes = || Box::new(SqlExpr::Lit(SqlLiteral::Bool(true)));
    let vars = scope(&[]);
    let refused = Err(TypingError::Unresolved(Unresolved::Literal));
    assert_eq!(type_expr(&vars, SqlExpr::Bin(one(), one(), BinOp::Eq), None), refused);
    assert_eq!(type_expr(&vars, SqlExpr::Bin(yes(), one(), BinOp::Eq), Some(&AlgebraicType::Bool)), refused);
    assert!(type_expr(&vars, SqlExpr::Bin(yes(), yes(), BinOp::Eq), None).is_ok());
}

#[test]
fn names_of_variants_denote_their_tags() {
    let variant = |name: &str| SumTypeVariant {
        name: Some(name.to_string()),
        algebraic_type: AlgebraicType::Product(ProductType::unit()),
    };
    let ty = AlgebraicType::Sum(SumType { variants: vec![variant("a"), variant("b"), variant("a"), variant("c")] });
    assert_eq!(parse("a", &ty), Ok(AlgebraicValue::enum_simple(0)));
    assert_eq!(parse("b", &ty), Ok(AlgebraicValue::enum_simple(1)));
    assert_eq!(parse("c", &ty), Ok(AlgebraicValue::enum_simple(3)));
}

#[test]
fn prefixes_of_hexadecimal_texts() {
    let bytes = AlgebraicType::Array(ArrayType { elem_ty: Box::new(AlgebraicType::U8) });
    let expected = Ok(AlgebraicValue::Array(ArrayValue::U8(vec![0x0a, 0xff])));
    for text in ["0aff", "0x0aFF", "X'0AfF"] {
        assert_eq!(parse(text, &bytes), expected);
    }
    assert_eq!(parse("0x0x0aff", &bytes), Err(LiteralError::Hex));
    let id = AlgebraicType::Product(ProductType {
        elements: vec![ProductTypeElement {
            name: Some(CONNECTION_ID_TAG.to_string()),
            algebraic_type: AlgebraicType::U128,
        }],
    });
    let digits = "000102030405060708090a0b0c0d0e0f";
    let prefixed = format!("0x{digits}");
    assert!(parse(digits, &id).is_ok());
    assert_eq!(parse(digits, &id), parse(&prefixed, &id));
}

#[test]
fn numbers_as_they_are_written() {
    for text in ["1500", "+1500", "1.5e3", "+1.5E+3", "15000e-1", "1500.", "1500.e0", "0.0015e6", "150000.00e-2"] {
        assert_eq!(parse(text, &AlgebraicType::I32), Ok(AlgebraicValue::I32(1500)), "{text}");
    }
    for text in ["-1500", "-1.5e3", "-1500.00"] {
        assert_eq!(parse(text, &AlgebraicType::I32), Ok(AlgebraicValue::I32(-1500)), "{text}");
    }
    match parse_float("-1.5e3", &AlgebraicType::F64) {
        Ok(AlgebraicValue::F64(d)) => assert_eq!((d.unscaled.as_str(), d.scale), ("-15", -2)),
        other => panic!("{other:?}"),
    }
}

#[test]
fn texts_that_are_no_numbers() {
    for text in ["", "one", "12a", "1 000", "0x10", "1,5", "٣"] {
        assert_eq!(
            parse(text, &AlgebraicType::U64),
            Err(LiteralError::NotAnInteger(text.to_string()))
        );
        assert_eq!(
            parse(text, &AlgebraicType::F32),
            Err(LiteralError::NotValid(text.to_string(), AlgebraicType::F32))
        );
    }
}
