use spacetimedb_expr::ast::{BinOp, LogOp, Parameter, Project, ProjectElem, ProjectExpr, SqlExpr, SqlIdent, SqlLiteral};
use spacetimedb_expr::errors::{
    DuplicateName, InvalidLiteral, InvalidOp, InvalidWildcard, TypingError, UnexpectedArrayType, UnexpectedType,
    Unresolved,
};
use spacetimedb_expr::expr::{AggType, Expr, FieldProject, LeftDeepJoin, ProjectList, ProjectName, RelExpr, Relvar};
use spacetimedb_expr::schema::{ColumnSchema, Relvars, TableSchema};
use spacetimedb_expr::statement::Statement;
use spacetimedb_expr::ty::{AlgebraicType, ArrayType, ProductType, ProductTypeElement, SumType, SumTypeVariant};
use spacetimedb_expr::typing::{op_supports_type, type_expr, type_limit, type_proj, type_select};
use spacetimedb_expr::value::{AlgebraicValue, ArrayValue};
use spacetimedb_expr::{StatementCtx, StatementSource};

fn pair() -> AlgebraicType {
    let element = |name: &str, algebraic_type| ProductTypeElement { name: Some(name.to_string()), algebraic_type };
    AlgebraicType::Product(ProductType {
        elements: vec![element("x", AlgebraicType::I8), element("y", AlgebraicType::String)],
    })
}

fn strings() -> AlgebraicType {
    AlgebraicType::Array(ArrayType { elem_ty: Box::new(AlgebraicType::String) })
}

fn table() -> TableSchema {
    let column = |col_name: &str, col_pos, col_type| ColumnSchema { col_name: col_name.to_string(), col_pos, col_type };
    TableSchema {
        table_name: "person".to_string(),
        columns: vec![
            column("id", 0, AlgebraicType::U32),
            column("name", 1, AlgebraicType::String),
            column("active", 2, AlgebraicType::Bool),
            column("pos", 3, pair()),
            column("tags", 4, strings()),
            column("age", 5, AlgebraicType::U32),
        ],
    }
}

fn vars() -> Relvars {
    let mut vars = Relvars::new();
    vars.insert("p".to_string(), table());
    vars
}

fn ident(name: &str) -> SqlIdent {
    SqlIdent(name.to_string())
}

fn col(name: &str) -> SqlExpr {
    SqlExpr::Field(ident("p"), ident(name))
}

fn num(text: &str) -> SqlExpr {
    SqlExpr::Lit(SqlLiteral::Num(text.to_string()))
}

fn text(text: &str) -> SqlExpr {
    SqlExpr::Lit(SqlLiteral::Str(text.to_string()))
}

fn bin(a: SqlExpr, op: BinOp, b: SqlExpr) -> SqlExpr {
    SqlExpr::Bin(Box::new(a), Box::new(b), op)
}

fn log(a: SqlExpr, op: LogOp, b: SqlExpr) -> SqlExpr {
    SqlExpr::Log(Box::new(a), Box::new(b), op)
}

fn field(field: usize, ty: AlgebraicType) -> FieldProject {
    FieldProject { table: "p".to_string(), field, ty }
}

fn unexpected<T>(expected: AlgebraicType, inferred: AlgebraicType) -> Result<T, TypingError> {
    Err(TypingError::UnexpectedType(UnexpectedType { expected, inferred }))
}

fn unresolved_literal<T>() -> Result<T, TypingError> {
    Err(TypingError::Unresolved(Unresolved::Literal))
}

fn unresolved_var<T>(name: &str) -> Result<T, TypingError> {
    Err(TypingError::Unresolved(Unresolved::Var(name.to_string())))
}

fn invalid<T>(literal: &str, expected: AlgebraicType) -> Result<T, TypingError> {
    Err(TypingError::InvalidLiteral(InvalidLiteral { literal: literal.to_string(), expected }))
}

fn u32_value(v: u32) -> Expr {
    Expr::Value(AlgebraicValue::U32(v), AlgebraicType::U32)
}

fn person() -> RelExpr {
    RelExpr::RelVar(Relvar { schema: table(), alias: "p".to_string() })
}

fn join() -> LeftDeepJoin {
    LeftDeepJoin { lhs: Box::new(person()), rhs: Relvar { schema: table(), alias: "q".to_string() } }
}

#[test]
fn boolean_literals() {
    let lit = || SqlExpr::Lit(SqlLiteral::Bool(true));
    let t = Expr::Value(AlgebraicValue::Bool(true), AlgebraicType::Bool);
    assert_eq!(type_expr(&vars(), lit(), None), Ok(t));
    let t = Expr::Value(AlgebraicValue::Bool(true), AlgebraicType::Bool);
    assert_eq!(type_expr(&vars(), lit(), Some(&AlgebraicType::Bool)), Ok(t));
    assert_eq!(
        type_expr(&vars(), lit(), Some(&AlgebraicType::U8)),
        unexpected(AlgebraicType::Bool, AlgebraicType::U8)
    );
}

#[test]
fn literals_need_a_type() {
    let vars = vars();
    assert_eq!(type_expr(&vars, num("1"), None), unresolved_literal());
    assert_eq!(type_expr(&vars, text("a"), None), unresolved_literal());
    assert_eq!(type_expr(&vars, SqlExpr::Lit(SqlLiteral::Hex("0x1".to_string())), None), unresolved_literal());
    assert_eq!(type_expr(&vars, SqlExpr::Lit(SqlLiteral::Arr(vec![])), None), unresolved_literal());
    assert_eq!(type_expr(&vars, SqlExpr::Tup(vec![]), None), unresolved_literal());
    assert_eq!(type_expr(&vars, bin(num("1"), BinOp::Eq, num("1")), None), unresolved_literal());
    assert_eq!(type_expr(&vars, num("1"), Some(&AlgebraicType::U32)), Ok(u32_value(1)));
    assert_eq!(type_expr(&vars, num("-1"), Some(&AlgebraicType::U32)), invalid("-1", AlgebraicType::U32));
    assert_eq!(type_expr(&vars, num("1"), Some(&AlgebraicType::Bool)), invalid("1", AlgebraicType::Bool));
    assert_eq!(
        type_expr(&vars, SqlExpr::Lit(SqlLiteral::Arr(vec![])), Some(&strings())),
        Err(TypingError::UnexpectedArrayType(UnexpectedArrayType { expected: strings() }))
    );
}

#[test]
fn tuples() {
    let vars = vars();
    let tup = || SqlExpr::Tup(vec![SqlLiteral::Num("7".to_string()), SqlLiteral::Str("a".to_string())]);
    let seven = || AlgebraicValue::I8(7);
    assert_eq!(
        type_expr(&vars, tup(), Some(&pair())),
        Ok(Expr::Tuple(vec![seven(), AlgebraicValue::String("a".to_string())], pair()))
    );
    assert_eq!(
        type_expr(&vars, tup(), Some(&AlgebraicType::U8)),
        unexpected(AlgebraicType::Product(ProductType::unit()), AlgebraicType::U8)
    );
    let short = SqlExpr::Tup(vec![SqlLiteral::Num("7".to_string())]);
    assert_eq!(type_expr(&vars, short, Some(&pair())), Ok(Expr::Tuple(vec![seven()], pair())));
    let long = SqlExpr::Tup(vec![
        SqlLiteral::Num("7".to_string()),
        SqlLiteral::Str("a".to_string()),
        SqlLiteral::Num("x".to_string()),
    ]);
    assert_eq!(
        type_expr(&vars, long, Some(&pair())),
        Ok(Expr::Tuple(vec![seven(), AlgebraicValue::String("a".to_string())], pair()))
    );
    let wrong = SqlExpr::Tup(vec![SqlLiteral::Bool(true), SqlLiteral::Num("x".to_string())]);
    assert_eq!(type_expr(&vars, wrong, Some(&pair())), unexpected(AlgebraicType::Bool, AlgebraicType::I8));
    let wrong = SqlExpr::Tup(vec![SqlLiteral::Num("700".to_string())]);
    assert_eq!(type_expr(&vars, wrong, Some(&pair())), invalid("700", AlgebraicType::I8));
    let wrong = SqlExpr::Tup(vec![SqlLiteral::Arr(vec![])]);
    assert_eq!(
        type_expr(&vars, wrong, Some(&pair())),
        Err(TypingError::UnexpectedArrayType(UnexpectedArrayType { expected: AlgebraicType::I8 }))
    );
}

#[test]
fn arrays_in_tuples() {
    let vars = vars();
    let ty = || {
        AlgebraicType::Product(ProductType {
            elements: vec![
                ProductTypeElement { name: None, algebraic_type: strings() },
                ProductTypeElement { name: None, algebraic_type: AlgebraicType::Bool },
            ],
        })
    };
    let good = SqlExpr::Tup(vec![
        SqlLiteral::Arr(vec![SqlLiteral::Str("a".to_string())]),
        SqlLiteral::Bool(false),
    ]);
    assert_eq!(
        type_expr(&vars, good, Some(&ty())),
        Ok(Expr::Tuple(
            vec![
                AlgebraicValue::Array(ArrayValue::String(vec!["a".to_string()])),
                AlgebraicValue::Bool(false)
            ],
            ty()
        ))
    );
    let bad = SqlExpr::Tup(vec![SqlLiteral::Arr(vec![SqlLiteral::Bool(true)])]);
    assert_eq!(type_expr(&vars, bad, Some(&ty())), invalid("[\u{2026}]", AlgebraicType::String));
}

#[test]
fn columns() {
    let vars = vars();
    assert_eq!(type_expr(&vars, col("name"), None), Ok(Expr::Field(field(1, AlgebraicType::String))));
    assert_eq!(
        type_expr(&vars, col("name"), Some(&AlgebraicType::String)),
        Ok(Expr::Field(field(1, AlgebraicType::String)))
    );
    assert_eq!(
        type_expr(&vars, col("name"), Some(&AlgebraicType::Bool)),
        unexpected(AlgebraicType::String, AlgebraicType::Bool)
    );
    assert_eq!(type_expr(&vars, col("nobody"), None), unresolved_var("nobody"));
    assert_eq!(type_expr(&vars, SqlExpr::Field(ident("q"), ident("nobody")), None), unresolved_var("q"));
    assert_eq!(type_expr(&vars, col("pos"), Some(&pair())), Ok(Expr::Field(field(3, pair()))));
}

#[test]
fn comparisons() {
    let vars = vars();
    let id = || Box::new(Expr::Field(field(0, AlgebraicType::U32)));
    let five = || Box::new(u32_value(5));
    assert_eq!(
        type_expr(&vars, bin(col("id"), BinOp::Lt, num("5")), None),
        Ok(Expr::BinOp(BinOp::Lt, id(), five()))
    );
    assert_eq!(
        type_expr(&vars, bin(num("5"), BinOp::Lt, col("id")), Some(&AlgebraicType::Bool)),
        Ok(Expr::BinOp(BinOp::Lt, five(), id()))
    );
    assert_eq!(
        type_expr(&vars, bin(col("id"), BinOp::Eq, col("age")), None),
        Ok(Expr::BinOp(BinOp::Eq, id(), Box::new(Expr::Field(field(5, AlgebraicType::U32)))))
    );
    assert_eq!(
        type_expr(&vars, bin(col("id"), BinOp::Eq, col("name")), None),
        unexpected(AlgebraicType::String, AlgebraicType::U32)
    );
    assert_eq!(
        type_expr(&vars, bin(col("id"), BinOp::Eq, text("x")), None),
        invalid("x", AlgebraicType::U32)
    );
    assert_eq!(
        type_expr(&vars, bin(text("x"), BinOp::Eq, col("id")), None),
        invalid("x", AlgebraicType::U32)
    );
    assert_eq!(
        type_expr(&vars, bin(col("id"), BinOp::Lt, num("5")), Some(&AlgebraicType::U32)),
        unexpected(AlgebraicType::Bool, AlgebraicType::U32)
    );
}

#[test]
fn operators_and_types() {
    let vars = vars();
    let tup = || SqlExpr::Tup(vec![SqlLiteral::Num("7".to_string()), SqlLiteral::Str("a".to_string())]);
    assert!(type_expr(&vars, bin(col("pos"), BinOp::Eq, tup()), None).is_ok());
    assert_eq!(
        type_expr(&vars, bin(col("pos"), BinOp::Lt, tup()), None),
        Err(TypingError::InvalidOp(InvalidOp { op: BinOp::Lt, ty: pair() }))
    );
    assert_eq!(
        type_expr(&vars, bin(col("tags"), BinOp::Eq, col("tags")), None),
        Err(TypingError::InvalidOp(InvalidOp { op: BinOp::Eq, ty: strings() }))
    );
    let simple = AlgebraicType::Sum(SumType {
        variants: vec![SumTypeVariant {
            name: Some("a".to_string()),
            algebraic_type: AlgebraicType::Product(ProductType::unit()),
        }],
    });
    let option = AlgebraicType::Sum(SumType {
        variants: vec![SumTypeVariant { name: Some("a".to_string()), algebraic_type: AlgebraicType::U8 }],
    });
    assert!(op_supports_type(BinOp::Eq, &simple));
    assert!(op_supports_type(BinOp::Ne, &simple));
    assert!(!op_supports_type(BinOp::Gte, &simple));
    assert!(!op_supports_type(BinOp::Eq, &option));
    for op in [BinOp::Eq, BinOp::Ne, BinOp::Lt, BinOp::Gt, BinOp::Lte, BinOp::Gte] {
        for ty in [AlgebraicType::Bool, AlgebraicType::I256, AlgebraicType::F32, AlgebraicType::String] {
            assert!(op_supports_type(op, &ty));
        }
        assert!(!op_supports_type(op, &AlgebraicType::Ref(0)));
        assert!(!op_supports_type(op, &strings()));
        let bytes = AlgebraicType::Array(ArrayType { elem_ty: Box::new(AlgebraicType::U8) });
        assert!(op_supports_type(op, &bytes));
    }
}

#[test]
fn logic() {
    let vars = vars();
    let active = || Box::new(Expr::Field(field(2, AlgebraicType::Bool)));
    let lit = || SqlExpr::Lit(SqlLiteral::Bool(false));
    assert_eq!(
        type_expr(&vars, log(col("active"), LogOp::And, lit()), None),
        Ok(Expr::LogOp(LogOp::And, active(), Box::new(Expr::bool(false))))
    );
    assert_eq!(
        type_expr(&vars, log(col("active"), LogOp::Or, col("id")), None),
        unexpected(AlgebraicType::U32, AlgebraicType::Bool)
    );
    assert_eq!(
        type_expr(&vars, log(col("active"), LogOp::Or, lit()), Some(&AlgebraicType::U32)),
        unexpected(AlgebraicType::Bool, AlgebraicType::U32)
    );
}

#[test]
fn inferred_and_expected_types_agree() {
    let vars = vars();
    let expr = || bin(col("id"), BinOp::Gte, num("1e2"));
    let inferred = type_expr(&vars, expr(), None).unwrap();
    assert_eq!(inferred.ty(), &AlgebraicType::Bool);
    assert_eq!(type_expr(&vars, expr(), Some(&AlgebraicType::Bool)), Ok(inferred));
}

#[test]
fn selections() {
    let vars = vars();
    let predicate = || bin(col("id"), BinOp::Eq, num("5"));
    assert_eq!(
        type_select(person(), predicate(), &vars),
        Ok(RelExpr::Select(
            Box::new(person()),
            Expr::BinOp(
                BinOp::Eq,
                Box::new(Expr::Field(field(0, AlgebraicType::U32))),
                Box::new(u32_value(5))
            )
        ))
    );
    assert_eq!(
        type_select(person(), col("id"), &vars),
        unexpected(AlgebraicType::U32, AlgebraicType::Bool)
    );
}

#[test]
fn limits() {
    let list = || ProjectList::Name(vec![ProjectName::Only(person())]);
    assert_eq!(type_limit(list(), "10"), Ok(ProjectList::Limit(Box::new(list()), 10)));
    assert_eq!(type_limit(list(), "1e3"), Ok(ProjectList::Limit(Box::new(list()), 1000)));
    assert_eq!(
        type_limit(list(), "18446744073709551615"),
        Ok(ProjectList::Limit(Box::new(list()), u64::MAX))
    );
    for text in ["-1", "x", "1.5", "18446744073709551616"] {
        assert_eq!(type_limit(list(), text), invalid(text, AlgebraicType::U64));
    }
}

#[test]
fn wildcards() {
    let vars = vars();
    assert_eq!(
        type_proj(person(), Project::Star(None), &vars),
        Ok(ProjectList::Name(vec![ProjectName::Only(person())]))
    );
    let filtered = || RelExpr::Select(Box::new(person()), Expr::bool(true));
    assert_eq!(
        type_proj(filtered(), Project::Star(None), &vars),
        Ok(ProjectList::Name(vec![ProjectName::Only(filtered())]))
    );
    let joined = || RelExpr::LeftDeepJoin(join());
    assert_eq!(
        type_proj(joined(), Project::Star(None), &vars),
        Err(TypingError::InvalidWildcard(InvalidWildcard::Join))
    );
    assert_eq!(
        type_proj(joined(), Project::Star(Some(ident("p"))), &vars),
        Ok(ProjectList::Name(vec![ProjectName::Named(joined(), "p".to_string())]))
    );
    let eq = || RelExpr::EqJoin(join(), field(0, AlgebraicType::U32), field(5, AlgebraicType::U32));
    assert_eq!(
        type_proj(eq(), Project::Star(Some(ident("q"))), &vars),
        Ok(ProjectList::Name(vec![ProjectName::Named(eq(), "q".to_string())]))
    );
    assert_eq!(type_proj(eq(), Project::Star(Some(ident("r"))), &vars), unresolved_var("r"));
    assert_eq!(
        type_proj(eq(), Project::Star(None), &vars),
        Err(TypingError::InvalidWildcard(InvalidWildcard::Join))
    );
}

#[test]
fn counts() {
    assert_eq!(
        type_proj(person(), Project::Count(ident("n")), &vars()),
        Ok(ProjectList::Agg(vec![person()], AggType::Count, "n".to_string(), AlgebraicType::U64))
    );
}

#[test]
fn select_lists() {
    let vars = vars();
    let elem = |name: &str, alias: &str| ProjectElem(ProjectExpr::Field(ident("p"), ident(name)), ident(alias));
    assert_eq!(
        type_proj(person(), Project::Exprs(vec![elem("name", "b"), elem("id", "a"), elem("id", "c")]), &vars),
        Ok(ProjectList::List(
            vec![person()],
            vec![
                ("b".to_string(), field(1, AlgebraicType::String)),
                ("a".to_string(), field(0, AlgebraicType::U32)),
                ("c".to_string(), field(0, AlgebraicType::U32)),
            ]
        ))
    );
    assert_eq!(
        type_proj(person(), Project::Exprs(vec![elem("name", "a"), elem("nobody", "a")]), &vars),
        Err(TypingError::DuplicateName(DuplicateName("a".to_string())))
    );
    assert_eq!(
        type_proj(person(), Project::Exprs(vec![elem("nobody", "a"), elem("name", "a")]), &vars),
        unresolved_var("nobody")
    );
    assert_eq!(
        type_proj(person(), Project::Exprs(vec![]), &vars),
        Ok(ProjectList::List(vec![person()], vec![]))
    );
}

#[test]
fn resolution() {
    assert!(bin(col("id"), BinOp::Eq, num("1")).resolved());
    assert!(!bin(col("id"), BinOp::Eq, SqlExpr::Var(ident("x"))).resolved());
    assert!(!log(SqlExpr::Param(Parameter::Sender), LogOp::Or, col("id")).resolved());
    assert!(Project::Star(None).resolved());
    assert!(!Project::Exprs(vec![ProjectElem(ProjectExpr::Var(ident("x")), ident("x"))]).resolved());
    assert!(Project::Exprs(vec![ProjectElem(ProjectExpr::Field(ident("p"), ident("x")), ident("x"))]).resolved());
}

#[test]
fn types_are_compared_with_their_names() {
    assert!(pair() == pair());
    assert!(pair() != strings());
    let unnamed = AlgebraicType::Product(ProductType {
        elements: vec![
            ProductTypeElement { name: None, algebraic_type: AlgebraicType::I8 },
            ProductTypeElement { name: None, algebraic_type: AlgebraicType::String },
        ],
    });
    assert!(unnamed != pair());
    assert!(unnamed.clone() == unnamed);
}

#[test]
fn statement_contexts() {
    let list = ProjectList::Name(vec![ProjectName::Only(person())]);
    let ctx = StatementCtx {
        statement: Statement::Select(list),
        sql: "select * from person",
        source: StatementSource::Query,
    };
    assert_eq!(ctx.sql, "select * from person");
    assert!(matches!(ctx.statement, Statement::Select(ProjectList::Name(_))));
    assert!(matches!(ctx.source, StatementSource::Query));
    assert!(!matches!(ctx.source, StatementSource::Subscription));
}
