//! What holds of type checking and of literals as a whole.
use vstd::arithmetic::div_mod::*;
use vstd::arithmetic::power::*;
use vstd::prelude::*;

use crate::ast::{BinOp, LogOp, ProjectElem, SqlExpr, SqlLiteral};
use crate::decimal::DecimalView;
use crate::errors::{ErrorView, LiteralErrorView};
use crate::expr::{ExprView, FieldView};
use crate::schema::TableSchema;
use crate::ty::{IntKind, MemberView, TypeView};
use crate::value::ValueView;

verus! {

/// What is expected of an expression is the type that it has.
pub proof fn law_expected_type(
    vars: Map<Seq<char>, TableSchema>,
    expr: SqlExpr,
    expected: TypeView,
)
    requires
        expr.is_resolved(),
    ensures
        crate::typing::expr_typed(vars, expr, Some(expected)) matches Ok(e) ==> e.ty() == expected,
{
}

/// An expression whose type is inferred is also accepted where that type is expected, and gives
/// the same typed expression; where another type is expected, it is refused.
pub proof fn law_inferred_type(
    vars: Map<Seq<char>, TableSchema>,
    expr: SqlExpr,
    expected: TypeView,
)
    requires
        expr.is_resolved(),
        crate::typing::expr_typed(vars, expr, None) is Ok,
    ensures
        ({
            let e = crate::typing::expr_typed(vars, expr, None)->Ok_0;
            crate::typing::expr_typed(vars, expr, Some(expected)) == if e.ty() == expected {
                Ok::<ExprView, ErrorView>(e)
            } else {
                Err(ErrorView::UnexpectedType(e.ty(), expected))
            }
        }),
{
}

/// Nothing but a boolean literal has a type of its own.
pub proof fn law_untyped_literal(vars: Map<Seq<char>, TableSchema>, lit: SqlLiteral)
    requires
        lit !is Bool,
    ensures
        crate::typing::expr_typed(vars, SqlExpr::Lit(lit), None) == Err::<ExprView, _>(
            ErrorView::UnresolvedLiteral,
        ),
{
}

/// A comparison of two literals is refused, unless the one on the right is boolean: nothing else
/// determines a type.
pub proof fn law_literal_comparison(
    vars: Map<Seq<char>, TableSchema>,
    a: SqlLiteral,
    b: SqlLiteral,
    op: BinOp,
    expected: Option<TypeView>,
)
    requires
        b !is Bool,
        expected is Some ==> expected->0 is Bool,
    ensures
        crate::typing::expr_typed(
            vars,
            SqlExpr::Bin(Box::new(SqlExpr::Lit(a)), Box::new(SqlExpr::Lit(b)), op),
            expected,
        ) == Err::<ExprView, _>(ErrorView::UnresolvedLiteral),
{
    reveal_with_fuel(crate::typing::expr_typed, 2);
}

/// It does not matter whether a literal is written as a string, as a number or in hexadecimal: its
/// text and the type that is expected decide.
pub proof fn law_literal_kind(
    vars: Map<Seq<char>, TableSchema>,
    text: String,
    expected: Option<TypeView>,
)
    ensures
        ({
            let typed = crate::typing::expr_typed(
                vars,
                SqlExpr::Lit(SqlLiteral::Str(text)),
                expected,
            );
            &&& crate::typing::expr_typed(vars, SqlExpr::Lit(SqlLiteral::Num(text)), expected)
                == typed
            &&& crate::typing::expr_typed(vars, SqlExpr::Lit(SqlLiteral::Hex(text)), expected)
                == typed
        }),
{
}

/// More tables in scope change nothing for an expression that is accepted.
pub proof fn law_more_tables(
    vars: Map<Seq<char>, TableSchema>,
    more: Map<Seq<char>, TableSchema>,
    expr: SqlExpr,
    expected: Option<TypeView>,
)
    requires
        expr.is_resolved(),
        vars.submap_of(more),
    ensures
        crate::typing::expr_typed(vars, expr, expected) is Ok ==> crate::typing::expr_typed(
            more,
            expr,
            expected,
        ) == crate::typing::expr_typed(vars, expr, expected),
    decreases expr,
{
    match expr {
        SqlExpr::Field(table, field) => {
            if vars.contains_key(table.0@) {
                assert(more.contains_key(table.0@));
            }
        },
        SqlExpr::Log(a, b, op) => {
            law_more_tables(vars, more, *a, Some(TypeView::Bool));
            law_more_tables(vars, more, *b, Some(TypeView::Bool));
        },
        SqlExpr::Bin(a, b, op) => {
            law_more_tables(vars, more, *a, None);
            law_more_tables(vars, more, *b, None);
            if crate::typing::expr_typed(vars, *b, None) is Ok {
                let ty = crate::typing::expr_typed(vars, *b, None)->Ok_0.ty();
                law_more_tables(vars, more, *a, Some(ty));
            }
            if crate::typing::expr_typed(vars, *a, None) is Ok {
                let ty = crate::typing::expr_typed(vars, *a, None)->Ok_0.ty();
                law_more_tables(vars, more, *b, Some(ty));
            }
        },
        _ => {},
    }
}

/// A conjunction or disjunction is accepted exactly if both sides are accepted as predicates, and
/// is made of them.
pub proof fn law_logic(
    vars: Map<Seq<char>, TableSchema>,
    a: SqlExpr,
    b: SqlExpr,
    op: LogOp,
    expected: Option<TypeView>,
)
    requires
        a.is_resolved(),
        b.is_resolved(),
        expected is Some ==> expected->0 is Bool,
    ensures
        ({
            let x = crate::typing::expr_typed(vars, a, Some(TypeView::Bool));
            let y = crate::typing::expr_typed(vars, b, Some(TypeView::Bool));
            let typed = crate::typing::expr_typed(
                vars,
                SqlExpr::Log(Box::new(a), Box::new(b), op),
                expected,
            );
            &&& typed is Ok <==> x is Ok && y is Ok
            &&& typed matches Ok(e) ==> e == ExprView::LogOp(
                op,
                Box::new(x->Ok_0),
                Box::new(y->Ok_0),
            )
        }),
{
    reveal_with_fuel(crate::typing::expr_typed, 2);
}

/// A literal on the left of a comparison is typed as it is on the right.
pub proof fn law_swapped_literal(
    vars: Map<Seq<char>, TableSchema>,
    lit: SqlLiteral,
    other: SqlExpr,
    op: BinOp,
    expected: Option<TypeView>,
)
    requires
        other.is_resolved(),
        other !is Lit,
    ensures
        ({
            let left = crate::typing::expr_typed(
                vars,
                SqlExpr::Bin(Box::new(SqlExpr::Lit(lit)), Box::new(other), op),
                expected,
            );
            let right = crate::typing::expr_typed(
                vars,
                SqlExpr::Bin(Box::new(other), Box::new(SqlExpr::Lit(lit)), op),
                expected,
            );
            match left {
                Ok(e) => {
                    &&& e matches ExprView::BinOp(o, a, b)
                    &&& right == Ok::<ExprView, ErrorView>(ExprView::BinOp(o, b, a))
                },
                Err(e) => right == Err::<ExprView, ErrorView>(e),
            }
        }),
{
    reveal_with_fuel(crate::typing::expr_typed, 2);
    if crate::typing::expr_typed(vars, other, None) is Ok {
        let y = crate::typing::expr_typed(vars, other, None)->Ok_0;
        law_expected_type(vars, SqlExpr::Lit(lit), y.ty());
    }
}

/// Equality and inequality take operands of the same types, and so do the four comparisons of
/// order; whatever has an order can be compared for equality.
pub proof fn law_operators(ty: TypeView)
    ensures
        crate::typing::op_supports(BinOp::Eq, ty) == crate::typing::op_supports(BinOp::Ne, ty),
        crate::typing::op_supports(BinOp::Lt, ty) == crate::typing::op_supports(BinOp::Gt, ty),
        crate::typing::op_supports(BinOp::Lt, ty) == crate::typing::op_supports(BinOp::Lte, ty),
        crate::typing::op_supports(BinOp::Lt, ty) == crate::typing::op_supports(BinOp::Gte, ty),
        crate::typing::op_supports(BinOp::Lt, ty) ==> crate::typing::op_supports(BinOp::Eq, ty),
{
}

/// Bytes denote a number below the power of 256 of their count.
proof fn lemma_big_endian_bound(bytes: Seq<u8>)
    ensures
        0 <= crate::formats::big_endian(bytes) < pow(256, bytes.len()),
    decreases bytes.len(),
{
    if bytes.len() == 0 {
        lemma_pow0(256);
    } else {
        lemma_big_endian_bound(bytes.drop_last());
        lemma_pow_adds(256, (bytes.len() - 1) as nat, 1);
        lemma_pow1(256);
    }
}

/// The powers of 256 that bound 128-bit and 256-bit integers.
proof fn lemma_pow256()
    ensures
        pow(256, 16) == u128::MAX + 1,
        pow(256, 32) == crate::decimal::int_max(IntKind::U256) + 1,
{
    reveal_with_fuel(pow, 17);
    assert(pow(256, 16) == 0x1_0000_0000_0000_0000_0000_0000_0000_0000int);
    lemma_pow_adds(256, 16, 16);
    let p = pow(256, 16);
    assert(p * p
        == 0x1_0000_0000_0000_0000_0000_0000_0000_0000_0000_0000_0000_0000_0000_0000_0000_0000int)
        by (nonlinear_arith)
        requires
            p == 0x1_0000_0000_0000_0000_0000_0000_0000_0000int,
    ;
}

/// The value that a literal denotes at a type is a value of that type.
pub proof fn law_literal_type(text: Seq<char>, ty: TypeView)
    ensures
        crate::literal::literal_value(text, ty) matches Ok(v) ==> v.has_type(ty),
{
    reveal_with_fuel(ValueView::has_type, 2);
    lemma_pow256();
    if crate::formats::hex_bytes(text) is Some {
        lemma_big_endian_bound(crate::formats::hex_bytes(text)->0);
    }
    if ty.is_simple_enum() && crate::ty::variant_index(ty->Sum_0, text) is Some {
        let variants = ty->Sum_0;
        let named = |m: MemberView| m.name == Some(text);
        let i = crate::ty::variant_index(variants, text)->0;
        assert(crate::ty::is_first(variants, named, i));
        assert(variants[i % 256].ty == TypeView::unit());
    }
}

/// The value of an array literal is an array of the type that it is read at, with one element for
/// each literal.
pub proof fn law_array_type(arr: Seq<SqlLiteral>, elem: TypeView)
    ensures
        crate::literal::array_value(arr, elem) matches Ok(v) ==> {
            &&& v.has_type(TypeView::Array(Box::new(elem)))
            &&& v matches ValueView::Array(ty, values)
            &&& values.len() == arr.len()
            &&& forall|i: int|
                #![trigger values[i]]
                0 <= i < arr.len() ==> crate::literal::elem_value(arr[i], elem) == Ok::<
                    ValueView,
                    ErrorView,
                >(values[i])
        },
{
    reveal_with_fuel(ValueView::has_type, 2);
    let rs = crate::literal::elem_values(arr, elem);
    if crate::literal::array_value(arr, elem) is Ok {
        crate::literal::lemma_collected_all(rs);
        let values = crate::literal::collected(rs)->Ok_0;
        assert forall|i: int| 0 <= i < values.len() implies (#[trigger] values[i]).has_type(
            elem,
        ) && crate::literal::elem_value(arr[i], elem) == Ok::<ValueView, ErrorView>(
            values[i],
        ) by {
            assert(rs[i] is Ok);
            match arr[i] {
                SqlLiteral::Num(v) => law_literal_type(v@, elem),
                SqlLiteral::Hex(v) => law_literal_type(v@, elem),
                _ => {},
            }
        }
    }
}

/// There is no array literal of 64-bit or 256-bit integers.
pub proof fn law_array_types(arr: Seq<SqlLiteral>, kind: IntKind)
    requires
        kind == IntKind::I64 || kind == IntKind::U64 || kind == IntKind::I256 || kind
            == IntKind::U256,
    ensures
        crate::literal::array_value(arr, TypeView::Int(kind)) == Err::<ValueView, _>(
            ErrorView::UnexpectedArrayType(TypeView::Int(kind)),
        ),
{
}

/// Where a literal is accepted at two integer types, it denotes the same number at both.
pub proof fn law_same_number(text: Seq<char>, k1: IntKind, k2: IntKind)
    ensures
        match (
            crate::literal::literal_value(text, TypeView::Int(k1)),
            crate::literal::literal_value(text, TypeView::Int(k2)),
        ) {
            (Ok(v1), Ok(v2)) => {
                &&& v1 == ValueView::Int(k1, v1->Int_1)
                &&& v2 == ValueView::Int(k2, v1->Int_1)
            },
            _ => true,
        },
{
}

/// What is answered where a text is no literal of an integer type: that it is not an integer, unless
/// it denotes a number without a fractional part; then that it is out of bounds for the type.
pub proof fn law_integer_message(text: Seq<char>, kind: IntKind)
    ensures
        crate::literal::literal_value(text, TypeView::Int(kind)) matches Err(e) ==> {
            let integral = crate::decimal::decimal_literal(text) matches Some((unscaled, scale))
                && DecimalView { unscaled, scale }.is_integer();
            e.message() == if integral {
                text + " is out of bounds for type "@ + crate::names::type_text(TypeView::Int(kind))
            } else {
                text + " is not an integer"@
            }
        },
{
}

/// What is answered where a text is no literal of a float type: that it is not a valid value of the
/// type.
pub proof fn law_float_message(text: Seq<char>, ty: TypeView)
    requires
        ty.is_float(),
    ensures
        crate::literal::literal_value(text, ty) matches Err(e) ==> e.message() == text
            + " is not a valid "@ + crate::names::type_text(ty),
{
}

/// What is answered where a text is not the name of a variant of a simple enum, and where there is
/// no literal of a type.
pub proof fn law_other_messages(text: Seq<char>, ty: TypeView)
    ensures
        ty.is_simple_enum() ==> (crate::literal::literal_value(text, ty) matches Err(e)
            ==> e.message() == text + " is not a valid "@ + crate::names::type_text(ty)),
        crate::literal::literal_value(text, ty) matches Err(e) ==> (e is NotSupported ==> e.message()
            == "Literal values for type "@ + crate::names::type_text(ty) + " are not supported"@),
{
}

/// The name of a variant of a simple enum denotes the variant, as far as tags of eight bits go and
/// no earlier variant has that name.
pub proof fn law_enum_variant(variants: Seq<MemberView>, i: int)
    requires
        crate::ty::all_unit(variants),
        0 <= i < variants.len(),
        i < 256,
        variants[i].name is Some,
        forall|j: int| 0 <= j < i ==> (#[trigger] variants[j]).name != variants[i].name,
    ensures
        crate::literal::literal_value(variants[i].name->0, TypeView::Sum(variants)) == Ok::<
            _,
            LiteralErrorView,
        >(ValueView::enum_simple(i as u8)),
{
    let named = |m: MemberView| m.name == Some(variants[i].name->0);
    assert(crate::ty::is_first(variants, named, i));
    crate::ty::lemma_first_index(variants, named, i);
}

/// A prefix of a hexadecimal text does not matter.
pub proof fn law_hex_prefix(text: Seq<char>, ty: TypeView)
    requires
        ty == TypeView::bytes() || ty == TypeView::identity() || ty == TypeView::connection_id(),
        crate::formats::without_hex_prefix(text) == text,
    ensures
        crate::literal::literal_value(seq!['0', 'x'] + text, ty) == crate::literal::literal_value(
            text,
            ty,
        ),
        crate::literal::literal_value(seq!['X', '\''] + text, ty) == crate::literal::literal_value(
            text,
            ty,
        ),
{
    assert((seq!['0', 'x'] + text).skip(2) =~= text);
    assert((seq!['X', '\''] + text).skip(2) =~= text);
    lemma_not_timestamp();
}

/// No other type is the type of timestamps.
proof fn lemma_not_timestamp()
    ensures
        TypeView::identity() != TypeView::timestamp(),
        TypeView::connection_id() != TypeView::timestamp(),
{
    assert(TypeView::identity()->Product_0[0].ty != TypeView::timestamp()->Product_0[0].ty);
    assert(TypeView::connection_id()->Product_0[0].ty != TypeView::timestamp()->Product_0[0].ty);
}

/// A factor of ten in the integer and in the divisor changes nothing.
proof fn lemma_rescaled(u: int, p: int)
    requires
        p > 0,
    ensures
        (10 * u) % (p * 10) == 0 <==> u % p == 0,
        crate::decimal::truncating_div(10 * u, p * 10) == crate::decimal::truncating_div(u, p),
{
    lemma_rescaled_div(u, p);
    lemma_rescaled_div(-u, p);
    assert(10 * (-u) == -(10 * u));
}

proof fn lemma_rescaled_div(u: int, p: int)
    requires
        p > 0,
    ensures
        (10 * u) % (p * 10) == 10 * (u % p),
        (10 * u) / (p * 10) == u / p,
{
    let q = u / p;
    let r = u % p;
    lemma_fundamental_div_mod(u, p);
    lemma_mod_bound(u, p);
    assert(10 * u == q * (p * 10) + 10 * r) by (nonlinear_arith)
        requires
            u == p * q + r,
    ;
    lemma_fundamental_div_mod_converse(10 * u, p * 10, q, 10 * r);
}

/// A trailing zero more, behind a decimal point moved to match, gives the same number.
proof fn lemma_trailing_zero(unscaled: int, scale: int)
    ensures
        ({
            let d = DecimalView { unscaled, scale };
            let e = DecimalView { unscaled: 10 * unscaled, scale: scale + 1 };
            d.is_integer() == e.is_integer() && d.whole() == e.whole()
        }),
{
    lemma_pow0(10);
    lemma_pow1(10);
    if scale < 0 {
        let n = (-scale - 1) as nat;
        lemma_pow_adds(10, n, 1);
        let p = pow(10, n);
        assert((10 * unscaled) * p == unscaled * (p * 10)) by (nonlinear_arith);
    } else {
        lemma_pow_adds(10, scale as nat, 1);
        lemma_pow_positive(10, scale as nat);
        lemma_rescaled(unscaled, crate::decimal::pow10(scale));
        lemma_rescaled(unscaled, 1);
        if scale == 0 {
            assert(unscaled % 1 == 0);
            assert(crate::decimal::truncating_div(unscaled, 1) == unscaled);
            assert(unscaled * 1 == unscaled);
        }
    }
}

/// Trailing zeros more, behind a decimal point moved to match, give the same number.
proof fn lemma_trailing_zeros(unscaled: int, scale: int, n: int)
    requires
        n >= 0,
    ensures
        ({
            let d = DecimalView { unscaled, scale };
            let e = DecimalView {
                unscaled: unscaled * crate::decimal::pow10(n),
                scale: scale + n,
            };
            d.is_integer() == e.is_integer() && d.whole() == e.whole()
        }),
    decreases n,
{
    if n == 0 {
        lemma_pow0(10);
        assert(unscaled * 1 == unscaled);
    } else {
        lemma_trailing_zeros(unscaled, scale, n - 1);
        let p = crate::decimal::pow10(n - 1);
        lemma_trailing_zero(unscaled * p, scale + n - 1);
        lemma_pow_adds(10, (n - 1) as nat, 1);
        lemma_pow1(10);
        assert(10 * (unscaled * p) == unscaled * (p * 10)) by (nonlinear_arith);
    }
}

/// Whether two decimals are the same number.
pub open spec fn same_number(a: DecimalView, b: DecimalView) -> bool {
    if a.scale <= b.scale {
        b.unscaled == a.unscaled * crate::decimal::pow10(b.scale - a.scale)
    } else {
        a.unscaled == b.unscaled * crate::decimal::pow10(a.scale - b.scale)
    }
}

/// How a number is written does not matter: two decimals that are the same number give the same
/// integer or the same error. In the 256-bit types, this leaves out an integer in range that is
/// written with digits behind the decimal point once and without them once.
pub proof fn law_notation(a: DecimalView, b: DecimalView, text: Seq<char>, kind: IntKind)
    requires
        same_number(a, b),
        kind == IntKind::I256 || kind == IntKind::U256 ==> {
            ||| (a.scale <= 0) == (b.scale <= 0)
            ||| !a.is_integer()
            ||| !crate::decimal::fits(kind, a.whole())
        },
    ensures
        crate::literal::int_value(Some((a.unscaled, a.scale)), text, kind)
            == crate::literal::int_value(Some((b.unscaled, b.scale)), text, kind),
{
    if a.scale <= b.scale {
        lemma_trailing_zeros(a.unscaled, a.scale, b.scale - a.scale);
    } else {
        lemma_trailing_zeros(b.unscaled, b.scale, a.scale - b.scale);
    }
}

/// Whether a typed expression makes sense: constants have the types they carry, columns are in
/// scope, operands of a comparison have the same type, one that the operator takes, and operands
/// of a logical operator are boolean.
pub open spec fn well_typed(vars: Map<Seq<char>, TableSchema>, e: ExprView) -> bool
    decreases e,
{
    match e {
        ExprView::BinOp(op, a, b) => {
            &&& well_typed(vars, *a)
            &&& well_typed(vars, *b)
            &&& a.ty() == b.ty()
            &&& crate::typing::op_supports(op, a.ty())
        },
        ExprView::LogOp(op, a, b) => {
            &&& well_typed(vars, *a)
            &&& well_typed(vars, *b)
            &&& a.ty() == TypeView::Bool
            &&& b.ty() == TypeView::Bool
        },
        ExprView::Value(v, ty) => v.has_type(ty),
        ExprView::Tuple(values, ty) => {
            &&& ty matches TypeView::Product(elements)
            &&& values.len() <= elements.len()
            &&& forall|i: int|
                #![trigger values[i]]
                0 <= i < values.len() ==> values[i].has_type(elements[i].ty)
        },
        ExprView::Field(f) => {
            &&& vars.contains_key(f.table)
            &&& is_column(vars[f.table], f)
        },
    }
}

/// Whether a table has a column at a position and of a type.
pub open spec fn is_column(table: TableSchema, f: FieldView) -> bool {
    exists|i: int|
        0 <= i < table.columns@.len() && (#[trigger] table.columns@[i]).col_pos == f.field
            && table.columns@[i].col_type@ == f.ty
}

/// What a qualified name denotes is a column in scope.
proof fn lemma_field(vars: Map<Seq<char>, TableSchema>, table: Seq<char>, field: Seq<char>)
    ensures
        crate::typing::field_typed(vars, table, field) matches Ok(f) ==> well_typed(
            vars,
            ExprView::Field(f),
        ),
{
    if vars.contains_key(table) {
        let columns = vars[table].columns@;
        let named = |c: crate::schema::ColumnSchema| c.col_name@ == field;
        if crate::schema::column_index(columns, field) is Some {
            let i = crate::schema::column_index(columns, field)->0;
            assert(crate::ty::is_first(columns, named, i));
            assert(columns[i].col_pos == columns[i].col_pos);
        }
    }
}

/// The values of a tuple literal have the types of the elements at their positions, as far as both
/// go.
proof fn lemma_tuple(t: Seq<SqlLiteral>, elements: Seq<MemberView>)
    ensures
        crate::literal::collected(crate::typing::tuple_elems(t, elements)) matches Ok(values) ==> {
            &&& values.len() <= elements.len()
            &&& t.len() == elements.len() ==> values.len() == elements.len()
            &&& forall|i: int|
                #![trigger values[i]]
                0 <= i < values.len() ==> values[i].has_type(elements[i].ty)
        },
{
    let rs = crate::typing::tuple_elems(t, elements);
    crate::literal::lemma_collected_all(rs);
    if crate::literal::collected(rs) is Ok {
        let values = crate::literal::collected(rs)->Ok_0;
        assert forall|i: int| 0 <= i < values.len() implies (#[trigger] values[i]).has_type(
            elements[i].ty,
        ) by {
            assert(rs[i] == Ok::<ValueView, ErrorView>(values[i]));
            match t[i] {
                SqlLiteral::Str(v) => law_literal_type(v@, elements[i].ty),
                SqlLiteral::Num(v) => law_literal_type(v@, elements[i].ty),
                SqlLiteral::Hex(v) => law_literal_type(v@, elements[i].ty),
                SqlLiteral::Arr(v) => {
                    if elements[i].ty is Array {
                        law_array_type(v@, *elements[i].ty->Array_0);
                    }
                },
                _ => {},
            }
        }
    }
}

/// A tuple literal with as many elements as the product type denotes a value of that type.
pub proof fn law_tuple_type(t: Seq<SqlLiteral>, elements: Seq<MemberView>)
    requires
        t.len() == elements.len(),
    ensures
        crate::typing::tuple_typed(t, Some(TypeView::Product(elements))) matches Ok(e) ==> {
            &&& e matches ExprView::Tuple(values, ty)
            &&& ValueView::Product(values).has_type(TypeView::Product(elements))
        },
{
    lemma_tuple(t, elements);
}

/// What type checking accepts makes sense.
pub proof fn law_well_typed(
    vars: Map<Seq<char>, TableSchema>,
    expr: SqlExpr,
    expected: Option<TypeView>,
)
    requires
        expr.is_resolved(),
    ensures
        crate::typing::expr_typed(vars, expr, expected) matches Ok(e) ==> well_typed(vars, e),
    decreases expr,
{
    match expr {
        SqlExpr::Lit(lit) => {
            match (lit, expected) {
                (SqlLiteral::Str(v), Some(ty)) => law_literal_type(v@, ty),
                (SqlLiteral::Num(v), Some(ty)) => law_literal_type(v@, ty),
                (SqlLiteral::Hex(v), Some(ty)) => law_literal_type(v@, ty),
                _ => {},
            }
        },
        SqlExpr::Tup(t) => {
            if expected is Some && expected->0 is Product {
                lemma_tuple(t@, expected->0->Product_0);
            }
        },
        SqlExpr::Field(table, field) => {
            lemma_field(vars, table.0@, field.0@);
        },
        SqlExpr::Log(a, b, op) => {
            law_well_typed(vars, *a, Some(TypeView::Bool));
            law_well_typed(vars, *b, Some(TypeView::Bool));
            law_expected_type(vars, *a, TypeView::Bool);
            law_expected_type(vars, *b, TypeView::Bool);
        },
        SqlExpr::Bin(a, b, op) => {
            law_well_typed(vars, *a, None);
            law_well_typed(vars, *b, None);
            if crate::typing::expr_typed(vars, *b, None) is Ok {
                let ty = crate::typing::expr_typed(vars, *b, None)->Ok_0.ty();
                law_well_typed(vars, *a, Some(ty));
                law_expected_type(vars, *a, ty);
            }
            if crate::typing::expr_typed(vars, *a, None) is Ok {
                let ty = crate::typing::expr_typed(vars, *a, None)->Ok_0.ty();
                law_well_typed(vars, *b, Some(ty));
                law_expected_type(vars, *b, ty);
            }
        },
        SqlExpr::Var(_) | SqlExpr::Param(_) => {},
    }
}

/// A `SELECT` list is accepted exactly if its aliases are distinct and its columns are in scope.
/// It then keeps the aliases and the columns, in order.
pub proof fn law_projection(vars: Map<Seq<char>, TableSchema>, elems: Seq<ProjectElem>)
    requires
        forall|i: int| 0 <= i < elems.len() ==> (#[trigger] elems[i]).0 is Field,
    ensures
        crate::typing::projected(vars, elems) is Ok <==> {
            &&& forall|i: int, j: int|
                0 <= i < j < elems.len() ==> (#[trigger] elems[i]).1.0@ != (
                #[trigger] elems[j]).1.0@
            &&& forall|i: int|
                0 <= i < elems.len() ==> crate::typing::expr_typed(
                    vars,
                    (#[trigger] elems[i]).0.as_expr(),
                    None,
                ) is Ok
        },
        crate::typing::projected(vars, elems) matches Ok(columns) ==> {
            &&& columns.len() == elems.len()
            &&& forall|i: int|
                #![trigger columns[i]]
                0 <= i < elems.len() ==> {
                    &&& columns[i].0 == elems[i].1.0@
                    &&& crate::typing::expr_typed(vars, elems[i].0.as_expr(), None) == Ok::<
                        ExprView,
                        ErrorView,
                    >(ExprView::Field(columns[i].1))
                }
        },
{
    let rs = Seq::new(elems.len(), |i: int| crate::typing::elem_projected(vars, elems, i));
    crate::literal::lemma_collected_all(rs);
    if crate::typing::projected(vars, elems) is Ok {
        let columns = crate::typing::projected(vars, elems)->Ok_0;
        assert forall|i: int| 0 <= i < elems.len() implies !crate::typing::is_duplicate(elems, i)
            && #[trigger] columns[i].0 == elems[i].1.0@ && crate::typing::expr_typed(
            vars,
            elems[i].0.as_expr(),
            None,
        ) == Ok::<ExprView, ErrorView>(ExprView::Field(columns[i].1)) by {
            assert(rs[i] == Ok::<(Seq<char>, FieldView), ErrorView>(columns[i]));
        }
        assert forall|i: int, j: int| 0 <= i < j < elems.len() implies (
        #[trigger] elems[i]).1.0@ != (#[trigger] elems[j]).1.0@ by {
            assert(columns[j].0 == elems[j].1.0@);
            assert(!crate::typing::is_duplicate(elems, j));
        }
        assert forall|i: int| 0 <= i < elems.len() implies crate::typing::expr_typed(
            vars,
            (#[trigger] elems[i]).0.as_expr(),
            None,
        ) is Ok by {
            assert(columns[i].0 == elems[i].1.0@);
        }
    } else {
        if (forall|i: int, j: int|
            0 <= i < j < elems.len() ==> (#[trigger] elems[i]).1.0@ != (
            #[trigger] elems[j]).1.0@) && (forall|i: int|
            0 <= i < elems.len() ==> crate::typing::expr_typed(
                vars,
                (#[trigger] elems[i]).0.as_expr(),
                None,
            ) is Ok) {
            assert forall|i: int| 0 <= i < rs.len() implies (#[trigger] rs[i]) is Ok by {
                assert(elems[i].0.as_expr() == elems[i].0.as_expr());
                assert(!crate::typing::is_duplicate(elems, i));
            }
            crate::literal::lemma_collected_ok(rs);
        }
    }
}

} // verus!
