//! What type checking makes of each kind of expression, of `SELECT` lists and of relations.
use vstd::prelude::*;

use crate::ast::{BinOp, LogOp, Project, ProjectElem, ProjectExpr, SqlExpr, SqlIdent, SqlLiteral};
use crate::errors::ErrorView;
use crate::expr::{Expr, ExprView, FieldProject, FieldView, LeftDeepJoin, RelExpr, Relvar};
use crate::schema::TableSchema;
use crate::ty::{IntKind, MemberView, TypeView};
use crate::value::ValueView;

verus! {

/// A boolean literal is the boolean constant that it is written as, and nothing else.
pub proof fn law_boolean_literal(vars: Map<Seq<char>, TableSchema>, b: bool, ty: TypeView)
    ensures
        crate::typing::expr_typed(vars, SqlExpr::Lit(SqlLiteral::Bool(b)), None) == Ok::<
            ExprView,
            ErrorView,
        >(ExprView::Value(ValueView::Bool(b), TypeView::Bool)),
        crate::typing::expr_typed(vars, SqlExpr::Lit(SqlLiteral::Bool(b)), Some(ty)) == if ty
            == TypeView::Bool {
            Ok::<ExprView, ErrorView>(ExprView::Value(ValueView::Bool(b), TypeView::Bool))
        } else {
            Err(ErrorView::UnexpectedType(TypeView::Bool, ty))
        },
{
}

/// A literal with a text is the constant that its text denotes at the type that is expected; a text
/// that denotes none is reported with that type.
pub proof fn law_text_literal(
    vars: Map<Seq<char>, TableSchema>,
    lit: SqlLiteral,
    text: String,
    ty: TypeView,
)
    requires
        lit == SqlLiteral::Str(text) || lit == SqlLiteral::Num(text) || lit == SqlLiteral::Hex(text),
    ensures
        crate::literal::literal_value(text@, ty) matches Ok(v) ==> crate::typing::expr_typed(
            vars,
            SqlExpr::Lit(lit),
            Some(ty),
        ) == Ok::<ExprView, ErrorView>(ExprView::Value(v, ty)),
        crate::literal::literal_value(text@, ty) is Err ==> crate::typing::expr_typed(
            vars,
            SqlExpr::Lit(lit),
            Some(ty),
        ) == Err::<ExprView, ErrorView>(ErrorView::InvalidLiteral(text@, ty)),
{
}

/// An array literal stands in a tuple only.
pub proof fn law_array_literal(
    vars: Map<Seq<char>, TableSchema>,
    arr: Vec<SqlLiteral>,
    ty: TypeView,
)
    ensures
        crate::typing::expr_typed(vars, SqlExpr::Lit(SqlLiteral::Arr(arr)), Some(ty)) == Err::<
            ExprView,
            ErrorView,
        >(ErrorView::UnexpectedArrayType(ty)),
{
}

/// A qualified name denotes the first column of that name in the table of that alias, by its
/// position in a row and with its type.
pub proof fn law_column(
    vars: Map<Seq<char>, TableSchema>,
    table: SqlIdent,
    field: SqlIdent,
    i: int,
)
    requires
        vars.contains_key(table.0@),
        0 <= i < vars[table.0@].columns@.len(),
        vars[table.0@].columns@[i].col_name@ == field.0@,
        forall|j: int|
            0 <= j < i ==> (#[trigger] vars[table.0@].columns@[j]).col_name@ != field.0@,
    ensures
        crate::typing::expr_typed(vars, SqlExpr::Field(table, field), None) == Ok::<
            ExprView,
            ErrorView,
        >(
            ExprView::Field(
                FieldView {
                    table: table.0@,
                    field: vars[table.0@].columns@[i].col_pos as int,
                    ty: vars[table.0@].columns@[i].col_type@,
                },
            ),
        ),
{
    let columns = vars[table.0@].columns@;
    let named = |c: crate::schema::ColumnSchema| c.col_name@ == field.0@;
    assert(crate::ty::is_first(columns, named, i));
    crate::ty::lemma_first_index(columns, named, i);
}

/// A name is unresolved exactly if there is no table of its alias, or no column of that name in the
/// table; the part that is unknown is reported, whatever is expected.
pub proof fn law_unresolved_column(
    vars: Map<Seq<char>, TableSchema>,
    table: SqlIdent,
    field: SqlIdent,
    expected: Option<TypeView>,
)
    ensures
        !vars.contains_key(table.0@) ==> crate::typing::expr_typed(
            vars,
            SqlExpr::Field(table, field),
            expected,
        ) == Err::<ExprView, ErrorView>(ErrorView::UnresolvedVar(table.0@)),
        vars.contains_key(table.0@) && (forall|j: int|
            0 <= j < vars[table.0@].columns@.len() ==> (
            #[trigger] vars[table.0@].columns@[j]).col_name@ != field.0@)
            ==> crate::typing::expr_typed(vars, SqlExpr::Field(table, field), expected) == Err::<
            ExprView,
            ErrorView,
        >(ErrorView::UnresolvedVar(field.0@)),
{
    if vars.contains_key(table.0@) && (forall|j: int|
        0 <= j < vars[table.0@].columns@.len() ==> (
        #[trigger] vars[table.0@].columns@[j]).col_name@ != field.0@) {
        let columns = vars[table.0@].columns@;
        let named = |c: crate::schema::ColumnSchema| c.col_name@ == field.0@;
        assert forall|k: int| !crate::ty::is_first(columns, named, k) by {}
    }
}

/// An accepted comparison keeps its operator and its sides: the typed left side on the left and the
/// typed right side on the right, both of the one type that each side is accepted at.
pub proof fn law_comparison(
    vars: Map<Seq<char>, TableSchema>,
    a: SqlExpr,
    b: SqlExpr,
    op: BinOp,
    expected: Option<TypeView>,
)
    requires
        a.is_resolved(),
        b.is_resolved(),
    ensures
        crate::typing::expr_typed(
            vars,
            SqlExpr::Bin(Box::new(a), Box::new(b), op),
            expected,
        ) matches Ok(e) ==> {
            &&& e matches ExprView::BinOp(o, x, y)
            &&& o == op
            &&& x.ty() == y.ty()
            &&& crate::typing::expr_typed(vars, a, Some(x.ty())) == Ok::<ExprView, ErrorView>(*x)
            &&& crate::typing::expr_typed(vars, b, Some(x.ty())) == Ok::<ExprView, ErrorView>(*y)
        },
{
    reveal_with_fuel(crate::typing::expr_typed, 2);
    if crate::typing::expr_typed(vars, a, None) is Ok {
        let x = crate::typing::expr_typed(vars, a, None)->Ok_0;
        crate::laws::law_inferred_type(vars, a, x.ty());
        crate::laws::law_expected_type(vars, b, x.ty());
    }
    if crate::typing::expr_typed(vars, b, None) is Ok {
        let y = crate::typing::expr_typed(vars, b, None)->Ok_0;
        crate::laws::law_inferred_type(vars, b, y.ty());
        crate::laws::law_expected_type(vars, a, y.ty());
    }
}

/// A comparison whose left side is not a literal: the left side determines the type, the right side
/// is checked against it, then the operator. What fails first is reported.
pub proof fn law_comparison_steps(
    vars: Map<Seq<char>, TableSchema>,
    a: SqlExpr,
    b: SqlExpr,
    op: BinOp,
    expected: Option<TypeView>,
)
    requires
        a.is_resolved(),
        b.is_resolved(),
        a !is Lit,
        expected is Some ==> expected->0 is Bool,
    ensures
        ({
            let typed = crate::typing::expr_typed(
                vars,
                SqlExpr::Bin(Box::new(a), Box::new(b), op),
                expected,
            );
            let left = crate::typing::expr_typed(vars, a, None);
            &&& left matches Err(e) ==> typed == Err::<ExprView, ErrorView>(e)
            &&& left matches Ok(x) ==> {
                let right = crate::typing::expr_typed(vars, b, Some(x.ty()));
                &&& right matches Err(e) ==> typed == Err::<ExprView, ErrorView>(e)
                &&& right matches Ok(y) ==> {
                    &&& crate::typing::op_supports(op, x.ty()) ==> typed == Ok::<
                        ExprView,
                        ErrorView,
                    >(ExprView::BinOp(op, Box::new(x), Box::new(y)))
                    &&& !crate::typing::op_supports(op, x.ty()) ==> typed == Err::<
                        ExprView,
                        ErrorView,
                    >(ErrorView::InvalidOp(op, x.ty()))
                }
            }
        }),
{
    reveal_with_fuel(crate::typing::expr_typed, 2);
}

/// A comparison or a logical operator where something other than a boolean is expected is refused.
pub proof fn law_boolean_result(
    vars: Map<Seq<char>, TableSchema>,
    a: SqlExpr,
    b: SqlExpr,
    op: BinOp,
    log: LogOp,
    ty: TypeView,
)
    requires
        ty !is Bool,
    ensures
        crate::typing::expr_typed(vars, SqlExpr::Bin(Box::new(a), Box::new(b), op), Some(ty))
            == Err::<ExprView, ErrorView>(ErrorView::UnexpectedType(TypeView::Bool, ty)),
        crate::typing::expr_typed(vars, SqlExpr::Log(Box::new(a), Box::new(b), log), Some(ty))
            == Err::<ExprView, ErrorView>(ErrorView::UnexpectedType(TypeView::Bool, ty)),
{
}

/// Of the two sides of a logical operator, what fails first is reported; without a failure, the
/// operator and the sides are kept.
pub proof fn law_logic_steps(
    vars: Map<Seq<char>, TableSchema>,
    a: SqlExpr,
    b: SqlExpr,
    op: LogOp,
    expected: Option<TypeView>,
)
    requires
        a.is_resolved(),
        b.is_resolved(),
        expected is Some ==> expected->0 is Bool,
    ensures
        ({
            let typed = crate::typing::expr_typed(
                vars,
                SqlExpr::Log(Box::new(a), Box::new(b), op),
                expected,
            );
            let left = crate::typing::expr_typed(vars, a, Some(TypeView::Bool));
            let right = crate::typing::expr_typed(vars, b, Some(TypeView::Bool));
            &&& left matches Err(e) ==> typed == Err::<ExprView, ErrorView>(e)
            &&& left matches Ok(x) ==> {
                &&& right matches Err(e) ==> typed == Err::<ExprView, ErrorView>(e)
                &&& right matches Ok(y) ==> typed == Ok::<ExprView, ErrorView>(
                    ExprView::LogOp(op, Box::new(x), Box::new(y)),
                )
            }
        }),
{
    reveal_with_fuel(crate::typing::expr_typed, 2);
}

/// Which types the operators take: scalars and what has an order of its own take all of them; other
/// products and simple enums can be compared for equality only; nothing else can be compared.
pub proof fn law_operand_types(op: BinOp)
    ensures
        crate::typing::op_supports(op, TypeView::Bool),
        crate::typing::op_supports(op, TypeView::String),
        crate::typing::op_supports(op, TypeView::F32),
        crate::typing::op_supports(op, TypeView::F64),
        forall|kind: IntKind| #[trigger] crate::typing::op_supports(op, TypeView::Int(kind)),
        forall|r: u32| !#[trigger] crate::typing::op_supports(op, TypeView::Ref(r)),
        forall|elem: Box<TypeView>| #[trigger]
            crate::typing::op_supports(op, TypeView::Array(elem)) <==> *elem == TypeView::Int(
                IntKind::U8,
            ),
        forall|variants: Seq<MemberView>| #[trigger]
            crate::typing::op_supports(op, TypeView::Sum(variants)) <==> {
                &&& op == BinOp::Eq || op == BinOp::Ne
                &&& forall|i: int|
                    0 <= i < variants.len() ==> (#[trigger] variants[i]).ty == TypeView::Product(
                        Seq::empty(),
                    )
            },
        forall|elements: Seq<MemberView>| #[trigger]
            crate::typing::op_supports(op, TypeView::Product(elements)) <==> {
                ||| op == BinOp::Eq
                ||| op == BinOp::Ne
                ||| elements == seq![
                    MemberView { name: Some("__identity__"@), ty: TypeView::Int(IntKind::U256) },
                ]
                ||| elements == seq![
                    MemberView {
                        name: Some("__connection_id__"@),
                        ty: TypeView::Int(IntKind::U128),
                    },
                ]
                ||| elements == seq![
                    MemberView {
                        name: Some("__timestamp_micros_since_unix_epoch__"@),
                        ty: TypeView::Int(IntKind::I64),
                    },
                ]
            },
{
}

/// A result more: the first error, or one value more.
pub proof fn lemma_collected_push<A, E>(rs: Seq<Result<A, E>>, r: Result<A, E>)
    ensures
        crate::literal::collected(rs.push(r)) == match crate::literal::collected(rs) {
            Err(e) => Err(e),
            Ok(values) => match r {
                Err(e) => Err(e),
                Ok(v) => Ok(values.push(v)),
            },
        },
{
    let failed = |r: Result<A, E>| r is Err;
    let all = rs.push(r);
    match crate::literal::collected(rs) {
        Err(e) => {
            let i = crate::ty::first_index(rs, failed)->0;
            assert(crate::ty::is_first(rs, failed, i));
            assert(all[i] == rs[i]);
            assert forall|j: int| 0 <= j < i implies (#[trigger] all[j]) is Ok by {
                assert(all[j] == rs[j]);
                assert(!failed(rs[j]));
            }
            crate::literal::lemma_collected_err(all, i);
        },
        Ok(values) => {
            crate::literal::lemma_collected_all(rs);
            assert forall|j: int| 0 <= j < rs.len() implies (#[trigger] all[j]) is Ok by {
                assert(all[j] == rs[j]);
            }
            match r {
                Err(e) => {
                    assert(all[rs.len() as int] == r);
                    crate::literal::lemma_collected_err(all, rs.len() as int);
                },
                Ok(v) => {
                    assert(all[rs.len() as int] == r);
                    crate::literal::lemma_collected_ok(all);
                    assert(all.map_values(|r: Result<A, E>| r->Ok_0) =~= values.push(v)) by {
                        assert forall|j: int| 0 <= j < rs.len() implies #[trigger] values[j]
                            == all[j]->Ok_0 by {
                            assert(all[j] == rs[j]);
                        }
                    }
                },
            }
        },
    }
}

/// Where a tuple literal stands: at a product type only. Without elements it has no values.
pub proof fn law_tuple_context(
    vars: Map<Seq<char>, TableSchema>,
    t: Vec<SqlLiteral>,
    ty: TypeView,
)
    ensures
        crate::typing::expr_typed(vars, SqlExpr::Tup(t), None) == Err::<ExprView, ErrorView>(
            ErrorView::UnresolvedLiteral,
        ),
        ty !is Product ==> crate::typing::expr_typed(vars, SqlExpr::Tup(t), Some(ty)) == Err::<
            ExprView,
            ErrorView,
        >(ErrorView::UnexpectedType(TypeView::Product(Seq::empty()), ty)),
        ty is Product && t@.len() == 0 ==> crate::typing::expr_typed(
            vars,
            SqlExpr::Tup(t),
            Some(ty),
        ) == Ok::<ExprView, ErrorView>(ExprView::Tuple(Seq::empty(), ty)),
{
    if ty is Product && t@.len() == 0 {
        let rs = crate::typing::tuple_elems(t@, ty->Product_0);
        crate::literal::lemma_collected_ok(rs);
        assert(crate::literal::collected(rs)->Ok_0 =~= Seq::<ValueView>::empty());
    }
}

/// An element more of a tuple literal, at a product type with an element for it: its value comes
/// behind the others, unless an element before it is refused. It has the value, or the error, that
/// the same literal has outside the tuple at the type of the element; only an array literal stands
/// in a tuple alone, and has the value that it has as an array.
pub proof fn law_tuple_element(
    vars: Map<Seq<char>, TableSchema>,
    t: Vec<SqlLiteral>,
    more: Vec<SqlLiteral>,
    lit: SqlLiteral,
    elements: Seq<MemberView>,
)
    requires
        more@ == t@.push(lit),
        t@.len() < elements.len(),
    ensures
        ({
            let ty = TypeView::Product(elements);
            let elem = elements[t@.len() as int].ty;
            let before = crate::typing::expr_typed(vars, SqlExpr::Tup(t), Some(ty));
            let after = crate::typing::expr_typed(vars, SqlExpr::Tup(more), Some(ty));
            let alone = crate::typing::expr_typed(vars, SqlExpr::Lit(lit), Some(elem));
            &&& before matches Err(e) ==> after == Err::<ExprView, ErrorView>(e)
            &&& before matches Ok(e) ==> {
                &&& e matches ExprView::Tuple(values, product)
                &&& product == ty
                &&& lit !is Arr ==> {
                    &&& alone matches Err(e) ==> after == Err::<ExprView, ErrorView>(e)
                    &&& alone matches Ok(x) ==> {
                        &&& x matches ExprView::Value(v, of)
                        &&& of == elem
                        &&& after == Ok::<ExprView, ErrorView>(ExprView::Tuple(values.push(v), ty))
                    }
                }
                &&& lit matches SqlLiteral::Arr(arr) ==> {
                    &&& elem !is Array ==> after == Err::<ExprView, ErrorView>(
                        ErrorView::UnexpectedArrayType(elem),
                    )
                    &&& elem matches TypeView::Array(of) ==> {
                        &&& crate::literal::array_value(arr@, *of) matches Ok(v) ==> after == Ok::<
                            ExprView,
                            ErrorView,
                        >(ExprView::Tuple(values.push(v), ty))
                        &&& crate::literal::array_value(arr@, *of) is Err ==> after == Err::<
                            ExprView,
                            ErrorView,
                        >(ErrorView::InvalidLiteral("[…]"@, *of))
                    }
                }
            }
        }),
{
    let rs = crate::typing::tuple_elems(t@, elements);
    let r = crate::typing::tuple_elem(lit, elements[t@.len() as int].ty);
    assert(crate::typing::tuple_elems(more@, elements) =~= rs.push(r));
    lemma_collected_push(rs, r);
}

/// Elements of a tuple literal beyond those of the product type are left out.
pub proof fn law_tuple_excess(
    vars: Map<Seq<char>, TableSchema>,
    t: Vec<SqlLiteral>,
    more: Vec<SqlLiteral>,
    lit: SqlLiteral,
    elements: Seq<MemberView>,
)
    requires
        more@ == t@.push(lit),
        t@.len() >= elements.len(),
    ensures
        crate::typing::expr_typed(vars, SqlExpr::Tup(more), Some(TypeView::Product(elements)))
            == crate::typing::expr_typed(vars, SqlExpr::Tup(t), Some(TypeView::Product(elements))),
{
    assert(crate::typing::tuple_elems(more@, elements) =~= crate::typing::tuple_elems(t@, elements));
}

/// A column more of a `SELECT` list: it comes behind the others with its alias, unless something
/// before it is refused, an earlier column has its alias, or it is not in scope, in that order.
pub proof fn law_projection_column(
    vars: Map<Seq<char>, TableSchema>,
    elems: Seq<ProjectElem>,
    table: SqlIdent,
    field: SqlIdent,
    alias: SqlIdent,
)
    ensures
        ({
            let before = crate::typing::projected(vars, elems);
            let after = crate::typing::projected(
                vars,
                elems.push(ProjectElem(ProjectExpr::Field(table, field), alias)),
            );
            let typed = crate::typing::expr_typed(vars, SqlExpr::Field(table, field), None);
            let repeated = exists|j: int|
                0 <= j < elems.len() && (#[trigger] elems[j]).1.0@ == alias.0@;
            &&& before matches Err(e) ==> after == Err::<Seq<(Seq<char>, FieldView)>, ErrorView>(e)
            &&& before matches Ok(columns) ==> {
                &&& repeated ==> after == Err::<Seq<(Seq<char>, FieldView)>, ErrorView>(
                    ErrorView::DuplicateName(alias.0@),
                )
                &&& !repeated ==> (typed matches Err(e) ==> after == Err::<
                    Seq<(Seq<char>, FieldView)>,
                    ErrorView,
                >(e))
                &&& !repeated ==> (typed matches Ok(e) ==> {
                    &&& e matches ExprView::Field(f)
                    &&& after == Ok::<Seq<(Seq<char>, FieldView)>, ErrorView>(
                        columns.push((alias.0@, f)),
                    )
                })
            }
        }),
        crate::typing::projected(vars, Seq::empty()) == Ok::<
            Seq<(Seq<char>, FieldView)>,
            ErrorView,
        >(Seq::empty()),
{
    let elem = ProjectElem(ProjectExpr::Field(table, field), alias);
    let more = elems.push(elem);
    let n = elems.len() as int;
    let rs = Seq::new(elems.len(), |i: int| crate::typing::elem_projected(vars, elems, i));
    let r = crate::typing::elem_projected(vars, more, n);
    let all = Seq::new(more.len(), |i: int| crate::typing::elem_projected(vars, more, i));
    assert forall|i: int| 0 <= i < n implies #[trigger] all[i] == rs[i] by {
        assert(more[i] == elems[i]);
        assert(crate::typing::is_duplicate(more, i) == crate::typing::is_duplicate(elems, i)) by {
            if crate::typing::is_duplicate(more, i) {
                let j = choose|j: int| 0 <= j < i && (#[trigger] more[j]).1.0@ == more[i].1.0@;
                assert(elems[j] == more[j]);
            }
            if crate::typing::is_duplicate(elems, i) {
                let j = choose|j: int| 0 <= j < i && (#[trigger] elems[j]).1.0@ == elems[i].1.0@;
                assert(more[j] == elems[j]);
            }
        }
    }
    assert(all =~= rs.push(r));
    lemma_collected_push(rs, r);
    let repeated = exists|j: int| 0 <= j < elems.len() && (#[trigger] elems[j]).1.0@ == alias.0@;
    assert(more[n] == elem);
    assert(crate::typing::is_duplicate(more, n) == repeated) by {
        if crate::typing::is_duplicate(more, n) {
            let j = choose|j: int| 0 <= j < n && (#[trigger] more[j]).1.0@ == more[n].1.0@;
            assert(elems[j] == more[j]);
        }
        if repeated {
            let j = choose|j: int| 0 <= j < elems.len() && (#[trigger] elems[j]).1.0@ == alias.0@;
            assert(more[j] == elems[j]);
        }
    }
    let none = Seq::<ProjectElem>::empty();
    let empty = Seq::new(none.len(), |i: int| crate::typing::elem_projected(vars, none, i));
    crate::literal::lemma_collected_ok(empty);
    assert(crate::literal::collected(empty)->Ok_0 =~= Seq::<(Seq<char>, FieldView)>::empty());
}

/// The aliases of the tables of a relation, from left to right.
pub open spec fn aliases(relation: RelExpr) -> Seq<Seq<char>>
    decreases relation,
{
    match relation {
        RelExpr::RelVar(var) => seq![var.alias@],
        RelExpr::Select(input, _) => aliases(*input),
        RelExpr::LeftDeepJoin(join) => aliases(*join.lhs).push(join.rhs.alias@),
        RelExpr::EqJoin(join, _, _) => aliases(*join.lhs).push(join.rhs.alias@),
    }
}

/// A name more at the end of a list.
proof fn lemma_contains_push(names: Seq<Seq<char>>, last: Seq<char>, name: Seq<char>)
    ensures
        names.push(last).contains(name) <==> names.contains(name) || last == name,
{
    let all = names.push(last);
    assert(all[names.len() as int] == last);
    if names.contains(name) {
        let i = choose|i: int| 0 <= i < names.len() && names[i] == name;
        assert(all[i] == name);
    }
    if all.contains(name) && last != name {
        let i = choose|i: int| 0 <= i < all.len() && all[i] == name;
        assert(names[i] == name);
    }
}

/// A relation binds the aliases of its tables, wherever they occur in it, and no other name; it has
/// as many fields as tables.
pub proof fn law_aliases(relation: RelExpr, name: Seq<char>)
    ensures
        relation.binds(name) <==> aliases(relation).contains(name),
        relation.nfields() == aliases(relation).len(),
    decreases relation,
{
    match relation {
        RelExpr::RelVar(var) => {
            assert(aliases(relation)[0] == var.alias@);
        },
        RelExpr::Select(input, _) => law_aliases(*input, name),
        RelExpr::LeftDeepJoin(join) => {
            law_aliases(*join.lhs, name);
            lemma_contains_push(aliases(*join.lhs), join.rhs.alias@, name);
        },
        RelExpr::EqJoin(join, _, _) => {
            law_aliases(*join.lhs, name);
            lemma_contains_push(aliases(*join.lhs), join.rhs.alias@, name);
        },
    }
}

/// A table binds its alias; a filter changes nothing; a join of either kind binds what its left side
/// binds and the alias of the table on its right, and has one field more.
pub proof fn law_joins(
    var: Relvar,
    input: RelExpr,
    filter: Expr,
    left: FieldProject,
    right: FieldProject,
    name: Seq<char>,
)
    ensures
        RelExpr::RelVar(var).binds(name) <==> var.alias@ == name,
        RelExpr::RelVar(var).nfields() == 1,
        RelExpr::Select(Box::new(input), filter).binds(name) <==> input.binds(name),
        RelExpr::Select(Box::new(input), filter).nfields() == input.nfields(),
        ({
            let join = LeftDeepJoin { lhs: Box::new(input), rhs: var };
            &&& RelExpr::LeftDeepJoin(join).binds(name) <==> input.binds(name) || var.alias@ == name
            &&& RelExpr::LeftDeepJoin(join).nfields() == input.nfields() + 1
            &&& RelExpr::EqJoin(join, left, right).binds(name) <==> input.binds(name) || var.alias@
                == name
            &&& RelExpr::EqJoin(join, left, right).nfields() == input.nfields() + 1
        }),
{
    reveal_with_fuel(RelExpr::binds, 2);
    reveal_with_fuel(RelExpr::nfields, 2);
}

/// A boolean literal on the right gives a literal on the left its type.
pub proof fn law_boolean_comparison(
    vars: Map<Seq<char>, TableSchema>,
    a: SqlLiteral,
    b: bool,
    op: BinOp,
    expected: Option<TypeView>,
)
    requires
        expected is Some ==> expected->0 is Bool,
    ensures
        ({
            let typed = crate::typing::expr_typed(
                vars,
                SqlExpr::Bin(
                    Box::new(SqlExpr::Lit(a)),
                    Box::new(SqlExpr::Lit(SqlLiteral::Bool(b))),
                    op,
                ),
                expected,
            );
            &&& a matches SqlLiteral::Bool(c) ==> typed == Ok::<ExprView, ErrorView>(
                ExprView::BinOp(
                    op,
                    Box::new(ExprView::Value(ValueView::Bool(c), TypeView::Bool)),
                    Box::new(ExprView::Value(ValueView::Bool(b), TypeView::Bool)),
                ),
            )
            &&& a matches SqlLiteral::Arr(_) ==> typed == Err::<ExprView, ErrorView>(
                ErrorView::UnexpectedArrayType(TypeView::Bool),
            )
            &&& a matches SqlLiteral::Str(t) ==> typed == Err::<ExprView, ErrorView>(
                ErrorView::InvalidLiteral(t@, TypeView::Bool),
            )
            &&& a matches SqlLiteral::Num(t) ==> typed == Err::<ExprView, ErrorView>(
                ErrorView::InvalidLiteral(t@, TypeView::Bool),
            )
            &&& a matches SqlLiteral::Hex(t) ==> typed == Err::<ExprView, ErrorView>(
                ErrorView::InvalidLiteral(t@, TypeView::Bool),
            )
        }),
{
    reveal_with_fuel(crate::typing::expr_typed, 2);
}

/// An expression is resolved exactly if no unqualified name and no parameter occurs in it.
/// So is a `SELECT` list, by its columns.
pub proof fn law_resolved(a: SqlExpr, b: SqlExpr, op: BinOp, log: LogOp, list: Project)
    ensures
        list is Star || list is Count ==> list.is_resolved(),
        list matches Project::Exprs(elems) ==> (list.is_resolved() <==> forall|i: int|
            0 <= i < elems@.len() ==> (#[trigger] elems@[i]).0 is Field),
        SqlExpr::Bin(Box::new(a), Box::new(b), op).is_resolved() <==> a.is_resolved()
            && b.is_resolved(),
        SqlExpr::Log(Box::new(a), Box::new(b), log).is_resolved() <==> a.is_resolved()
            && b.is_resolved(),
        a is Lit || a is Tup || a is Field ==> a.is_resolved(),
        a is Var || a is Param ==> !a.is_resolved(),
{
    reveal_with_fuel(SqlExpr::is_resolved, 2);
}

/// The number of rows of a `LIMIT` clause is the value that its text has as a `U64`.
pub proof fn law_limit(text: Seq<char>, n: int)
    ensures
        crate::typing::limit_value(crate::decimal::decimal_literal(text), text) == Some(n)
            <==> crate::literal::literal_value(text, TypeView::Int(IntKind::U64)) == Ok::<
            ValueView,
            crate::errors::LiteralErrorView,
        >(ValueView::Int(IntKind::U64, n)),
{
}

} // verus!
