//! Type checking: from syntax to typed expressions.
use vstd::hash_set::StringHashSet;
use vstd::prelude::*;

use crate::ast::{BinOp, Project, ProjectElem, SqlExpr, SqlIdent, SqlLiteral};
use crate::errors::{
    DuplicateName, ErrorView, InvalidLiteral, InvalidOp, InvalidWildcard, TypingError, TypingResult,
    UnexpectedArrayType, UnexpectedType, Unresolved,
};
use crate::expr::{AggType, Expr, ExprView, FieldProject, FieldView, ProjectList, ProjectName, RelExpr};
use crate::schema::{Relvars, TableSchema};
use crate::ty::{AlgebraicType, IntKind, MemberView, ProductType, TypeView};
use crate::value::{AlgebraicValue, ValueView};

verus! {

/// Whether an operator takes operands of the type `ty`.
pub open spec fn op_supports(op: BinOp, ty: TypeView) -> bool {
    ||| ty is Bool
    ||| ty is Int
    ||| ty.is_float()
    ||| ty is String
    ||| ty == TypeView::bytes()
    ||| ty == TypeView::identity()
    ||| ty == TypeView::connection_id()
    ||| ty == TypeView::timestamp()
    ||| (op == BinOp::Eq || op == BinOp::Ne) && (ty is Product || ty.is_simple_enum())
}

/// Whether an operator takes operands of the type `ty`.
pub fn op_supports_type(op: BinOp, ty: &AlgebraicType) -> (r: bool)
    ensures
        r == op_supports(op, ty@),
{
    let equality = match op {
        BinOp::Eq | BinOp::Ne => true,
        _ => false,
    };
    match ty {
        AlgebraicType::Product(_) if equality => true,
        AlgebraicType::Sum(st) if equality && st.is_simple_enum() => true,
        _ => {
            ty.is_bool() || ty.is_integer() || ty.is_float() || ty.is_string() || ty.is_bytes()
                || ty.is_identity() || ty.is_connection_id() || ty.is_timestamp()
        },
    }
}

/// What an array literal is called in an error.
pub const ARRAY_LITERAL: &'static str = "[…]";

/// The value of an element of a tuple literal, for an element of the type `ty`.
pub open spec fn tuple_elem(lit: SqlLiteral, ty: TypeView) -> Result<ValueView, ErrorView> {
    match lit {
        SqlLiteral::Bool(b) => if ty is Bool {
            Ok(ValueView::Bool(b))
        } else {
            Err(ErrorView::UnexpectedType(TypeView::Bool, ty))
        },
        SqlLiteral::Str(v) => crate::literal::number_value(v@, ty),
        SqlLiteral::Num(v) => crate::literal::number_value(v@, ty),
        SqlLiteral::Hex(v) => crate::literal::number_value(v@, ty),
        SqlLiteral::Arr(v) => match ty {
            TypeView::Array(elem) => match crate::literal::array_value(v@, *elem) {
                Ok(v) => Ok(v),
                Err(_) => Err(ErrorView::InvalidLiteral(ARRAY_LITERAL@, *elem)),
            },
            _ => Err(ErrorView::UnexpectedArrayType(ty)),
        },
    }
}

/// The results for the elements of a tuple literal, each with the element of the product type at
/// its position. Where one of them has more elements than the other, those are left out.
pub open spec fn tuple_elems(t: Seq<SqlLiteral>, elements: Seq<MemberView>) -> Seq<
    Result<ValueView, ErrorView>,
> {
    Seq::new(
        if t.len() <= elements.len() {
            t.len()
        } else {
            elements.len()
        },
        |i: int| tuple_elem(t[i], elements[i].ty),
    )
}

/// The column that a qualified name denotes.
pub open spec fn field_typed(
    vars: Map<Seq<char>, TableSchema>,
    table: Seq<char>,
    field: Seq<char>,
) -> Result<FieldView, ErrorView> {
    if !vars.contains_key(table) {
        Err(ErrorView::UnresolvedVar(table))
    } else {
        let columns = vars[table].columns@;
        match crate::schema::column_index(columns, field) {
            Some(i) => Ok(
                FieldView {
                    table,
                    field: columns[i].col_pos as int,
                    ty: columns[i].col_type@,
                },
            ),
            None => Err(ErrorView::UnresolvedVar(field)),
        }
    }
}

/// The typed expression of a literal.
pub open spec fn literal_typed(lit: SqlLiteral, expected: Option<TypeView>) -> Result<
    ExprView,
    ErrorView,
> {
    match (lit, expected) {
        (SqlLiteral::Bool(v), None) => Ok(ExprView::bool(v)),
        (SqlLiteral::Bool(v), Some(ty)) => if ty is Bool {
            Ok(ExprView::bool(v))
        } else {
            Err(ErrorView::UnexpectedType(TypeView::Bool, ty))
        },
        (_, None) => Err(ErrorView::UnresolvedLiteral),
        (SqlLiteral::Str(v), Some(ty)) => text_typed(v@, ty),
        (SqlLiteral::Num(v), Some(ty)) => text_typed(v@, ty),
        (SqlLiteral::Hex(v), Some(ty)) => text_typed(v@, ty),
        (SqlLiteral::Arr(_), Some(ty)) => Err(ErrorView::UnexpectedArrayType(ty)),
    }
}

/// The typed expression of a text that is read at the type `ty`.
pub open spec fn text_typed(text: Seq<char>, ty: TypeView) -> Result<ExprView, ErrorView> {
    match crate::literal::number_value(text, ty) {
        Ok(v) => Ok(ExprView::Value(v, ty)),
        Err(e) => Err(e),
    }
}

/// The typed expression of a tuple literal.
pub open spec fn tuple_typed(t: Seq<SqlLiteral>, expected: Option<TypeView>) -> Result<
    ExprView,
    ErrorView,
> {
    match expected {
        None => Err(ErrorView::UnresolvedLiteral),
        Some(ty) => match ty {
            TypeView::Product(elements) => match crate::literal::collected(
                tuple_elems(t, elements),
            ) {
                Ok(values) => Ok(ExprView::Tuple(values, ty)),
                Err(e) => Err(e),
            },
            _ => Err(ErrorView::UnexpectedType(TypeView::unit(), ty)),
        },
    }
}

/// The comparison of two typed expressions.
pub open spec fn bin_typed(op: BinOp, a: ExprView, b: ExprView) -> Result<ExprView, ErrorView> {
    if op_supports(op, a.ty()) {
        Ok(ExprView::BinOp(op, Box::new(a), Box::new(b)))
    } else {
        Err(ErrorView::InvalidOp(op, a.ty()))
    }
}

/// The typed expression of a scalar expression, where a type may be expected of it.
pub open spec fn expr_typed(
    vars: Map<Seq<char>, TableSchema>,
    expr: SqlExpr,
    expected: Option<TypeView>,
) -> Result<ExprView, ErrorView>
    decreases expr,
{
    match expr {
        SqlExpr::Lit(lit) => literal_typed(lit, expected),
        SqlExpr::Tup(t) => tuple_typed(t@, expected),
        SqlExpr::Field(table, field) => match field_typed(vars, table.0@, field.0@) {
            Ok(f) => if expected is Some && f.ty != expected->0 {
                Err(ErrorView::UnexpectedType(f.ty, expected->0))
            } else {
                Ok(ExprView::Field(f))
            },
            Err(e) => Err(e),
        },
        SqlExpr::Log(a, b, op) => if expected is Some && expected->0 !is Bool {
            Err(ErrorView::UnexpectedType(TypeView::Bool, expected->0))
        } else {
            match expr_typed(vars, *a, Some(TypeView::Bool)) {
                Err(e) => Err(e),
                Ok(x) => match expr_typed(vars, *b, Some(TypeView::Bool)) {
                    Err(e) => Err(e),
                    Ok(y) => Ok(ExprView::LogOp(op, Box::new(x), Box::new(y))),
                },
            }
        },
        SqlExpr::Bin(a, b, op) => if expected is Some && expected->0 !is Bool {
            Err(ErrorView::UnexpectedType(TypeView::Bool, expected->0))
        } else if *a is Lit {
            match expr_typed(vars, *b, None) {
                Err(e) => Err(e),
                Ok(y) => match expr_typed(vars, *a, Some(y.ty())) {
                    Err(e) => Err(e),
                    Ok(x) => bin_typed(op, x, y),
                },
            }
        } else {
            match expr_typed(vars, *a, None) {
                Err(e) => Err(e),
                Ok(x) => match expr_typed(vars, *b, Some(x.ty())) {
                    Err(e) => Err(e),
                    Ok(y) => bin_typed(op, x, y),
                },
            }
        },
        SqlExpr::Var(_) | SqlExpr::Param(_) => arbitrary(),
    }
}

/// Reads an element of a tuple literal at the type `ty`.
fn type_tuple_elem(lit: &SqlLiteral, ty: &AlgebraicType) -> (r: TypingResult<AlgebraicValue>)
    ensures
        crate::literal::result_view(r) == tuple_elem(*lit, ty@),
        r matches Ok(v) ==> v.wf(),
{
    match lit {
        SqlLiteral::Bool(v) => if ty.is_bool() {
            Ok(AlgebraicValue::Bool(*v))
        } else {
            Err(UnexpectedType::new(&AlgebraicType::Bool, ty))
        },
        SqlLiteral::Str(v) | SqlLiteral::Num(v) | SqlLiteral::Hex(v) => {
            match crate::literal::parse(v.as_str(), ty) {
                Ok(x) => Ok(x),
                Err(_) => Err(InvalidLiteral::new(v.clone(), ty)),
            }
        },
        SqlLiteral::Arr(v) => match ty {
            AlgebraicType::Array(a) => match crate::literal::parse_array_value(v, a) {
                Ok(x) => Ok(x),
                Err(_) => Err(InvalidLiteral::new(ARRAY_LITERAL.to_owned(), &*a.elem_ty)),
            },
            _ => Err(UnexpectedArrayType::new(ty)),
        },
    }
}

/// Reads a tuple literal at a product type.
fn type_tuple(t: &Vec<SqlLiteral>, pty: &ProductType) -> (r: TypingResult<Vec<AlgebraicValue>>)
    ensures
        match r {
            Ok(values) => crate::literal::collected(tuple_elems(t@, pty@)) == Ok::<_, ErrorView>(
                crate::expr::value_views(values@),
            ),
            Err(e) => crate::literal::collected(tuple_elems(t@, pty@)) == Err::<
                Seq<ValueView>,
                _,
            >(e@),
        },
        r matches Ok(values) ==> crate::value::values_wf(values@),
{
    let ghost results = tuple_elems(t@, pty@);
    let mut values: Vec<AlgebraicValue> = Vec::new();
    let n: usize = if t.len() <= pty.elements.len() {
        t.len()
    } else {
        pty.elements.len()
    };
    for i in 0..n
        invariant
            n == results.len(),
            n <= t@.len(),
            n <= pty.elements@.len(),
            results == tuple_elems(t@, pty@),
            values@.len() == i,
            crate::value::values_wf(values@),
            forall|j: int|
                #![trigger results[j]]
                0 <= j < i ==> results[j] == Ok::<ValueView, ErrorView>(values@[j]@),
    {
        match type_tuple_elem(&t[i], &pty.elements[i].algebraic_type) {
            Ok(v) => {
                values.push(v);
            },
            Err(e) => {
                proof {
                    crate::literal::lemma_collected_err(results, i as int);
                }
                return Err(e);
            },
        }
    }
    proof {
        crate::literal::lemma_collected_ok(results);
        assert(results.map_values(|r: Result<ValueView, ErrorView>| r->Ok_0)
            =~= crate::expr::value_views(values@));
    }
    Ok(values)
}

/// Resolves a qualified name.
fn type_field(vars: &Relvars, table: SqlIdent, field: SqlIdent) -> (r: TypingResult<FieldProject>)
    ensures
        crate::literal::result_view(r) == field_typed(vars@, table.0@, field.0@),
{
    match vars.get(table.0.as_str()) {
        Some(schema) => match schema.get_column_by_name(field.0.as_str()) {
            Some(column) => Ok(
                FieldProject {
                    table: table.0,
                    field: column.col_pos as usize,
                    ty: column.col_type.clone(),
                },
            ),
            None => Err(Unresolved::var(field.0.as_str())),
        },
        None => Err(Unresolved::var(table.0.as_str())),
    }
}

/// Types a literal.
fn type_literal(lit: SqlLiteral, expected: Option<&AlgebraicType>) -> (r: TypingResult<Expr>)
    ensures
        crate::literal::result_view(r) == literal_typed(lit, crate::ty::optional_type(expected)),
        r matches Ok(e) ==> e.wf(),
{
    match (lit, expected) {
        (SqlLiteral::Bool(v), None) => Ok(Expr::bool(v)),
        (SqlLiteral::Bool(v), Some(ty)) => if ty.is_bool() {
            Ok(Expr::bool(v))
        } else {
            Err(UnexpectedType::new(&AlgebraicType::Bool, ty))
        },
        (_, None) => Err(Unresolved::literal()),
        (SqlLiteral::Str(v) | SqlLiteral::Num(v) | SqlLiteral::Hex(v), Some(ty)) => {
            match crate::literal::parse(v.as_str(), ty) {
                Ok(x) => Ok(Expr::Value(x, ty.clone())),
                Err(_) => Err(InvalidLiteral::new(v, ty)),
            }
        },
        (SqlLiteral::Arr(_), Some(ty)) => Err(UnexpectedArrayType::new(ty)),
    }
}

/// Type checks a scalar expression and lowers it into a typed expression.
pub fn type_expr(vars: &Relvars, expr: SqlExpr, expected: Option<&AlgebraicType>) -> (r: TypingResult<
    Expr,
>)
    requires
        expr.is_resolved(),
    ensures
        crate::literal::result_view(r) == expr_typed(
            vars@,
            expr,
            crate::ty::optional_type(expected),
        ),
        r matches Ok(e) ==> e.wf(),
    decreases expr,
{
    match expr {
        SqlExpr::Lit(lit) => type_literal(lit, expected),
        SqlExpr::Tup(t) => match expected {
            None => Err(Unresolved::literal()),
            Some(ty) => match ty {
                AlgebraicType::Product(pty) => match type_tuple(&t, pty) {
                    Ok(values) => Ok(Expr::Tuple(values, ty.clone())),
                    Err(e) => Err(e),
                },
                _ => Err(UnexpectedType::new(&AlgebraicType::Product(ProductType::unit()), ty)),
            },
        },
        SqlExpr::Field(table, field) => match type_field(vars, table, field) {
            Ok(f) => {
                if let Some(ty) = expected {
                    if !f.ty.same(ty) {
                        return Err(UnexpectedType::new(&f.ty, ty));
                    }
                }
                Ok(Expr::Field(f))
            },
            Err(e) => Err(e),
        },
        SqlExpr::Log(a, b, op) => {
            if let Some(ty) = expected {
                if !ty.is_bool() {
                    return Err(UnexpectedType::new(&AlgebraicType::Bool, ty));
                }
            }
            let x = match type_expr(vars, *a, Some(&AlgebraicType::Bool)) {
                Ok(x) => x,
                Err(e) => {
                    return Err(e);
                },
            };
            let y = match type_expr(vars, *b, Some(&AlgebraicType::Bool)) {
                Ok(y) => y,
                Err(e) => {
                    return Err(e);
                },
            };
            Ok(Expr::LogOp(op, Box::new(x), Box::new(y)))
        },
        SqlExpr::Bin(a, b, op) => {
            if let Some(ty) = expected {
                if !ty.is_bool() {
                    return Err(UnexpectedType::new(&AlgebraicType::Bool, ty));
                }
            }
            if matches!(&*a, SqlExpr::Lit(_)) {
                let y = match type_expr(vars, *b, None) {
                    Ok(y) => y,
                    Err(e) => {
                        return Err(e);
                    },
                };
                let x = match type_expr(vars, *a, Some(y.ty())) {
                    Ok(x) => x,
                    Err(e) => {
                        return Err(e);
                    },
                };
                if !op_supports_type(op, x.ty()) {
                    return Err(InvalidOp::new(op, x.ty()));
                }
                Ok(Expr::BinOp(op, Box::new(x), Box::new(y)))
            } else {
                let x = match type_expr(vars, *a, None) {
                    Ok(x) => x,
                    Err(e) => {
                        return Err(e);
                    },
                };
                let y = match type_expr(vars, *b, Some(x.ty())) {
                    Ok(y) => y,
                    Err(e) => {
                        return Err(e);
                    },
                };
                if !op_supports_type(op, x.ty()) {
                    return Err(InvalidOp::new(op, x.ty()));
                }
                Ok(Expr::BinOp(op, Box::new(x), Box::new(y)))
            }
        },
        SqlExpr::Var(_) | SqlExpr::Param(_) => vstd::pervasive::unreached(),
    }
}

/// Type checks a predicate and applies it to a relation.
pub fn type_select(input: RelExpr, expr: SqlExpr, vars: &Relvars) -> (r: TypingResult<RelExpr>)
    requires
        expr.is_resolved(),
    ensures
        match expr_typed(vars@, expr, Some(TypeView::Bool)) {
            Ok(predicate) => r matches Ok(RelExpr::Select(relation, e)) && *relation == input && e@
                == predicate,
            Err(error) => r matches Err(e) && e@ == error,
        },
        r matches Ok(RelExpr::Select(_, e)) ==> e.wf() && e@.ty() == TypeView::Bool
            && crate::laws::well_typed(vars@, e@),
{
    proof {
        crate::laws::law_expected_type(vars@, expr, TypeView::Bool);
        crate::laws::law_well_typed(vars@, expr, Some(TypeView::Bool));
    }
    match type_expr(vars, expr, Some(&AlgebraicType::Bool)) {
        Ok(e) => Ok(RelExpr::Select(Box::new(input), e)),
        Err(e) => Err(e),
    }
}

/// The number of rows that a `LIMIT` clause allows, where `parts` is the decimal number that its
/// text denotes.
pub open spec fn limit_value(parts: Option<(int, int)>, text: Seq<char>) -> Option<int> {
    match crate::literal::int_value(parts, text, IntKind::U64) {
        Ok(v) => Some(v->Int_1),
        Err(_) => None,
    }
}

/// Type checks a `LIMIT` clause.
pub fn type_limit(input: ProjectList, limit: &str) -> (r: TypingResult<ProjectList>)
    ensures
        match limit_value(crate::decimal::decimal_literal(limit@), limit@) {
            Some(n) => r matches Ok(ProjectList::Limit(list, k)) && *list == input && k == n,
            None => r matches Err(e) && e@ == ErrorView::InvalidLiteral(
                limit@,
                TypeView::Int(IntKind::U64),
            ),
        },
        forall|p: int, k: int| #[trigger]
            crate::decimal::is_number(limit@, p, k) ==> match limit_value(
                Some(crate::decimal::number_parts(limit@, p, k)),
                limit@,
            ) {
                Some(n) => r matches Ok(ProjectList::Limit(list, rows)) && *list == input && rows
                    == n,
                None => r is Err,
            },
        crate::decimal::is_plain_integer(limit@) ==> {
            let n = crate::decimal::integer_text(limit@, true)->0;
            if 0 <= n <= u64::MAX {
                r matches Ok(ProjectList::Limit(list, k)) && *list == input && k == n
            } else {
                r is Err
            }
        },
{
    match crate::literal::parse_int(limit, &AlgebraicType::U64) {
        Ok(AlgebraicValue::U64(n)) => Ok(ProjectList::Limit(Box::new(input), n)),
        _ => Err(InvalidLiteral::new(limit.to_owned(), &AlgebraicType::U64)),
    }
}

/// Whether the alias of a column of a `SELECT` list is also that of an earlier one.
pub open spec fn is_duplicate(elems: Seq<ProjectElem>, i: int) -> bool {
    exists|j: int| 0 <= j < i && (#[trigger] elems[j]).1.0@ == elems[i].1.0@
}

/// The alias and the column at a position of a `SELECT` list.
pub open spec fn elem_projected(
    vars: Map<Seq<char>, TableSchema>,
    elems: Seq<ProjectElem>,
    i: int,
) -> Result<(Seq<char>, FieldView), ErrorView> {
    if is_duplicate(elems, i) {
        Err(ErrorView::DuplicateName(elems[i].1.0@))
    } else {
        match expr_typed(vars, elems[i].0.as_expr(), None) {
            Ok(e) => Ok((elems[i].1.0@, e->Field_0)),
            Err(e) => Err(e),
        }
    }
}

/// The aliases and the columns of a `SELECT` list.
pub open spec fn projected(
    vars: Map<Seq<char>, TableSchema>,
    elems: Seq<ProjectElem>,
) -> Result<Seq<(Seq<char>, FieldView)>, ErrorView> {
    crate::literal::collected(Seq::new(elems.len(), |i: int| elem_projected(vars, elems, i)))
}

/// The contents of aliases and columns.
pub open spec fn columns_view(columns: Seq<(String, FieldProject)>) -> Seq<(Seq<char>, FieldView)> {
    columns.map_values(|c: (String, FieldProject)| (c.0@, c.1@))
}

/// Types the columns of a `SELECT` list.
fn type_columns(elems: &Vec<ProjectElem>, vars: &Relvars) -> (r: TypingResult<
    Vec<(String, FieldProject)>,
>)
    requires
        forall|i: int| 0 <= i < elems@.len() ==> (#[trigger] elems@[i]).0 is Field,
    ensures
        match r {
            Ok(columns) => projected(vars@, elems@) == Ok::<_, ErrorView>(columns_view(columns@)),
            Err(e) => projected(vars@, elems@) == Err::<Seq<(Seq<char>, FieldView)>, _>(e@),
        },
{
    let ghost results = Seq::new(elems@.len(), |i: int| elem_projected(vars@, elems@, i));
    let mut projections: Vec<(String, FieldProject)> = Vec::new();
    let mut names: StringHashSet = StringHashSet::new();
    let n: usize = elems.len();
    for i in 0..n
        invariant
            n == elems@.len(),
            results == Seq::new(elems@.len(), |i: int| elem_projected(vars@, elems@, i)),
            forall|i: int| 0 <= i < elems@.len() ==> (#[trigger] elems@[i]).0 is Field,
            forall|name: Seq<char>| #[trigger] names@.contains(name) <==> exists|j: int|
                0 <= j < i && (#[trigger] elems@[j]).1.0@ == name,
            projections@.len() == i,
            forall|j: int|
                #![trigger results[j]]
                0 <= j < i ==> results[j] == Ok::<_, ErrorView>(
                    (projections@[j].0@, projections@[j].1@),
                ),
    {
        let ProjectElem(column, SqlIdent(alias)) = &elems[i];
        let ghost before = names@;
        if !names.insert(alias.clone()) {
            proof {
                assert(before.contains(alias@));
                assert(is_duplicate(elems@, i as int));
                crate::literal::lemma_collected_err(results, i as int);
            }
            return Err(TypingError::DuplicateName(DuplicateName(alias.clone())));
        }
        assert(!before.contains(alias@));
        assert(!is_duplicate(elems@, i as int));
        match type_expr(vars, column.to_expr(), None) {
            Ok(Expr::Field(p)) => {
                projections.push((alias.clone(), p));
            },
            Ok(_) => {},
            Err(e) => {
                proof {
                    crate::literal::lemma_collected_err(results, i as int);
                }
                return Err(e);
            },
        }
        assert(elems@[i as int].1.0@ == alias@);
    }
    proof {
        crate::literal::lemma_collected_ok(results);
        assert(results.map_values(|r: Result<(Seq<char>, FieldView), ErrorView>| r->Ok_0)
            =~= columns_view(projections@));
    }
    Ok(projections)
}

/// Type checks a `SELECT` list and applies it to a relation.
pub fn type_proj(input: RelExpr, proj: Project, vars: &Relvars) -> (r: TypingResult<ProjectList>)
    requires
        proj.is_resolved(),
    ensures
        match proj {
            Project::Star(None) => if input.nfields() > 1 {
                r matches Err(e) && e@ == ErrorView::WildcardJoin
            } else {
                r matches Ok(ProjectList::Name(names)) && names@ == seq![ProjectName::Only(input)]
            },
            Project::Star(Some(var)) => if input.binds(var.0@) {
                r matches Ok(ProjectList::Name(names)) && names@ == seq![
                    ProjectName::Named(input, var.0),
                ]
            } else {
                r matches Err(e) && e@ == ErrorView::UnresolvedVar(var.0@)
            },
            Project::Count(alias) => r matches Ok(ProjectList::Agg(relations, agg, name, ty))
                && relations@ == seq![input] && agg == AggType::Count && name == alias.0 && ty@
                == TypeView::Int(IntKind::U64),
            Project::Exprs(elems) => match projected(vars@, elems@) {
                Ok(expected) => r matches Ok(ProjectList::List(relations, columns)) && relations@
                    == seq![input] && columns_view(columns@) == expected && columns@.len()
                    == expected.len() && (forall|i: int|
                    0 <= i < columns@.len() ==> (#[trigger] columns@[i]).0@ == expected[i].0
                        && columns@[i].1@ == expected[i].1),
                Err(error) => r matches Err(e) && e@ == error,
            },
        },
{
    match proj {
        Project::Star(None) => if input.is_join() {
            Err(TypingError::InvalidWildcard(InvalidWildcard::Join))
        } else {
            Ok(ProjectList::Name(vec![ProjectName::Only(input)]))
        },
        Project::Star(Some(SqlIdent(var))) => if input.has_field(var.as_str()) {
            Ok(ProjectList::Name(vec![ProjectName::Named(input, var)]))
        } else {
            Err(Unresolved::var(var.as_str()))
        },
        Project::Count(SqlIdent(alias)) => Ok(
            ProjectList::Agg(vec![input], AggType::Count, alias, AlgebraicType::U64),
        ),
        Project::Exprs(elems) => match type_columns(&elems, vars) {
            Ok(projections) => Ok(ProjectList::List(vec![input], projections)),
            Err(e) => Err(e),
        },
    }
}

} // verus!
