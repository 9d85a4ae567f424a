//! Typed expressions and relational expressions.
use vstd::prelude::*;

use crate::ast::{BinOp, LogOp};
use crate::schema::TableSchema;
use crate::ty::{AlgebraicType, TypeView};
use crate::value::{AlgebraicValue, ValueView};

verus! {

/// A column of a table, with its type.
#[derive(Debug, PartialEq)]
pub struct FieldProject {
    pub table: String,
    pub field: usize,
    pub ty: AlgebraicType,
}

/// A typed scalar expression.
#[derive(Debug, PartialEq)]
pub enum Expr {
    /// A comparison.
    BinOp(BinOp, Box<Expr>, Box<Expr>),
    /// A conjunction or disjunction.
    LogOp(LogOp, Box<Expr>, Box<Expr>),
    /// A constant and its type.
    Value(AlgebraicValue, AlgebraicType),
    /// Constants and the product type that they are read at.
    Tuple(Vec<AlgebraicValue>, AlgebraicType),
    /// A column.
    Field(FieldProject),
}

/// The mathematical content of an [`Expr`].
pub ghost enum ExprView {
    BinOp(BinOp, Box<ExprView>, Box<ExprView>),
    LogOp(LogOp, Box<ExprView>, Box<ExprView>),
    Value(ValueView, TypeView),
    Tuple(Seq<ValueView>, TypeView),
    Field(FieldView),
}

/// The mathematical content of a [`FieldProject`].
pub ghost struct FieldView {
    pub table: Seq<char>,
    pub field: int,
    pub ty: TypeView,
}

impl View for FieldProject {
    type V = FieldView;

    open spec fn view(&self) -> FieldView {
        FieldView { table: self.table@, field: self.field as int, ty: self.ty@ }
    }
}

impl View for Expr {
    type V = ExprView;

    open spec fn view(&self) -> ExprView {
        self.content()
    }
}

/// The contents of values.
pub open spec fn value_views(values: Seq<AlgebraicValue>) -> Seq<ValueView> {
    values.map_values(|v: AlgebraicValue| v@)
}

impl ExprView {
    /// The type of an expression.
    pub open spec fn ty(self) -> TypeView {
        match self {
            ExprView::BinOp(..) | ExprView::LogOp(..) => TypeView::Bool,
            ExprView::Value(_, ty) => ty,
            ExprView::Tuple(_, ty) => ty,
            ExprView::Field(f) => f.ty,
        }
    }

    /// A boolean constant.
    pub open spec fn bool(v: bool) -> ExprView {
        ExprView::Value(ValueView::Bool(v), TypeView::Bool)
    }
}

impl Expr {
    /// The mathematical content of this expression.
    pub open spec fn content(self) -> ExprView
        decreases self,
    {
        match self {
            Expr::BinOp(op, a, b) => ExprView::BinOp(
                op,
                Box::new((*a).content()),
                Box::new((*b).content()),
            ),
            Expr::LogOp(op, a, b) => ExprView::LogOp(
                op,
                Box::new((*a).content()),
                Box::new((*b).content()),
            ),
            Expr::Value(v, ty) => ExprView::Value(v@, ty@),
            Expr::Tuple(vs, ty) => ExprView::Tuple(value_views(vs@), ty@),
            Expr::Field(f) => ExprView::Field(f@),
        }
    }

    /// The constants are well-formed.
    pub open spec fn wf(self) -> bool
        decreases self,
    {
        match self {
            Expr::BinOp(_, a, b) => (*a).wf() && (*b).wf(),
            Expr::LogOp(_, a, b) => (*a).wf() && (*b).wf(),
            Expr::Value(v, _) => v.wf(),
            Expr::Tuple(values, _) => crate::value::values_wf(values@),
            Expr::Field(_) => true,
        }
    }

    /// A boolean constant.
    pub fn bool(v: bool) -> (r: Expr)
        ensures
            r@ == ExprView::bool(v),
            r.wf(),
    {
        Expr::Value(AlgebraicValue::Bool(v), AlgebraicType::Bool)
    }

    /// The type of this expression.
    pub fn ty(&self) -> (r: &AlgebraicType)
        ensures
            r@ == self@.ty(),
    {
        match self {
            Expr::BinOp(..) | Expr::LogOp(..) => &AlgebraicType::Bool,
            Expr::Value(_, ty) => ty,
            Expr::Tuple(_, ty) => ty,
            Expr::Field(f) => &f.ty,
        }
    }
}

/// A table under an alias.
#[derive(Debug, PartialEq)]
pub struct Relvar {
    pub schema: TableSchema,
    pub alias: String,
}

/// A join whose right side is a table.
#[derive(Debug, PartialEq)]
pub struct LeftDeepJoin {
    pub lhs: Box<RelExpr>,
    pub rhs: Relvar,
}

/// A relational expression.
#[derive(Debug, PartialEq)]
pub enum RelExpr {
    /// A table.
    RelVar(Relvar),
    /// The rows that satisfy a predicate.
    Select(Box<RelExpr>, Expr),
    /// A cross product.
    LeftDeepJoin(LeftDeepJoin),
    /// A join on two columns.
    EqJoin(LeftDeepJoin, FieldProject, FieldProject),
}

impl RelExpr {
    /// The number of tables.
    pub open spec fn nfields(self) -> nat
        decreases self,
    {
        match self {
            RelExpr::RelVar(_) => 1,
            RelExpr::Select(input, _) => (*input).nfields(),
            RelExpr::LeftDeepJoin(join) => (*join.lhs).nfields() + 1,
            RelExpr::EqJoin(join, _, _) => (*join.lhs).nfields() + 1,
        }
    }

    /// Whether a table has the given alias.
    pub open spec fn binds(self, name: Seq<char>) -> bool
        decreases self,
    {
        match self {
            RelExpr::RelVar(var) => var.alias@ == name,
            RelExpr::Select(input, _) => (*input).binds(name),
            RelExpr::LeftDeepJoin(join) => join.rhs.alias@ == name || (*join.lhs).binds(name),
            RelExpr::EqJoin(join, _, _) => join.rhs.alias@ == name || (*join.lhs).binds(name),
        }
    }

    /// There is at least one table.
    pub proof fn lemma_nfields(self)
        ensures
            self.nfields() >= 1,
        decreases self,
    {
        match self {
            RelExpr::Select(input, _) => (*input).lemma_nfields(),
            _ => {},
        }
    }

    /// Whether there is more than one table.
    pub fn is_join(&self) -> (r: bool)
        ensures
            r == (self.nfields() > 1),
        decreases self,
    {
        match self {
            RelExpr::RelVar(_) => false,
            RelExpr::Select(input, _) => (&**input).is_join(),
            RelExpr::LeftDeepJoin(join) => {
                proof {
                    (*join.lhs).lemma_nfields();
                }
                true
            },
            RelExpr::EqJoin(join, _, _) => {
                proof {
                    (*join.lhs).lemma_nfields();
                }
                true
            },
        }
    }

    /// Whether a table has the given alias.
    pub fn has_field(&self, name: &str) -> (r: bool)
        ensures
            r == self.binds(name@),
        decreases self,
    {
        match self {
            RelExpr::RelVar(var) => crate::ty::same_text(var.alias.as_str(), name),
            RelExpr::Select(input, _) => (&**input).has_field(name),
            RelExpr::LeftDeepJoin(join) => {
                crate::ty::same_text(join.rhs.alias.as_str(), name) || (&*join.lhs).has_field(name)
            },
            RelExpr::EqJoin(join, _, _) => {
                crate::ty::same_text(join.rhs.alias.as_str(), name) || (&*join.lhs).has_field(name)
            },
        }
    }
}

/// The rows of one table.
#[derive(Debug, PartialEq)]
pub enum ProjectName {
    /// The rows of the only table.
    Only(RelExpr),
    /// The rows of the table of the given alias.
    Named(RelExpr, String),
}

/// The aggregates.
#[derive(Debug, Clone, Copy, PartialEq, Eq, Structural)]
pub enum AggType {
    Count,
}

/// What a query returns.
#[derive(Debug, PartialEq)]
pub enum ProjectList {
    /// Rows of one table.
    Name(Vec<ProjectName>),
    /// Columns under their aliases.
    List(Vec<RelExpr>, Vec<(String, FieldProject)>),
    /// At most so many rows.
    Limit(Box<ProjectList>, u64),
    /// An aggregate under its alias, with its type.
    Agg(Vec<RelExpr>, AggType, String, AlgebraicType),
}

} // verus!
