//! The syntax of scalar expressions and of `SELECT` lists.
use vstd::prelude::*;

verus! {

/// An identifier. Identifiers are case sensitive.
#[derive(Debug, PartialEq, Eq)]
pub struct SqlIdent(pub String);

/// A constant.
#[derive(Debug, PartialEq, Eq)]
pub enum SqlLiteral {
    /// A boolean.
    Bool(bool),
    /// A hexadecimal value like `0xFF`.
    Hex(String),
    /// An integer or a float.
    Num(String),
    /// A string.
    Str(String),
    /// An array of constants.
    Arr(Vec<SqlLiteral>),
}

/// The comparison operators.
#[derive(Debug, Clone, Copy, PartialEq, Eq, Structural)]
pub enum BinOp {
    Eq,
    Ne,
    Lt,
    Gt,
    Lte,
    Gte,
}

/// The logical operators.
#[derive(Debug, Clone, Copy, PartialEq, Eq, Structural)]
pub enum LogOp {
    And,
    Or,
}

/// A named parameter.
#[derive(Debug, Clone, Copy, PartialEq, Eq, Structural)]
pub enum Parameter {
    /// `:sender`
    Sender,
}

/// A scalar expression.
#[derive(Debug, PartialEq, Eq)]
pub enum SqlExpr {
    /// A constant.
    Lit(SqlLiteral),
    /// A tuple of constants.
    Tup(Vec<SqlLiteral>),
    /// An unqualified column.
    Var(SqlIdent),
    /// A parameter.
    Param(Parameter),
    /// A column of a table.
    Field(SqlIdent, SqlIdent),
    /// A comparison.
    Bin(Box<SqlExpr>, Box<SqlExpr>, BinOp),
    /// A conjunction or disjunction.
    Log(Box<SqlExpr>, Box<SqlExpr>, LogOp),
}

impl SqlExpr {
    /// Whether every name is qualified and no parameter is left.
    pub open spec fn is_resolved(self) -> bool
        decreases self,
    {
        match self {
            SqlExpr::Var(_) | SqlExpr::Param(_) => false,
            SqlExpr::Lit(_) | SqlExpr::Tup(_) | SqlExpr::Field(..) => true,
            SqlExpr::Bin(a, b, _) => (*a).is_resolved() && (*b).is_resolved(),
            SqlExpr::Log(a, b, _) => (*a).is_resolved() && (*b).is_resolved(),
        }
    }
}

impl SqlExpr {
    /// Whether every name is qualified and no parameter is left.
    pub fn resolved(&self) -> (r: bool)
        ensures
            r == self.is_resolved(),
        decreases self,
    {
        match self {
            SqlExpr::Var(_) | SqlExpr::Param(_) => false,
            SqlExpr::Lit(_) | SqlExpr::Tup(_) | SqlExpr::Field(..) => true,
            SqlExpr::Bin(a, b, _) => (&**a).resolved() && (&**b).resolved(),
            SqlExpr::Log(a, b, _) => (&**a).resolved() && (&**b).resolved(),
        }
    }
}

/// A column in a `SELECT` list.
#[derive(Debug, PartialEq, Eq)]
pub enum ProjectExpr {
    /// An unqualified column.
    Var(SqlIdent),
    /// A column of a table.
    Field(SqlIdent, SqlIdent),
}

impl ProjectExpr {
    /// The column as a scalar expression.
    pub open spec fn as_expr(self) -> SqlExpr {
        match self {
            ProjectExpr::Var(name) => SqlExpr::Var(name),
            ProjectExpr::Field(table, field) => SqlExpr::Field(table, field),
        }
    }

    /// A copy of the column as a scalar expression.
    pub fn to_expr(&self) -> (r: SqlExpr)
        ensures
            r == self.as_expr(),
    {
        match self {
            ProjectExpr::Var(name) => SqlExpr::Var(SqlIdent(name.0.clone())),
            ProjectExpr::Field(table, field) => SqlExpr::Field(
                SqlIdent(table.0.clone()),
                SqlIdent(field.0.clone()),
            ),
        }
    }
}

/// A column in a `SELECT` list and its alias.
#[derive(Debug, PartialEq, Eq)]
pub struct ProjectElem(pub ProjectExpr, pub SqlIdent);

/// A `SELECT` list.
#[derive(Debug, PartialEq, Eq)]
pub enum Project {
    /// `*` or `a.*`
    Star(Option<SqlIdent>),
    /// `a.x, b.y`
    Exprs(Vec<ProjectElem>),
    /// `COUNT(*)`
    Count(SqlIdent),
}

impl Project {
    /// Whether every column is qualified.
    pub open spec fn is_resolved(self) -> bool {
        self matches Project::Exprs(elems) ==> forall|i: int|
            0 <= i < elems@.len() ==> (#[trigger] elems@[i]).0 is Field
    }

    /// Whether every column is qualified.
    pub fn resolved(&self) -> (r: bool)
        ensures
            r == self.is_resolved(),
    {
        match self {
            Project::Exprs(elems) => {
                let n: usize = elems.len();
                for i in 0..n
                    invariant
                        n == elems@.len(),
                        self == Project::Exprs(*elems),
                        forall|j: int| 0 <= j < i ==> (#[trigger] elems@[j]).0 is Field,
                {
                    if matches!(elems[i].0, ProjectExpr::Var(_)) {
                        assert(!(elems@[i as int].0 is Field));
                        return false;
                    }
                }
                true
            },
            _ => true,
        }
    }
}

} // verus!
