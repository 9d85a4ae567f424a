//! Statements.
use vstd::prelude::*;

use crate::expr::{Expr, ProjectList};
use crate::schema::TableSchema;
use crate::value::{AlgebraicValue, ProductValue};

verus! {

/// A type checked statement.
#[derive(Debug, PartialEq)]
pub enum Statement {
    /// A query.
    Select(ProjectList),
    /// A change.
    DML(DML),
}

/// A change of the rows of a table.
#[derive(Debug, PartialEq)]
pub enum DML {
    Insert(TableInsert),
    Update(TableUpdate),
    Delete(TableDelete),
}

/// New rows of a table.
#[derive(Debug, PartialEq)]
pub struct TableInsert {
    pub table: TableSchema,
    pub rows: Vec<ProductValue>,
}

/// New values of columns, by position, in the rows that satisfy a predicate.
#[derive(Debug, PartialEq)]
pub struct TableUpdate {
    pub table: TableSchema,
    pub columns: Vec<(u16, AlgebraicValue)>,
    pub filter: Option<Expr>,
}

/// The removal of the rows that satisfy a predicate.
#[derive(Debug, PartialEq)]
pub struct TableDelete {
    pub table: TableSchema,
    pub filter: Option<Expr>,
}

} // verus!
