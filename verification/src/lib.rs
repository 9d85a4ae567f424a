//! Type checking of SQL expressions, `SELECT` lists and literals against algebraic types.
use vstd::prelude::*;

use crate::statement::Statement;

pub mod ast;
pub mod content_laws;
pub mod decimal;
pub mod errors;
pub mod expr;
pub mod formats;
pub mod laws;
pub mod literal;
pub mod literal_laws;
pub mod names;
pub mod schema;
pub mod statement;
pub mod ty;
pub mod typing;
pub mod typing_laws;
pub mod value;

verus! {

/// The source of a statement.
#[derive(Debug)]
pub enum StatementSource {
    Subscription,
    Query,
}

/// A statement context.
///
/// This is a wrapper around a statement, its source, and the SQL text that it was read from.
#[derive(Debug)]
pub struct StatementCtx<'a> {
    pub statement: Statement,
    pub sql: &'a str,
    pub source: StatementSource,
}

} // verus!
