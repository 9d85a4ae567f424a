//! Why a literal, an expression or a `SELECT` list is refused.
use vstd::prelude::*;

use crate::ast::BinOp;
use crate::ty::{AlgebraicType, TypeView};

verus! {

/// A name or a literal without a type.
#[derive(Debug, PartialEq)]
pub enum Unresolved {
    /// No table or column of this name is in scope.
    Var(String),
    /// Nothing determines the type of the literal.
    Literal,
}

/// A `*` that stands for no single table.
#[derive(Debug, PartialEq)]
pub enum InvalidWildcard {
    /// `SELECT *` over a join.
    Join,
}

/// Two types that differ.
#[derive(Debug, PartialEq)]
pub struct UnexpectedType {
    pub expected: AlgebraicType,
    pub inferred: AlgebraicType,
}

/// A type for which there is no array literal.
#[derive(Debug, PartialEq)]
pub struct UnexpectedArrayType {
    pub expected: AlgebraicType,
}

/// A literal that denotes no value of a type.
#[derive(Debug, PartialEq)]
pub struct InvalidLiteral {
    pub literal: String,
    pub expected: AlgebraicType,
}

/// An operator that does not take operands of a type.
#[derive(Debug, PartialEq)]
pub struct InvalidOp {
    pub op: BinOp,
    pub ty: AlgebraicType,
}

/// An alias that occurs twice.
#[derive(Debug, PartialEq)]
pub struct DuplicateName(pub String);

/// Why an expression or a `SELECT` list is refused.
#[derive(Debug, PartialEq)]
pub enum TypingError {
    Unresolved(Unresolved),
    InvalidWildcard(InvalidWildcard),
    UnexpectedType(UnexpectedType),
    UnexpectedArrayType(UnexpectedArrayType),
    InvalidLiteral(InvalidLiteral),
    InvalidOp(InvalidOp),
    DuplicateName(DuplicateName),
}

/// The result of type checking.
pub type TypingResult<T> = Result<T, TypingError>;

/// The mathematical content of a [`TypingError`].
pub ghost enum ErrorView {
    UnresolvedVar(Seq<char>),
    UnresolvedLiteral,
    WildcardJoin,
    UnexpectedType(TypeView, TypeView),
    UnexpectedArrayType(TypeView),
    InvalidLiteral(Seq<char>, TypeView),
    InvalidOp(BinOp, TypeView),
    DuplicateName(Seq<char>),
}

impl View for TypingError {
    type V = ErrorView;

    open spec fn view(&self) -> ErrorView {
        match self {
            TypingError::Unresolved(Unresolved::Var(name)) => ErrorView::UnresolvedVar(name@),
            TypingError::Unresolved(Unresolved::Literal) => ErrorView::UnresolvedLiteral,
            TypingError::InvalidWildcard(InvalidWildcard::Join) => ErrorView::WildcardJoin,
            TypingError::UnexpectedType(e) => ErrorView::UnexpectedType(e.expected@, e.inferred@),
            TypingError::UnexpectedArrayType(e) => ErrorView::UnexpectedArrayType(e.expected@),
            TypingError::InvalidLiteral(e) => ErrorView::InvalidLiteral(e.literal@, e.expected@),
            TypingError::InvalidOp(e) => ErrorView::InvalidOp(e.op, e.ty@),
            TypingError::DuplicateName(e) => ErrorView::DuplicateName(e.0@),
        }
    }
}

/// Why a text denotes no value of a type.
#[derive(Debug, PartialEq)]
pub enum LiteralError {
    /// The text is not an integer.
    NotAnInteger(String),
    /// The integer is not a value of the type.
    OutOfBounds(String, AlgebraicType),
    /// The text is not a float, or not the name of a variant.
    NotValid(String, AlgebraicType),
    /// The text is not a timestamp, with the reason.
    Timestamp(String),
    /// The text is not hexadecimal.
    Hex,
    /// The text is not an identity.
    Identity,
    /// The text is not a connection id.
    ConnectionId,
    /// There is no literal of the type.
    NotSupported(AlgebraicType),
}

/// The mathematical content of a [`LiteralError`].
pub ghost enum LiteralErrorView {
    NotAnInteger(Seq<char>),
    OutOfBounds(Seq<char>, TypeView),
    NotValid(Seq<char>, TypeView),
    Timestamp(Seq<char>),
    Hex,
    Identity,
    ConnectionId,
    NotSupported(TypeView),
}

impl View for LiteralError {
    type V = LiteralErrorView;

    open spec fn view(&self) -> LiteralErrorView {
        match self {
            LiteralError::NotAnInteger(text) => LiteralErrorView::NotAnInteger(text@),
            LiteralError::OutOfBounds(text, ty) => LiteralErrorView::OutOfBounds(text@, ty@),
            LiteralError::NotValid(text, ty) => LiteralErrorView::NotValid(text@, ty@),
            LiteralError::Timestamp(reason) => LiteralErrorView::Timestamp(reason@),
            LiteralError::Hex => LiteralErrorView::Hex,
            LiteralError::Identity => LiteralErrorView::Identity,
            LiteralError::ConnectionId => LiteralErrorView::ConnectionId,
            LiteralError::NotSupported(ty) => LiteralErrorView::NotSupported(ty@),
        }
    }
}

impl LiteralErrorView {
    /// The type that the error speaks of, if any.
    pub open spec fn ty(self) -> Option<TypeView> {
        match self {
            LiteralErrorView::OutOfBounds(_, ty) => Some(ty),
            LiteralErrorView::NotValid(_, ty) => Some(ty),
            LiteralErrorView::NotSupported(ty) => Some(ty),
            _ => None,
        }
    }

    /// The error in words, where `ty_name` is what the type that it speaks of is called.
    pub open spec fn message_with(self, ty_name: Seq<char>) -> Seq<char> {
        match self {
            LiteralErrorView::NotAnInteger(text) => text + " is not an integer"@,
            LiteralErrorView::OutOfBounds(text, _) => text + " is out of bounds for type "@
                + ty_name,
            LiteralErrorView::NotValid(text, _) => text + " is not a valid "@ + ty_name,
            LiteralErrorView::Timestamp(reason) => reason,
            LiteralErrorView::Hex => "Could not parse hex value"@,
            LiteralErrorView::Identity => "Could not parse identity"@,
            LiteralErrorView::ConnectionId => "Could not parse connection id"@,
            LiteralErrorView::NotSupported(_) => "Literal values for type "@ + ty_name
                + " are not supported"@,
        }
    }

    /// The error in words.
    pub open spec fn message(self) -> Seq<char> {
        self.message_with(
            match self.ty() {
                Some(ty) => crate::names::type_text(ty),
                None => Seq::empty(),
            },
        )
    }
}

impl LiteralError {
    /// The type that the error speaks of, if any.
    pub fn ty(&self) -> (r: Option<&AlgebraicType>)
        ensures
            crate::ty::optional_type(r) == self@.ty(),
    {
        match self {
            LiteralError::OutOfBounds(_, ty) => Some(ty),
            LiteralError::NotValid(_, ty) => Some(ty),
            LiteralError::NotSupported(ty) => Some(ty),
            _ => None,
        }
    }

    /// The error in words, where `ty_name` is what the type that it speaks of is called.
    pub fn message_with(&self, ty_name: &str) -> (r: String)
        ensures
            r@ == self@.message_with(ty_name@),
    {
        match self {
            LiteralError::NotAnInteger(text) => text.clone().concat(" is not an integer"),
            LiteralError::OutOfBounds(text, _) => text.clone().concat(
                " is out of bounds for type ",
            ).concat(ty_name),
            LiteralError::NotValid(text, _) => text.clone().concat(" is not a valid ").concat(
                ty_name,
            ),
            LiteralError::Timestamp(reason) => reason.clone(),
            LiteralError::Hex => "Could not parse hex value".to_owned(),
            LiteralError::Identity => "Could not parse identity".to_owned(),
            LiteralError::ConnectionId => "Could not parse connection id".to_owned(),
            LiteralError::NotSupported(_) => "Literal values for type ".to_owned().concat(
                ty_name,
            ).concat(" are not supported"),
        }
    }

    /// The error in words, with the type that it speaks of as it is called.
    pub fn message(&self) -> (r: String)
        ensures
            r@ == self@.message(),
            self@.ty() matches Some(ty) ==> (crate::names::scalar_text(ty) matches Some(text) ==> r@
                == self@.message_with(text)),
    {
        let ty_name = match self.ty() {
            Some(ty) => crate::names::name_of(ty),
            None => String::new(),
        };
        self.message_with(ty_name.as_str())
    }
}

impl Unresolved {
    pub fn var(name: &str) -> (r: TypingError)
        ensures
            r@ == ErrorView::UnresolvedVar(name@),
    {
        TypingError::Unresolved(Unresolved::Var(name.to_owned()))
    }

    pub fn literal() -> (r: TypingError)
        ensures
            r@ == ErrorView::UnresolvedLiteral,
    {
        TypingError::Unresolved(Unresolved::Literal)
    }
}

impl UnexpectedType {
    pub fn new(expected: &AlgebraicType, inferred: &AlgebraicType) -> (r: TypingError)
        ensures
            r@ == ErrorView::UnexpectedType(expected@, inferred@),
    {
        TypingError::UnexpectedType(
            UnexpectedType { expected: expected.clone(), inferred: inferred.clone() },
        )
    }
}

impl UnexpectedArrayType {
    pub fn new(expected: &AlgebraicType) -> (r: TypingError)
        ensures
            r@ == ErrorView::UnexpectedArrayType(expected@),
    {
        TypingError::UnexpectedArrayType(UnexpectedArrayType { expected: expected.clone() })
    }
}

impl InvalidLiteral {
    pub fn new(literal: String, expected: &AlgebraicType) -> (r: TypingError)
        ensures
            r@ == ErrorView::InvalidLiteral(literal@, expected@),
    {
        TypingError::InvalidLiteral(InvalidLiteral { literal, expected: expected.clone() })
    }
}

impl InvalidOp {
    pub fn new(op: BinOp, ty: &AlgebraicType) -> (r: TypingError)
        ensures
            r@ == ErrorView::InvalidOp(op, ty@),
    {
        TypingError::InvalidOp(InvalidOp { op, ty: ty.clone() })
    }
}

} // verus!
