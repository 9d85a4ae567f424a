//! What the mathematical contents of types, values, expressions and errors are.
use vstd::prelude::*;

use crate::ast::{BinOp, LogOp};
use crate::decimal::Decimal;
use crate::errors::{
    DuplicateName, ErrorView, InvalidLiteral, InvalidOp, InvalidWildcard, LiteralError, LiteralErrorView,
    TypingError, UnexpectedArrayType, UnexpectedType, Unresolved,
};
use crate::expr::{Expr, ExprView, FieldProject, FieldView};
use crate::ty::{AlgebraicType, ArrayType, IntKind, ProductType, SumType, TypeView};
use crate::value::{AlgebraicValue, ArrayValue, ProductValue, SumValue, ValueView};

verus! {

/// The content of a result is the content of its value or of its error.
pub proof fn law_result<A: View, E: View>(a: A, e: E)
    ensures
        crate::literal::result_view(Ok::<A, E>(a)) == Ok::<A::V, E::V>(a@),
        crate::literal::result_view(Err::<A, E>(e)) == Err::<A::V, E::V>(e@),
{
}

/// The content of an optional type is that of the type.
pub proof fn law_optional_type(ty: AlgebraicType)
    ensures
        crate::ty::optional_type(Some(&ty)) == Some(ty@),
        crate::ty::optional_type(None) == None::<TypeView>,
{
}

/// The content of a scalar type is that scalar type.
pub proof fn law_scalar_types()
    ensures
        AlgebraicType::String@ == TypeView::String,
        AlgebraicType::Bool@ == TypeView::Bool,
        AlgebraicType::I8@ == TypeView::Int(IntKind::I8),
        AlgebraicType::U8@ == TypeView::Int(IntKind::U8),
        AlgebraicType::I16@ == TypeView::Int(IntKind::I16),
        AlgebraicType::U16@ == TypeView::Int(IntKind::U16),
        AlgebraicType::I32@ == TypeView::Int(IntKind::I32),
        AlgebraicType::U32@ == TypeView::Int(IntKind::U32),
        AlgebraicType::I64@ == TypeView::Int(IntKind::I64),
        AlgebraicType::U64@ == TypeView::Int(IntKind::U64),
        AlgebraicType::I128@ == TypeView::Int(IntKind::I128),
        AlgebraicType::U128@ == TypeView::Int(IntKind::U128),
        AlgebraicType::I256@ == TypeView::Int(IntKind::I256),
        AlgebraicType::U256@ == TypeView::Int(IntKind::U256),
        AlgebraicType::F32@ == TypeView::F32,
        AlgebraicType::F64@ == TypeView::F64,
{
}

/// The content of a type with components holds the names and the types of all of them, in order.
pub proof fn law_composite_types(r: u32, elem: AlgebraicType, pt: ProductType, st: SumType)
    ensures
        AlgebraicType::Ref(r)@ == TypeView::Ref(r),
        AlgebraicType::Array(ArrayType { elem_ty: Box::new(elem) })@ == TypeView::Array(
            Box::new(elem@),
        ),
        AlgebraicType::Product(pt)@ == TypeView::Product(pt@),
        pt@.len() == pt.elements@.len(),
        forall|i: int|
            #![trigger pt@[i]]
            0 <= i < pt.elements@.len() ==> {
                &&& pt@[i].ty == pt.elements@[i].algebraic_type@
                &&& pt.elements@[i].name matches Some(name) ==> pt@[i].name == Some(name@)
                &&& pt.elements@[i].name is None ==> pt@[i].name is None
            },
        AlgebraicType::Sum(st)@ == TypeView::Sum(st@),
        st@.len() == st.variants@.len(),
        forall|i: int|
            #![trigger st@[i]]
            0 <= i < st.variants@.len() ==> {
                &&& st@[i].ty == st.variants@[i].algebraic_type@
                &&& st.variants@[i].name matches Some(name) ==> st@[i].name == Some(name@)
                &&& st.variants@[i].name is None ==> st@[i].name is None
            },
{
    reveal_with_fuel(AlgebraicType::content, 3);
}

/// The content of a scalar value is that value.
pub proof fn law_scalar_values(v: AlgebraicValue)
    ensures
        v matches AlgebraicValue::Bool(x) ==> v@ == ValueView::Bool(x),
        v matches AlgebraicValue::String(x) ==> v@ == ValueView::String(x@),
        v matches AlgebraicValue::I8(x) ==> v@ == ValueView::Int(IntKind::I8, x as int),
        v matches AlgebraicValue::U8(x) ==> v@ == ValueView::Int(IntKind::U8, x as int),
        v matches AlgebraicValue::I16(x) ==> v@ == ValueView::Int(IntKind::I16, x as int),
        v matches AlgebraicValue::U16(x) ==> v@ == ValueView::Int(IntKind::U16, x as int),
        v matches AlgebraicValue::I32(x) ==> v@ == ValueView::Int(IntKind::I32, x as int),
        v matches AlgebraicValue::U32(x) ==> v@ == ValueView::Int(IntKind::U32, x as int),
        v matches AlgebraicValue::I64(x) ==> v@ == ValueView::Int(IntKind::I64, x as int),
        v matches AlgebraicValue::U64(x) ==> v@ == ValueView::Int(IntKind::U64, x as int),
        v matches AlgebraicValue::I128(x) ==> v@ == ValueView::Int(IntKind::I128, x as int),
        v matches AlgebraicValue::U128(x) ==> v@ == ValueView::Int(IntKind::U128, x as int),
        v matches AlgebraicValue::I256(x) ==> v@ == ValueView::Int(
            IntKind::I256,
            x.hi * 0x1_0000_0000_0000_0000_0000_0000_0000_0000int + x.lo,
        ),
        v matches AlgebraicValue::U256(x) ==> v@ == ValueView::Int(
            IntKind::U256,
            x.hi * 0x1_0000_0000_0000_0000_0000_0000_0000_0000int + x.lo,
        ),
        v matches AlgebraicValue::F32(x) ==> v@ == ValueView::F32(x@),
        v matches AlgebraicValue::F64(x) ==> v@ == ValueView::F64(x@),
{
}

/// The content of a decimal is the integer that its digits and its sign denote, and its scale.
pub proof fn law_decimal(d: Decimal, digits: Seq<char>)
    requires
        digits.len() > 0,
        forall|i: int| 0 <= i < digits.len() ==> '0' <= #[trigger] digits[i] <= '9',
        d.unscaled@ == digits || d.unscaled@ == seq!['-'] + digits,
    ensures
        d@.scale == d.scale,
        d@.unscaled == if d.unscaled@ == digits {
            crate::decimal::text_value(digits)
        } else {
            -crate::decimal::text_value(digits)
        },
{
    if d.unscaled@ == digits {
        assert('0' <= digits[0] <= '9');
    } else {
        assert(d.unscaled@.skip(1) =~= digits);
    }
}

/// The content of an optional decimal is that of the decimal.
pub proof fn law_optional_decimal(d: Decimal)
    ensures
        crate::decimal::optional_parts(Some(d)) == Some((d@.unscaled, d@.scale)),
        crate::decimal::optional_parts(None) == None::<(int, int)>,
        crate::decimal::optional_wf(Some(d)) == d.wf(),
{
}

/// The content of a value with components holds the contents of all of them, in order.
pub proof fn law_composite_values(sum: SumValue, product: ProductValue, array: ArrayValue)
    ensures
        AlgebraicValue::Sum(sum)@ == ValueView::Sum(sum.tag, Box::new(sum.value@)),
        AlgebraicValue::Product(product)@ is Product,
        AlgebraicValue::Product(product)@->Product_0.len() == product.elements@.len(),
        forall|i: int|
            #![trigger AlgebraicValue::Product(product)@->Product_0[i]]
            0 <= i < product.elements@.len() ==> AlgebraicValue::Product(product)@->Product_0[i]
                == product.elements@[i]@,
        AlgebraicValue::Array(array)@ == array@,
{
    reveal_with_fuel(AlgebraicValue::content, 2);
}

/// The content of an array is the type and the contents of its elements, in order.
pub proof fn law_arrays(array: ArrayValue)
    ensures
        array@ is Array,
        array matches ArrayValue::Bool(v) ==> array@->Array_0 == TypeView::Bool
            && array@->Array_1.len() == v@.len() && (forall|i: int|
            0 <= i < v@.len() ==> #[trigger] array@->Array_1[i] == ValueView::Bool(v@[i])),
        array matches ArrayValue::I8(v) ==> array@->Array_0 == TypeView::Int(IntKind::I8)
            && array@->Array_1.len() == v@.len() && (forall|i: int|
            0 <= i < v@.len() ==> #[trigger] array@->Array_1[i] == ValueView::Int(IntKind::I8, v@[i] as int)),
        array matches ArrayValue::U8(v) ==> array@->Array_0 == TypeView::Int(IntKind::U8)
            && array@->Array_1.len() == v@.len() && (forall|i: int|
            0 <= i < v@.len() ==> #[trigger] array@->Array_1[i] == ValueView::Int(IntKind::U8, v@[i] as int)),
        array matches ArrayValue::I16(v) ==> array@->Array_0 == TypeView::Int(IntKind::I16)
            && array@->Array_1.len() == v@.len() && (forall|i: int|
            0 <= i < v@.len() ==> #[trigger] array@->Array_1[i] == ValueView::Int(IntKind::I16, v@[i] as int)),
        array matches ArrayValue::U16(v) ==> array@->Array_0 == TypeView::Int(IntKind::U16)
            && array@->Array_1.len() == v@.len() && (forall|i: int|
            0 <= i < v@.len() ==> #[trigger] array@->Array_1[i] == ValueView::Int(IntKind::U16, v@[i] as int)),
        array matches ArrayValue::I32(v) ==> array@->Array_0 == TypeView::Int(IntKind::I32)
            && array@->Array_1.len() == v@.len() && (forall|i: int|
            0 <= i < v@.len() ==> #[trigger] array@->Array_1[i] == ValueView::Int(IntKind::I32, v@[i] as int)),
        array matches ArrayValue::U32(v) ==> array@->Array_0 == TypeView::Int(IntKind::U32)
            && array@->Array_1.len() == v@.len() && (forall|i: int|
            0 <= i < v@.len() ==> #[trigger] array@->Array_1[i] == ValueView::Int(IntKind::U32, v@[i] as int)),
        array matches ArrayValue::I128(v) ==> array@->Array_0 == TypeView::Int(IntKind::I128)
            && array@->Array_1.len() == v@.len() && (forall|i: int|
            0 <= i < v@.len() ==> #[trigger] array@->Array_1[i] == ValueView::Int(IntKind::I128, v@[i] as int)),
        array matches ArrayValue::U128(v) ==> array@->Array_0 == TypeView::Int(IntKind::U128)
            && array@->Array_1.len() == v@.len() && (forall|i: int|
            0 <= i < v@.len() ==> #[trigger] array@->Array_1[i] == ValueView::Int(IntKind::U128, v@[i] as int)),
        array matches ArrayValue::F32(v) ==> array@->Array_0 == TypeView::F32
            && array@->Array_1.len() == v@.len() && (forall|i: int|
            0 <= i < v@.len() ==> #[trigger] array@->Array_1[i] == ValueView::F32(v@[i]@)),
        array matches ArrayValue::F64(v) ==> array@->Array_0 == TypeView::F64
            && array@->Array_1.len() == v@.len() && (forall|i: int|
            0 <= i < v@.len() ==> #[trigger] array@->Array_1[i] == ValueView::F64(v@[i]@)),
        array matches ArrayValue::String(v) ==> array@->Array_0 == TypeView::String
            && array@->Array_1.len() == v@.len() && (forall|i: int|
            0 <= i < v@.len() ==> #[trigger] array@->Array_1[i] == ValueView::String(v@[i]@)),
{
}

/// The content of an expression keeps its operators, its operands, its constants and its columns.
pub proof fn law_expressions(
    op: BinOp,
    log: LogOp,
    a: Expr,
    b: Expr,
    v: AlgebraicValue,
    values: Vec<AlgebraicValue>,
    ty: AlgebraicType,
    f: FieldProject,
)
    ensures
        Expr::BinOp(op, Box::new(a), Box::new(b))@ == ExprView::BinOp(op, Box::new(a@), Box::new(b@)),
        Expr::LogOp(log, Box::new(a), Box::new(b))@ == ExprView::LogOp(
            log,
            Box::new(a@),
            Box::new(b@),
        ),
        Expr::Value(v, ty)@ == ExprView::Value(v@, ty@),
        Expr::Tuple(values, ty)@ is Tuple,
        Expr::Tuple(values, ty)@->Tuple_1 == ty@,
        Expr::Tuple(values, ty)@->Tuple_0.len() == values@.len(),
        forall|i: int|
            #![trigger Expr::Tuple(values, ty)@->Tuple_0[i]]
            0 <= i < values@.len() ==> Expr::Tuple(values, ty)@->Tuple_0[i] == values@[i]@,
        Expr::Field(f)@ == ExprView::Field(
            FieldView { table: f.table@, field: f.field as int, ty: f.ty@ },
        ),
{
    reveal_with_fuel(Expr::content, 2);
}

/// The type of an expression: comparisons and logical operators are boolean, constants and columns
/// have the type that they carry.
pub proof fn law_expression_types(e: ExprView)
    ensures
        e is BinOp || e is LogOp ==> e.ty() == TypeView::Bool,
        e matches ExprView::Value(_, ty) ==> e.ty() == ty,
        e matches ExprView::Tuple(_, ty) ==> e.ty() == ty,
        e matches ExprView::Field(f) ==> e.ty() == f.ty,
{
}

/// The content of an error keeps what it reports.
pub proof fn law_errors(name: String, a: AlgebraicType, b: AlgebraicType, op: BinOp)
    ensures
        TypingError::Unresolved(Unresolved::Var(name))@ == ErrorView::UnresolvedVar(name@),
        TypingError::Unresolved(Unresolved::Literal)@ == ErrorView::UnresolvedLiteral,
        TypingError::InvalidWildcard(InvalidWildcard::Join)@ == ErrorView::WildcardJoin,
        TypingError::UnexpectedType(UnexpectedType { expected: a, inferred: b })@
            == ErrorView::UnexpectedType(a@, b@),
        TypingError::UnexpectedArrayType(UnexpectedArrayType { expected: a })@
            == ErrorView::UnexpectedArrayType(a@),
        TypingError::InvalidLiteral(InvalidLiteral { literal: name, expected: a })@
            == ErrorView::InvalidLiteral(name@, a@),
        TypingError::InvalidOp(InvalidOp { op, ty: a })@ == ErrorView::InvalidOp(op, a@),
        TypingError::DuplicateName(DuplicateName(name))@ == ErrorView::DuplicateName(name@),
        LiteralError::NotAnInteger(name)@ == LiteralErrorView::NotAnInteger(name@),
        LiteralError::OutOfBounds(name, a)@ == LiteralErrorView::OutOfBounds(name@, a@),
        LiteralError::NotValid(name, a)@ == LiteralErrorView::NotValid(name@, a@),
        LiteralError::Timestamp(name)@ == LiteralErrorView::Timestamp(name@),
        LiteralError::Hex@ == LiteralErrorView::Hex,
        LiteralError::Identity@ == LiteralErrorView::Identity,
        LiteralError::ConnectionId@ == LiteralErrorView::ConnectionId,
        LiteralError::NotSupported(a)@ == LiteralErrorView::NotSupported(a@),
{
}

/// What each error says: the text and the name of the type, if it speaks of them.
pub proof fn law_messages(text: Seq<char>, ty: TypeView, name: Seq<char>)
    ensures
        LiteralErrorView::NotAnInteger(text).message_with(name) == text + " is not an integer"@,
        LiteralErrorView::OutOfBounds(text, ty).message_with(name) == text
            + " is out of bounds for type "@ + name,
        LiteralErrorView::NotValid(text, ty).message_with(name) == text + " is not a valid "@ + name,
        LiteralErrorView::Timestamp(text).message_with(name) == text,
        LiteralErrorView::Hex.message_with(name) == "Could not parse hex value"@,
        LiteralErrorView::Identity.message_with(name) == "Could not parse identity"@,
        LiteralErrorView::ConnectionId.message_with(name) == "Could not parse connection id"@,
        LiteralErrorView::NotSupported(ty).message_with(name) == "Literal values for type "@ + name
            + " are not supported"@,
        LiteralErrorView::OutOfBounds(text, ty).ty() == Some(ty),
        LiteralErrorView::NotValid(text, ty).ty() == Some(ty),
        LiteralErrorView::NotSupported(ty).ty() == Some(ty),
{
}

} // verus!
