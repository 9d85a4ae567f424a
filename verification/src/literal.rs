//! The values that literals denote.
use vstd::arithmetic::power::*;
use vstd::prelude::*;

use crate::ast::SqlLiteral;
use crate::decimal::{Decimal, DecimalView};
use crate::errors::{
    ErrorView, InvalidLiteral, LiteralError, LiteralErrorView, TypingResult, UnexpectedArrayType, UnexpectedType,
};
use crate::ty::{AlgebraicType, ArrayType, IntKind, TypeView};
use crate::value::{AlgebraicValue, ArrayValue, ValueView};

verus! {

/// The mathematical content of a result.
pub open spec fn result_view<A: View, E: View>(r: Result<A, E>) -> Result<A::V, E::V> {
    match r {
        Ok(a) => Ok(a@),
        Err(e) => Err(e@),
    }
}

/// The value of an integer type that a literal denotes, where `parts` is the decimal number that
/// it denotes.
pub open spec fn int_value(parts: Option<(int, int)>, text: Seq<char>, kind: IntKind) -> Result<
    ValueView,
    LiteralErrorView,
> {
    match parts {
        None => Err(LiteralErrorView::NotAnInteger(text)),
        Some((unscaled, scale)) => {
            let d = DecimalView { unscaled, scale };
            if !d.is_integer() {
                Err(LiteralErrorView::NotAnInteger(text))
            } else {
                match d.to_kind(kind) {
                    Some(v) => Ok(ValueView::Int(kind, v)),
                    None => Err(LiteralErrorView::OutOfBounds(text, TypeView::Int(kind))),
                }
            }
        },
    }
}

/// The value of an integer type that an integer in decimal notation denotes.
pub open spec fn plain_int_value(text: Seq<char>, kind: IntKind) -> Result<
    ValueView,
    LiteralErrorView,
> {
    let v = crate::decimal::integer_text(text, true)->0;
    if crate::decimal::fits(kind, v) {
        Ok(ValueView::Int(kind, v))
    } else {
        Err(LiteralErrorView::OutOfBounds(text, TypeView::Int(kind)))
    }
}

/// The value of a float type that a literal denotes, where `parts` is the decimal number that it
/// denotes.
pub open spec fn float_value(parts: Option<(int, int)>, text: Seq<char>, ty: TypeView) -> Result<
    ValueView,
    LiteralErrorView,
> {
    match parts {
        None => Err(LiteralErrorView::NotValid(text, ty)),
        Some((unscaled, scale)) => if ty is F32 {
            Ok(ValueView::F32(DecimalView { unscaled, scale }))
        } else {
            Ok(ValueView::F64(DecimalView { unscaled, scale }))
        },
    }
}

/// A timestamp, where `micros` are the microseconds since the Unix epoch, or `reason` says why there
/// are none.
pub open spec fn timestamp_value(micros: Option<i64>, reason: Seq<char>) -> Result<
    ValueView,
    LiteralErrorView,
> {
    match micros {
        Some(micros) => Ok(ValueView::newtype(ValueView::Int(IntKind::I64, micros as int))),
        None => Err(LiteralErrorView::Timestamp(reason)),
    }
}

/// The value of the type `ty` that a text denotes.
pub open spec fn literal_value(text: Seq<char>, ty: TypeView) -> Result<
    ValueView,
    LiteralErrorView,
> {
    if ty is Int {
        int_value(crate::decimal::decimal_literal(text), text, ty->Int_0)
    } else if ty.is_float() {
        float_value(crate::decimal::decimal_literal(text), text, ty)
    } else if ty is String {
        Ok(ValueView::String(text))
    } else if ty == TypeView::timestamp() {
        timestamp_value(
            crate::formats::rfc3339_micros(text),
            crate::formats::TIMESTAMP_FORMAT@,
        )
    } else if ty == TypeView::bytes() {
        match crate::formats::hex_bytes(text) {
            Some(bytes) => Ok(ValueView::bytes(bytes)),
            None => Err(LiteralErrorView::Hex),
        }
    } else if ty == TypeView::identity() {
        match crate::formats::hex_number(text, 32) {
            Some(v) => Ok(ValueView::newtype(ValueView::Int(IntKind::U256, v))),
            None => Err(LiteralErrorView::Identity),
        }
    } else if ty == TypeView::connection_id() {
        match crate::formats::hex_number(text, 16) {
            Some(v) => Ok(ValueView::newtype(ValueView::Int(IntKind::U128, v))),
            None => Err(LiteralErrorView::ConnectionId),
        }
    } else if ty.is_simple_enum() {
        match crate::ty::variant_index(ty->Sum_0, text) {
            Some(i) => Ok(ValueView::enum_simple((i % 256) as u8)),
            None => Err(LiteralErrorView::NotValid(text, ty)),
        }
    } else {
        Err(LiteralErrorView::NotSupported(ty))
    }
}

/// The integer of the type `ty` that the decimal number of `literal` is.
pub fn int_literal(decimal: Option<Decimal>, literal: &str, ty: &AlgebraicType) -> (r: Result<
    AlgebraicValue,
    LiteralError,
>)
    requires
        crate::decimal::optional_wf(decimal),
        ty@ is Int,
    ensures
        result_view(r) == int_value(
            crate::decimal::optional_parts(decimal),
            literal@,
            ty@->Int_0,
        ),
        r matches Ok(v) ==> v.wf(),
{
    let d = match decimal {
        Some(d) => d,
        None => {
            return Err(LiteralError::NotAnInteger(literal.to_owned()));
        },
    };
    if !d.is_integer() {
        return Err(LiteralError::NotAnInteger(literal.to_owned()));
    }
    let v = if !d.moderate() {
        proof {
            assert(!crate::decimal::fits(ty@->Int_0, d@.whole()));
        }
        None
    } else {
        match ty {
            AlgebraicType::I8 => match crate::decimal::to_i8(&d) {
                Some(v) => Some(AlgebraicValue::I8(v)),
                None => None,
            },
            AlgebraicType::U8 => match crate::decimal::to_u8(&d) {
                Some(v) => Some(AlgebraicValue::U8(v)),
                None => None,
            },
            AlgebraicType::I16 => match crate::decimal::to_i16(&d) {
                Some(v) => Some(AlgebraicValue::I16(v)),
                None => None,
            },
            AlgebraicType::U16 => match crate::decimal::to_u16(&d) {
                Some(v) => Some(AlgebraicValue::U16(v)),
                None => None,
            },
            AlgebraicType::I32 => match crate::decimal::to_i32(&d) {
                Some(v) => Some(AlgebraicValue::I32(v)),
                None => None,
            },
            AlgebraicType::U32 => match crate::decimal::to_u32(&d) {
                Some(v) => Some(AlgebraicValue::U32(v)),
                None => None,
            },
            AlgebraicType::I64 => match crate::decimal::to_i64(&d) {
                Some(v) => Some(AlgebraicValue::I64(v)),
                None => None,
            },
            AlgebraicType::U64 => match crate::decimal::to_u64(&d) {
                Some(v) => Some(AlgebraicValue::U64(v)),
                None => None,
            },
            AlgebraicType::I128 => match crate::decimal::to_i128(&d) {
                Some(v) => Some(AlgebraicValue::I128(v)),
                None => None,
            },
            AlgebraicType::U128 => match crate::decimal::to_u128(&d) {
                Some(v) => Some(AlgebraicValue::U128(v)),
                None => None,
            },
            AlgebraicType::I256 => match d.to_i256() {
                Some(v) => Some(AlgebraicValue::I256(v)),
                None => None,
            },
            AlgebraicType::U256 => match d.to_u256() {
                Some(v) => Some(AlgebraicValue::U256(v)),
                None => None,
            },
            _ => None,
        }
    };
    match v {
        Some(v) => Ok(v),
        None => Err(LiteralError::OutOfBounds(literal.to_owned(), ty.clone())),
    }
}

/// The decimal numbers that numbers as they are commonly written denote, and what denotes none.
proof fn lemma_notations(text: Seq<char>)
    ensures
        forall|p: int, k: int| #[trigger]
            crate::decimal::is_number(text, p, k) ==> crate::decimal::decimal_literal(text) == Some(
                crate::decimal::number_parts(text, p, k),
            ),
        crate::decimal::is_not_a_number(text) ==> crate::decimal::decimal_literal(text) is None,
{
    assert forall|p: int, k: int| #[trigger]
        crate::decimal::is_number(text, p, k) implies crate::decimal::decimal_literal(text) == Some(
        crate::decimal::number_parts(text, p, k),
    ) by {
        crate::decimal::lemma_number(text, p, k);
    }
    if crate::decimal::is_not_a_number(text) {
        crate::decimal::lemma_not_a_number(text);
    }
}

/// Reads an integer literal. Scientific notation is fine.
pub fn parse_int(literal: &str, ty: &AlgebraicType) -> (r: Result<AlgebraicValue, LiteralError>)
    requires
        ty@ is Int,
    ensures
        result_view(r) == int_value(
            crate::decimal::decimal_literal(literal@),
            literal@,
            ty@->Int_0,
        ),
        forall|p: int, k: int| #[trigger]
            crate::decimal::is_number(literal@, p, k) ==> result_view(r) == int_value(
                Some(crate::decimal::number_parts(literal@, p, k)),
                literal@,
                ty@->Int_0,
            ),
        crate::decimal::is_plain_integer(literal@) ==> result_view(r) == plain_int_value(
            literal@,
            ty@->Int_0,
        ),
        crate::decimal::is_not_a_number(literal@) ==> result_view(r) == Err::<ValueView, _>(
            LiteralErrorView::NotAnInteger(literal@),
        ),
        r matches Ok(v) ==> v.wf(),
{
    let decimal = crate::decimal::parse_decimal(literal);
    proof {
        lemma_pow0(10);
        lemma_notations(literal@);
        if crate::decimal::is_plain_integer(literal@) {
            crate::decimal::lemma_plain_number(literal@);
        }
    }
    int_literal(decimal, literal, ty)
}

/// The float of the type `ty` that the decimal number of `literal` stands for.
pub fn float_literal(decimal: Option<Decimal>, literal: &str, ty: &AlgebraicType) -> (r: Result<
    AlgebraicValue,
    LiteralError,
>)
    requires
        ty@.is_float(),
    ensures
        result_view(r) == float_value(crate::decimal::optional_parts(decimal), literal@, ty@),
        crate::decimal::optional_wf(decimal) ==> (r matches Ok(v) ==> v.wf()),
{
    match decimal {
        Some(d) => match ty {
            AlgebraicType::F32 => Ok(AlgebraicValue::F32(d)),
            _ => Ok(AlgebraicValue::F64(d)),
        },
        None => Err(LiteralError::NotValid(literal.to_owned(), ty.clone())),
    }
}

/// Reads a floating point literal.
pub fn parse_float(literal: &str, ty: &AlgebraicType) -> (r: Result<AlgebraicValue, LiteralError>)
    requires
        ty@.is_float(),
    ensures
        result_view(r) == float_value(crate::decimal::decimal_literal(literal@), literal@, ty@),
        forall|p: int, k: int| #[trigger]
            crate::decimal::is_number(literal@, p, k) ==> result_view(r) == float_value(
                Some(crate::decimal::number_parts(literal@, p, k)),
                literal@,
                ty@,
            ),
        crate::decimal::is_not_a_number(literal@) ==> result_view(r) == Err::<ValueView, _>(
            LiteralErrorView::NotValid(literal@, ty@),
        ),
        r matches Ok(v) ==> v.wf(),
{
    proof {
        lemma_notations(literal@);
    }
    float_literal(crate::decimal::parse_decimal(literal), literal, ty)
}

/// The timestamp so many microseconds after the Unix epoch, or why there is none.
pub fn timestamp_literal(micros: Result<i64, String>) -> (r: Result<AlgebraicValue, LiteralError>)
    ensures
        match micros {
            Ok(micros) => result_view(r) == timestamp_value(Some(micros), Seq::empty()),
            Err(reason) => result_view(r) == timestamp_value(None, reason@),
        },
        r matches Ok(v) ==> v.wf(),
{
    match micros {
        Ok(micros) => Ok(AlgebraicValue::newtype(AlgebraicValue::I64(micros))),
        Err(reason) => Err(LiteralError::Timestamp(reason)),
    }
}

/// Reads the text of a literal as a value of a particular type.
pub fn parse(value: &str, ty: &AlgebraicType) -> (r: Result<AlgebraicValue, LiteralError>)
    ensures
        result_view(r) == literal_value(value@, ty@),
        forall|p: int, k: int| #[trigger]
            crate::decimal::is_number(value@, p, k) ==> {
                let parts = Some(crate::decimal::number_parts(value@, p, k));
                &&& ty@ is Int ==> result_view(r) == int_value(parts, value@, ty@->Int_0)
                &&& ty@.is_float() ==> result_view(r) == float_value(parts, value@, ty@)
            },
        ty@ is Int && crate::decimal::is_plain_integer(value@) ==> result_view(r)
            == plain_int_value(value@, ty@->Int_0),
        ty@ is Int && crate::decimal::is_not_a_number(value@) ==> result_view(r) == Err::<
            ValueView,
            _,
        >(LiteralErrorView::NotAnInteger(value@)),
        ty@.is_float() && crate::decimal::is_not_a_number(value@) ==> result_view(r) == Err::<
            ValueView,
            _,
        >(LiteralErrorView::NotValid(value@, ty@)),
        r matches Ok(v) ==> v.wf(),
{
    if ty.is_integer() {
        parse_int(value, ty)
    } else if ty.is_float() {
        parse_float(value, ty)
    } else if ty.is_string() {
        Ok(AlgebraicValue::String(value.to_owned()))
    } else if ty.is_timestamp() {
        timestamp_literal(crate::formats::timestamp_from_rfc3339(value))
    } else if ty.is_bytes() {
        match crate::formats::bytes_from_hex(value) {
            Some(bytes) => Ok(AlgebraicValue::Array(ArrayValue::U8(bytes))),
            None => Err(LiteralError::Hex),
        }
    } else if ty.is_identity() {
        match crate::formats::identity_from_hex(value) {
            Some(v) => Ok(AlgebraicValue::newtype(AlgebraicValue::U256(v))),
            None => Err(LiteralError::Identity),
        }
    } else if ty.is_connection_id() {
        match crate::formats::connection_id_from_hex(value) {
            Some(v) => Ok(AlgebraicValue::newtype(AlgebraicValue::U128(v))),
            None => Err(LiteralError::ConnectionId),
        }
    } else {
        match ty {
            AlgebraicType::Sum(st) => if st.is_simple_enum() {
                match st.get_variant_simple(value) {
                    Some((tag, _)) => Ok(AlgebraicValue::enum_simple(tag)),
                    None => Err(LiteralError::NotValid(value.to_owned(), ty.clone())),
                }
            } else {
                Err(LiteralError::NotSupported(ty.clone()))
            },
            _ => Err(LiteralError::NotSupported(ty.clone())),
        }
    }
}

/// Whether there is an array literal with elements of the type `ty`.
pub open spec fn is_array_elem(ty: TypeView) -> bool {
    match ty {
        TypeView::Bool | TypeView::String | TypeView::F32 | TypeView::F64 => true,
        TypeView::Int(kind) => match kind {
            IntKind::I64 | IntKind::U64 | IntKind::I256 | IntKind::U256 => false,
            _ => true,
        },
        _ => false,
    }
}

/// The value of a literal as an element of an array.
pub open spec fn elem_value(lit: SqlLiteral, ty: TypeView) -> Result<ValueView, ErrorView> {
    if ty is Bool {
        match lit {
            SqlLiteral::Bool(b) => Ok(ValueView::Bool(b)),
            _ => Err(ErrorView::UnexpectedType(ty, TypeView::Bool)),
        }
    } else if ty is String {
        match lit {
            SqlLiteral::Str(s) => Ok(ValueView::String(s@)),
            _ => Err(ErrorView::UnexpectedType(ty, TypeView::String)),
        }
    } else {
        match lit {
            SqlLiteral::Num(v) => number_value(v@, ty),
            SqlLiteral::Hex(v) => number_value(v@, ty),
            SqlLiteral::Str(_) => Err(ErrorView::UnexpectedType(ty, TypeView::String)),
            SqlLiteral::Bool(_) => Err(ErrorView::UnexpectedType(ty, TypeView::Bool)),
            SqlLiteral::Arr(_) => Err(ErrorView::UnexpectedArrayType(ty)),
        }
    }
}

/// The value of the type `ty` that a text denotes; that there is none makes it an invalid literal.
pub open spec fn number_value(text: Seq<char>, ty: TypeView) -> Result<ValueView, ErrorView> {
    match literal_value(text, ty) {
        Ok(v) => Ok(v),
        Err(_) => Err(ErrorView::InvalidLiteral(text, ty)),
    }
}

/// All the values, or the first error.
pub open spec fn collected<A, E>(rs: Seq<Result<A, E>>) -> Result<Seq<A>, E> {
    match crate::ty::first_index(rs, |r: Result<A, E>| r is Err) {
        Some(i) => Err(rs[i]->Err_0),
        None => Ok(rs.map_values(|r: Result<A, E>| r->Ok_0)),
    }
}

/// The results for the elements of an array literal.
pub open spec fn elem_values(arr: Seq<SqlLiteral>, ty: TypeView) -> Seq<Result<ValueView, ErrorView>> {
    arr.map_values(|lit: SqlLiteral| elem_value(lit, ty))
}

/// The value of an array literal with elements of the type `ty`.
pub open spec fn array_value(arr: Seq<SqlLiteral>, ty: TypeView) -> Result<ValueView, ErrorView> {
    if !is_array_elem(ty) {
        Err(ErrorView::UnexpectedArrayType(ty))
    } else {
        match collected(elem_values(arr, ty)) {
            Ok(values) => Ok(ValueView::Array(ty, values)),
            Err(e) => Err(e),
        }
    }
}

/// The first error is the one that is reported.
pub proof fn lemma_collected_err<A, E>(rs: Seq<Result<A, E>>, i: int)
    requires
        0 <= i < rs.len(),
        rs[i] is Err,
        forall|j: int| 0 <= j < i ==> (#[trigger] rs[j]) is Ok,
    ensures
        collected(rs) == Err::<Seq<A>, E>(rs[i]->Err_0),
{
    let failed = |r: Result<A, E>| r is Err;
    assert(crate::ty::is_first(rs, failed, i));
    crate::ty::lemma_first_index(rs, failed, i);
}

/// Without an error, all the values are there.
pub proof fn lemma_collected_ok<A, E>(rs: Seq<Result<A, E>>)
    requires
        forall|j: int| 0 <= j < rs.len() ==> (#[trigger] rs[j]) is Ok,
    ensures
        collected(rs) == Ok::<Seq<A>, E>(rs.map_values(|r: Result<A, E>| r->Ok_0)),
{
    let failed = |r: Result<A, E>| r is Err;
    assert forall|k: int| !crate::ty::is_first(rs, failed, k) by {}
}

/// Reads an element of an array literal.
fn parse_array_elem(lit: &SqlLiteral, ty: &AlgebraicType) -> (r: TypingResult<AlgebraicValue>)
    ensures
        result_view(r) == elem_value(*lit, ty@),
        r matches Ok(v) ==> v.wf(),
{
    if ty.is_bool() {
        match lit {
            SqlLiteral::Bool(b) => Ok(AlgebraicValue::Bool(*b)),
            _ => Err(UnexpectedType::new(ty, &AlgebraicType::Bool)),
        }
    } else if ty.is_string() {
        match lit {
            SqlLiteral::Str(s) => Ok(AlgebraicValue::String(s.clone())),
            _ => Err(UnexpectedType::new(ty, &AlgebraicType::String)),
        }
    } else {
        match lit {
            SqlLiteral::Num(v) | SqlLiteral::Hex(v) => match parse(v.as_str(), ty) {
                Ok(v) => Ok(v),
                Err(_) => Err(InvalidLiteral::new(v.clone(), ty)),
            },
            SqlLiteral::Str(_) => Err(UnexpectedType::new(ty, &AlgebraicType::String)),
            SqlLiteral::Bool(_) => Err(UnexpectedType::new(ty, &AlgebraicType::Bool)),
            SqlLiteral::Arr(_) => Err(UnexpectedArrayType::new(ty)),
        }
    }
}

/// Reads the elements of an array literal.
fn parse_array_elems(arr: &Vec<SqlLiteral>, ty: &AlgebraicType) -> (r: TypingResult<
    Vec<AlgebraicValue>,
>)
    ensures
        match r {
            Ok(values) => collected(elem_values(arr@, ty@)) == Ok::<_, ErrorView>(
                crate::expr::value_views(values@),
            ),
            Err(e) => collected(elem_values(arr@, ty@)) == Err::<Seq<ValueView>, _>(e@),
        },
        r matches Ok(values) ==> crate::value::values_wf(values@),
{
    let ghost results = elem_values(arr@, ty@);
    let mut values: Vec<AlgebraicValue> = Vec::new();
    let n: usize = arr.len();
    for i in 0..n
        invariant
            n == arr@.len(),
            results == elem_values(arr@, ty@),
            values@.len() == i,
            crate::value::values_wf(values@),
            forall|j: int|
                #![trigger results[j]]
                0 <= j < i ==> results[j] == Ok::<ValueView, ErrorView>(values@[j]@),
    {
        match parse_array_elem(&arr[i], ty) {
            Ok(v) => {
                values.push(v);
            },
            Err(e) => {
                proof {
                    lemma_collected_err(results, i as int);
                }
                return Err(e);
            },
        }
    }
    proof {
        lemma_collected_ok(results);
        assert(results.map_values(|r: Result<ValueView, ErrorView>| r->Ok_0)
            =~= crate::expr::value_views(values@));
    }
    Ok(values)
}

/// Whether every value is one that elements of the type `ty` have.
pub open spec fn are_elems(values: Seq<ValueView>, ty: TypeView) -> bool {
    forall|i: int|
        0 <= i < values.len() ==> match ty {
            TypeView::Bool => (#[trigger] values[i]) is Bool,
            TypeView::String => values[i] is String,
            TypeView::F32 => values[i] is F32,
            TypeView::F64 => values[i] is F64,
            TypeView::Int(kind) => values[i] is Int && values[i]->Int_0 == kind,
            _ => false,
        }
}

/// Where all the values are there, none of the results is an error.
pub proof fn lemma_collected_all<A, E>(rs: Seq<Result<A, E>>)
    ensures
        collected(rs) matches Ok(values) ==> {
            &&& values.len() == rs.len()
            &&& forall|i: int|
                #![trigger rs[i]]
                #![trigger values[i]]
                0 <= i < rs.len() ==> rs[i] == Ok::<A, E>(values[i])
        },
{
    let failed = |r: Result<A, E>| r is Err;
    if collected(rs) is Ok {
        assert forall|i: int| 0 <= i < rs.len() implies (#[trigger] rs[i]) is Ok by {
            crate::ty::lemma_no_first(rs, failed, i);
        }
    }
}

/// The values of an array literal are of the type of its elements.
pub proof fn lemma_elems(arr: Seq<SqlLiteral>, ty: TypeView)
    requires
        is_array_elem(ty),
    ensures
        collected(elem_values(arr, ty)) matches Ok(values) ==> are_elems(values, ty),
{
    let rs = elem_values(arr, ty);
    lemma_collected_all(rs);
    if collected(rs) is Ok {
        let values = collected(rs)->Ok_0;
        assert forall|i: int| 0 <= i < values.len() implies elem_value(arr[i], ty) == Ok::<
            ValueView,
            ErrorView,
        >(#[trigger] values[i]) by {
            assert(rs[i] == elem_value(arr[i], ty));
        }
    }
}

/// The elements of an array, packed by `unpack`, whose results `view` gives back the content of.
fn pack<T, F: Fn(&AlgebraicValue) -> T>(
    values: &Vec<AlgebraicValue>,
    unpack: F,
    view: Ghost<spec_fn(T) -> ValueView>,
) -> (r: Vec<T>)
    requires
        forall|i: int|
            0 <= i < values@.len() ==> call_requires(unpack, (&#[trigger] values@[i],)),
        forall|v: &AlgebraicValue, x: T| call_ensures(unpack, (v,), x) ==> view@(x) == v@,
    ensures
        r@.map_values(view@) == crate::expr::value_views(values@),
        r@.len() == values@.len(),
        forall|i: int|
            0 <= i < values@.len() ==> call_ensures(unpack, (&values@[i],), #[trigger] r@[i]),
{
    let mut r: Vec<T> = Vec::new();
    let n: usize = values.len();
    for i in 0..n
        invariant
            n == values@.len(),
            r@.len() == i,
            forall|i: int|
                0 <= i < values@.len() ==> call_requires(unpack, (&#[trigger] values@[i],)),
            forall|v: &AlgebraicValue, x: T| call_ensures(unpack, (v,), x) ==> view@(x) == v@,
            forall|j: int| 0 <= j < i ==> view@(#[trigger] r@[j]) == values@[j]@,
            forall|j: int|
                0 <= j < i ==> call_ensures(unpack, (&values@[j],), #[trigger] r@[j]),
    {
        r.push(unpack(&values[i]));
    }
    assert(r@.map_values(view@) =~= crate::expr::value_views(values@));
    r
}

/// The content of an element of an array of `Bool`.
fn as_bool(v: &AlgebraicValue) -> (x: bool)
    requires
        v@ is Bool,
    ensures
        ValueView::Bool(x) == v@,
{
    match v {
        AlgebraicValue::Bool(x) => *x,
        _ => false,
    }
}

/// The content of an element of an array of `I8`.
fn as_i8(v: &AlgebraicValue) -> (x: i8)
    requires
        v@ is Int && v@->Int_0 == IntKind::I8,
    ensures
        ValueView::Int(IntKind::I8, x as int) == v@,
{
    match v {
        AlgebraicValue::I8(x) => *x,
        _ => 0,
    }
}

/// The content of an element of an array of `U8`.
fn as_u8(v: &AlgebraicValue) -> (x: u8)
    requires
        v@ is Int && v@->Int_0 == IntKind::U8,
    ensures
        ValueView::Int(IntKind::U8, x as int) == v@,
{
    match v {
        AlgebraicValue::U8(x) => *x,
        _ => 0,
    }
}

/// The content of an element of an array of `I16`.
fn as_i16(v: &AlgebraicValue) -> (x: i16)
    requires
        v@ is Int && v@->Int_0 == IntKind::I16,
    ensures
        ValueView::Int(IntKind::I16, x as int) == v@,
{
    match v {
        AlgebraicValue::I16(x) => *x,
        _ => 0,
    }
}

/// The content of an element of an array of `U16`.
fn as_u16(v: &AlgebraicValue) -> (x: u16)
    requires
        v@ is Int && v@->Int_0 == IntKind::U16,
    ensures
        ValueView::Int(IntKind::U16, x as int) == v@,
{
    match v {
        AlgebraicValue::U16(x) => *x,
        _ => 0,
    }
}

/// The content of an element of an array of `I32`.
fn as_i32(v: &AlgebraicValue) -> (x: i32)
    requires
        v@ is Int && v@->Int_0 == IntKind::I32,
    ensures
        ValueView::Int(IntKind::I32, x as int) == v@,
{
    match v {
        AlgebraicValue::I32(x) => *x,
        _ => 0,
    }
}

/// The content of an element of an array of `U32`.
fn as_u32(v: &AlgebraicValue) -> (x: u32)
    requires
        v@ is Int && v@->Int_0 == IntKind::U32,
    ensures
        ValueView::Int(IntKind::U32, x as int) == v@,
{
    match v {
        AlgebraicValue::U32(x) => *x,
        _ => 0,
    }
}

/// The content of an element of an array of `I128`.
fn as_i128(v: &AlgebraicValue) -> (x: i128)
    requires
        v@ is Int && v@->Int_0 == IntKind::I128,
    ensures
        ValueView::Int(IntKind::I128, x as int) == v@,
{
    match v {
        AlgebraicValue::I128(x) => *x,
        _ => 0,
    }
}

/// The content of an element of an array of `U128`.
fn as_u128(v: &AlgebraicValue) -> (x: u128)
    requires
        v@ is Int && v@->Int_0 == IntKind::U128,
    ensures
        ValueView::Int(IntKind::U128, x as int) == v@,
{
    match v {
        AlgebraicValue::U128(x) => *x,
        _ => 0,
    }
}

/// The content of an element of an array of `F32`.
fn as_f32_decimal(v: &AlgebraicValue) -> (x: Decimal)
    requires
        v@ is F32,
    ensures
        ValueView::F32(x@) == v@,
        v.wf() ==> x.wf(),
{
    match v {
        AlgebraicValue::F32(x) => x.clone(),
        _ => Decimal { unscaled: String::new(), scale: 0 },
    }
}

/// The content of an element of an array of `F64`.
fn as_f64_decimal(v: &AlgebraicValue) -> (x: Decimal)
    requires
        v@ is F64,
    ensures
        ValueView::F64(x@) == v@,
        v.wf() ==> x.wf(),
{
    match v {
        AlgebraicValue::F64(x) => x.clone(),
        _ => Decimal { unscaled: String::new(), scale: 0 },
    }
}

/// The content of an element of an array of `String`.
fn as_string(v: &AlgebraicValue) -> (x: String)
    requires
        v@ is String,
    ensures
        ValueView::String(x@) == v@,
{
    match v {
        AlgebraicValue::String(x) => x.clone(),
        _ => String::new(),
    }
}

/// The array with the given elements of the type `ty`.
fn pack_array(values: Vec<AlgebraicValue>, ty: &AlgebraicType) -> (r: ArrayValue)
    requires
        is_array_elem(ty@),
        are_elems(crate::expr::value_views(values@), ty@),
    ensures
        r@ == ValueView::Array(ty@, crate::expr::value_views(values@)),
        crate::value::values_wf(values@) ==> r.wf(),
{
    proof {
        assert forall|i: int| 0 <= i < values@.len() implies (#[trigger] values@[i])@
            == crate::expr::value_views(values@)[i] by {}
    }
    match ty {
        AlgebraicType::Bool => ArrayValue::Bool(
            pack(&values, as_bool, Ghost(|x: bool| ValueView::Bool(x))),
        ),
        AlgebraicType::I8 => ArrayValue::I8(
            pack(&values, as_i8, Ghost(|x: i8| ValueView::Int(IntKind::I8, x as int))),
        ),
        AlgebraicType::U8 => ArrayValue::U8(
            pack(&values, as_u8, Ghost(|x: u8| ValueView::Int(IntKind::U8, x as int))),
        ),
        AlgebraicType::I16 => ArrayValue::I16(
            pack(&values, as_i16, Ghost(|x: i16| ValueView::Int(IntKind::I16, x as int))),
        ),
        AlgebraicType::U16 => ArrayValue::U16(
            pack(&values, as_u16, Ghost(|x: u16| ValueView::Int(IntKind::U16, x as int))),
        ),
        AlgebraicType::I32 => ArrayValue::I32(
            pack(&values, as_i32, Ghost(|x: i32| ValueView::Int(IntKind::I32, x as int))),
        ),
        AlgebraicType::U32 => ArrayValue::U32(
            pack(&values, as_u32, Ghost(|x: u32| ValueView::Int(IntKind::U32, x as int))),
        ),
        AlgebraicType::I128 => ArrayValue::I128(
            pack(&values, as_i128, Ghost(|x: i128| ValueView::Int(IntKind::I128, x as int))),
        ),
        AlgebraicType::U128 => ArrayValue::U128(
            pack(&values, as_u128, Ghost(|x: u128| ValueView::Int(IntKind::U128, x as int))),
        ),
        AlgebraicType::F32 => ArrayValue::F32(
            pack(&values, as_f32_decimal, Ghost(|x: Decimal| ValueView::F32(x@))),
        ),
        AlgebraicType::F64 => ArrayValue::F64(
            pack(&values, as_f64_decimal, Ghost(|x: Decimal| ValueView::F64(x@))),
        ),
        AlgebraicType::String => ArrayValue::String(
            pack(&values, as_string, Ghost(|x: String| ValueView::String(x@))),
        ),
        _ => ArrayValue::Bool(Vec::new()),
    }
}

/// Reads an array literal whose elements are of one of the types that have array literals.
pub fn parse_array_value(arr: &Vec<SqlLiteral>, a: &ArrayType) -> (r: TypingResult<AlgebraicValue>)
    ensures
        result_view(r) == array_value(arr@, a.elem_ty@),
        r matches Ok(v) ==> v.wf(),
{
    let ty: &AlgebraicType = &*a.elem_ty;
    match ty {
        AlgebraicType::Bool | AlgebraicType::String | AlgebraicType::I8 | AlgebraicType::U8
        | AlgebraicType::I16 | AlgebraicType::U16 | AlgebraicType::I32 | AlgebraicType::U32
        | AlgebraicType::I128 | AlgebraicType::U128 | AlgebraicType::F32 | AlgebraicType::F64 => {
            let values = match parse_array_elems(arr, ty) {
                Ok(values) => values,
                Err(e) => {
                    return Err(e);
                },
            };
            proof {
                lemma_elems(arr@, ty@);
            }
            Ok(AlgebraicValue::Array(pack_array(values, ty)))
        },
        _ => Err(UnexpectedArrayType::new(ty)),
    }
}

} // verus!
