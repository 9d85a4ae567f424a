//! The values of the algebraic types.
use vstd::prelude::*;

use crate::decimal::{Decimal, DecimalView, I256, U256};
use crate::ty::{IntKind, TypeView};

verus! {

/// A value of some algebraic type.
#[derive(Debug, PartialEq, Eq)]
pub enum AlgebraicValue {
    /// A choice of a variant.
    Sum(SumValue),
    /// One value for each element.
    Product(ProductValue),
    /// Values of one type.
    Array(ArrayValue),
    Bool(bool),
    I8(i8),
    U8(u8),
    I16(i16),
    U16(u16),
    I32(i32),
    U32(u32),
    I64(i64),
    U64(u64),
    I128(i128),
    U128(u128),
    I256(I256),
    U256(U256),
    /// A float literal, by the exact decimal number that the float is rounded from.
    F32(Decimal),
    /// A float literal, by the exact decimal number that the float is rounded from.
    F64(Decimal),
    String(String),
}

/// A choice of a variant of a sum type.
#[derive(Debug, PartialEq, Eq)]
pub struct SumValue {
    pub tag: u8,
    pub value: Box<AlgebraicValue>,
}

/// One value for each element of a product type.
#[derive(Debug, PartialEq, Eq)]
pub struct ProductValue {
    pub elements: Vec<AlgebraicValue>,
}

/// Values of one type, packed.
#[derive(Debug, PartialEq, Eq)]
pub enum ArrayValue {
    Bool(Vec<bool>),
    I8(Vec<i8>),
    U8(Vec<u8>),
    I16(Vec<i16>),
    U16(Vec<u16>),
    I32(Vec<i32>),
    U32(Vec<u32>),
    I128(Vec<i128>),
    U128(Vec<u128>),
    F32(Vec<Decimal>),
    F64(Vec<Decimal>),
    String(Vec<String>),
}

/// The mathematical content of an [`AlgebraicValue`].
pub ghost enum ValueView {
    Sum(u8, Box<ValueView>),
    Product(Seq<ValueView>),
    /// The type of the elements, and the elements.
    Array(TypeView, Seq<ValueView>),
    Bool(bool),
    Int(IntKind, int),
    F32(DecimalView),
    F64(DecimalView),
    String(Seq<char>),
}

impl View for ArrayValue {
    type V = ValueView;

    open spec fn view(&self) -> ValueView {
        match self {
            ArrayValue::Bool(v) => ValueView::Array(
                TypeView::Bool,
                v@.map_values(|x: bool| ValueView::Bool(x)),
            ),
            ArrayValue::I8(v) => ValueView::Array(
                TypeView::Int(IntKind::I8),
                v@.map_values(|x: i8| ValueView::Int(IntKind::I8, x as int)),
            ),
            ArrayValue::U8(v) => ValueView::Array(
                TypeView::Int(IntKind::U8),
                v@.map_values(|x: u8| ValueView::Int(IntKind::U8, x as int)),
            ),
            ArrayValue::I16(v) => ValueView::Array(
                TypeView::Int(IntKind::I16),
                v@.map_values(|x: i16| ValueView::Int(IntKind::I16, x as int)),
            ),
            ArrayValue::U16(v) => ValueView::Array(
                TypeView::Int(IntKind::U16),
                v@.map_values(|x: u16| ValueView::Int(IntKind::U16, x as int)),
            ),
            ArrayValue::I32(v) => ValueView::Array(
                TypeView::Int(IntKind::I32),
                v@.map_values(|x: i32| ValueView::Int(IntKind::I32, x as int)),
            ),
            ArrayValue::U32(v) => ValueView::Array(
                TypeView::Int(IntKind::U32),
                v@.map_values(|x: u32| ValueView::Int(IntKind::U32, x as int)),
            ),
            ArrayValue::I128(v) => ValueView::Array(
                TypeView::Int(IntKind::I128),
                v@.map_values(|x: i128| ValueView::Int(IntKind::I128, x as int)),
            ),
            ArrayValue::U128(v) => ValueView::Array(
                TypeView::Int(IntKind::U128),
                v@.map_values(|x: u128| ValueView::Int(IntKind::U128, x as int)),
            ),
            ArrayValue::F32(v) => ValueView::Array(
                TypeView::F32,
                v@.map_values(|x: Decimal| ValueView::F32(x@)),
            ),
            ArrayValue::F64(v) => ValueView::Array(
                TypeView::F64,
                v@.map_values(|x: Decimal| ValueView::F64(x@)),
            ),
            ArrayValue::String(v) => ValueView::Array(
                TypeView::String,
                v@.map_values(|x: String| ValueView::String(x@)),
            ),
        }
    }
}

impl View for AlgebraicValue {
    type V = ValueView;

    open spec fn view(&self) -> ValueView {
        self.content()
    }
}

impl AlgebraicValue {
    /// The mathematical content of this value.
    pub open spec fn content(self) -> ValueView
        decreases self,
    {
        match self {
            AlgebraicValue::Sum(v) => ValueView::Sum(v.tag, Box::new((*v.value).content())),
            AlgebraicValue::Product(v) => ValueView::Product(
                Seq::new(
                    v.elements@.len(),
                    |i: int|
                        if 0 <= i < v.elements@.len() {
                            v.elements@[i].content()
                        } else {
                            arbitrary()
                        },
                ),
            ),
            AlgebraicValue::Array(v) => v@,
            AlgebraicValue::Bool(v) => ValueView::Bool(v),
            AlgebraicValue::I8(v) => ValueView::Int(IntKind::I8, v as int),
            AlgebraicValue::U8(v) => ValueView::Int(IntKind::U8, v as int),
            AlgebraicValue::I16(v) => ValueView::Int(IntKind::I16, v as int),
            AlgebraicValue::U16(v) => ValueView::Int(IntKind::U16, v as int),
            AlgebraicValue::I32(v) => ValueView::Int(IntKind::I32, v as int),
            AlgebraicValue::U32(v) => ValueView::Int(IntKind::U32, v as int),
            AlgebraicValue::I64(v) => ValueView::Int(IntKind::I64, v as int),
            AlgebraicValue::U64(v) => ValueView::Int(IntKind::U64, v as int),
            AlgebraicValue::I128(v) => ValueView::Int(IntKind::I128, v as int),
            AlgebraicValue::U128(v) => ValueView::Int(IntKind::U128, v as int),
            AlgebraicValue::I256(v) => ValueView::Int(IntKind::I256, v@),
            AlgebraicValue::U256(v) => ValueView::Int(IntKind::U256, v@),
            AlgebraicValue::F32(v) => ValueView::F32(v@),
            AlgebraicValue::F64(v) => ValueView::F64(v@),
            AlgebraicValue::String(v) => ValueView::String(v@),
        }
    }
}

/// Whether every decimal is well-formed.
pub open spec fn all_wf(decimals: Seq<Decimal>) -> bool {
    forall|i: int| 0 <= i < decimals.len() ==> (#[trigger] decimals[i]).wf()
}

/// Whether every value is well-formed.
pub open spec fn values_wf(values: Seq<AlgebraicValue>) -> bool {
    forall|i: int| 0 <= i < values.len() ==> (#[trigger] values[i]).wf()
}

impl ArrayValue {
    /// The decimals of an array of floats are well-formed.
    pub open spec fn wf(self) -> bool {
        match self {
            ArrayValue::F32(v) => all_wf(v@),
            ArrayValue::F64(v) => all_wf(v@),
            _ => true,
        }
    }
}

impl AlgebraicValue {
    /// The decimals that stand for floats are well-formed.
    pub open spec fn wf(self) -> bool
        decreases self,
    {
        match self {
            AlgebraicValue::Sum(v) => (*v.value).wf(),
            AlgebraicValue::Product(v) => forall|i: int|
                0 <= i < v.elements@.len() ==> (#[trigger] v.elements@[i]).wf(),
            AlgebraicValue::Array(v) => v.wf(),
            AlgebraicValue::F32(d) => d.wf(),
            AlgebraicValue::F64(d) => d.wf(),
            _ => true,
        }
    }
}

impl ValueView {
    /// The product of one value.
    pub open spec fn newtype(v: ValueView) -> ValueView {
        ValueView::Product(seq![v])
    }

    pub open spec fn unit() -> ValueView {
        ValueView::Product(Seq::empty())
    }

    /// An array of bytes.
    pub open spec fn bytes(bytes: Seq<u8>) -> ValueView {
        ValueView::Array(
            TypeView::Int(IntKind::U8),
            bytes.map_values(|x: u8| ValueView::Int(IntKind::U8, x as int)),
        )
    }

    /// The variant of a simple enum.
    pub open spec fn enum_simple(tag: u8) -> ValueView {
        ValueView::Sum(tag, Box::new(ValueView::unit()))
    }

    /// Whether this is a value of the type `ty`.
    pub open spec fn has_type(self, ty: TypeView) -> bool
        decreases self,
    {
        match (self, ty) {
            (ValueView::Sum(tag, value), TypeView::Sum(variants)) => {
                tag < variants.len() && value.has_type(variants[tag as int].ty)
            },
            (ValueView::Product(values), TypeView::Product(elements)) => {
                &&& values.len() == elements.len()
                &&& forall|i: int| #![trigger values[i]] 0 <= i < values.len() ==> values[i].has_type(elements[i].ty)
            },
            (ValueView::Array(elem, values), TypeView::Array(ty)) => {
                &&& elem == *ty
                &&& forall|i: int| 0 <= i < values.len() ==> (#[trigger] values[i]).has_type(elem)
            },
            (ValueView::Bool(_), TypeView::Bool) => true,
            (ValueView::Int(kind, v), TypeView::Int(k)) => kind == k && crate::decimal::fits(k, v),
            (ValueView::F32(_), TypeView::F32) => true,
            (ValueView::F64(_), TypeView::F64) => true,
            (ValueView::String(_), TypeView::String) => true,
            _ => false,
        }
    }
}

impl AlgebraicValue {
    /// The product of one value.
    pub(crate) fn newtype(v: AlgebraicValue) -> (r: AlgebraicValue)
        ensures
            r@ == ValueView::newtype(v@),
            v.wf() ==> r.wf(),
    {
        let ghost inner = v@;
        let r = AlgebraicValue::Product(ProductValue { elements: vec![v] });
        assert(r@->Product_0 =~= seq![inner]);
        r
    }

    /// The product of no value.
    pub fn unit() -> (r: AlgebraicValue)
        ensures
            r@ == ValueView::unit(),
            r.wf(),
    {
        let r = AlgebraicValue::Product(ProductValue { elements: Vec::new() });
        assert(r@->Product_0 =~= Seq::<ValueView>::empty());
        r
    }

    /// The variant of a simple enum.
    pub fn enum_simple(tag: u8) -> (r: AlgebraicValue)
        ensures
            r@ == ValueView::enum_simple(tag),
            r.wf(),
    {
        AlgebraicValue::Sum(SumValue { tag, value: Box::new(AlgebraicValue::unit()) })
    }
}

} // verus!
