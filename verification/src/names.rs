//! What types are called.
use spacetimedb_sats::algebraic_type::fmt::fmt_algebraic_type;
use spacetimedb_sats::AlgebraicType as SatsType;
use spacetimedb_sats::{AlgebraicTypeRef, ProductTypeElement, SumTypeVariant};
use vstd::prelude::*;

use crate::ty::{AlgebraicType, IntKind, MemberView, ProductType, SumType, TypeView};

verus! {

/// `spacetimedb_sats::AlgebraicType`, the type that `fmt_algebraic_type` takes.
#[verifier::external_type_specification]
#[verifier::external_body]
pub struct ExSatsType(SatsType);

/// What a `spacetimedb_sats::AlgebraicType` holds.
pub uninterp spec fn sats_content(ty: SatsType) -> TypeView;

/// What `fmt_algebraic_type` calls a type.
pub uninterp spec fn type_text(ty: TypeView) -> Seq<char>;

/// What a type without components is called.
pub open spec fn scalar_text(ty: TypeView) -> Option<Seq<char>> {
    match ty {
        TypeView::String => Some("String"@),
        TypeView::Bool => Some("Bool"@),
        TypeView::F32 => Some("F32"@),
        TypeView::F64 => Some("F64"@),
        TypeView::Int(kind) => Some(
            match kind {
                IntKind::I8 => "I8"@,
                IntKind::U8 => "U8"@,
                IntKind::I16 => "I16"@,
                IntKind::U16 => "U16"@,
                IntKind::I32 => "I32"@,
                IntKind::U32 => "U32"@,
                IntKind::I64 => "I64"@,
                IntKind::U64 => "U64"@,
                IntKind::I128 => "I128"@,
                IntKind::U128 => "U128"@,
                IntKind::I256 => "I256"@,
                IntKind::U256 => "U256"@,
            },
        ),
        _ => None,
    }
}

/// The names and contents of the members of a product or a sum.
pub open spec fn sats_members(members: Seq<(Option<String>, SatsType)>) -> Seq<MemberView> {
    members.map_values(
        |m: (Option<String>, SatsType)|
            MemberView { name: crate::ty::name_view(m.0), ty: sats_content(m.1) },
    )
}

/// `fmt_algebraic_type`: what a type is called, as [`type_text`] names it. Stated is what the types
/// without components are called.
#[verifier::external_body]
fn fmt_type(ty: &SatsType) -> (r: String)
    ensures
        r@ == type_text(sats_content(*ty)),
        scalar_text(sats_content(*ty)) matches Some(text) ==> r@ == text,
{
    fmt_algebraic_type(ty).to_string()
}

/// The variants of `spacetimedb_sats::AlgebraicType` that are integer types.
#[verifier::external_body]
fn sats_int(kind: IntKind) -> (r: SatsType)
    ensures
        sats_content(r) == TypeView::Int(kind),
{
    match kind {
        IntKind::I8 => SatsType::I8,
        IntKind::U8 => SatsType::U8,
        IntKind::I16 => SatsType::I16,
        IntKind::U16 => SatsType::U16,
        IntKind::I32 => SatsType::I32,
        IntKind::U32 => SatsType::U32,
        IntKind::I64 => SatsType::I64,
        IntKind::U64 => SatsType::U64,
        IntKind::I128 => SatsType::I128,
        IntKind::U128 => SatsType::U128,
        IntKind::I256 => SatsType::I256,
        IntKind::U256 => SatsType::U256,
    }
}

/// `spacetimedb_sats::AlgebraicType::Bool`.
#[verifier::external_body]
fn sats_bool() -> (r: SatsType)
    ensures
        sats_content(r) == TypeView::Bool,
{
    SatsType::Bool
}

/// `spacetimedb_sats::AlgebraicType::String`.
#[verifier::external_body]
fn sats_string() -> (r: SatsType)
    ensures
        sats_content(r) == TypeView::String,
{
    SatsType::String
}

/// `spacetimedb_sats::AlgebraicType::F32`.
#[verifier::external_body]
fn sats_float() -> (r: SatsType)
    ensures
        sats_content(r) == TypeView::F32,
{
    SatsType::F32
}

/// `spacetimedb_sats::AlgebraicType::F64`.
#[verifier::external_body]
fn sats_double() -> (r: SatsType)
    ensures
        sats_content(r) == TypeView::F64,
{
    SatsType::F64
}

/// `spacetimedb_sats::AlgebraicType::Ref`: a reference into a typespace.
#[verifier::external_body]
fn sats_ref(r: u32) -> (ty: SatsType)
    ensures
        sats_content(ty) == TypeView::Ref(r),
{
    SatsType::Ref(AlgebraicTypeRef(r))
}

/// `spacetimedb_sats::AlgebraicType::array`: the type of arrays with elements of one type.
#[verifier::external_body]
fn sats_array(elem: SatsType) -> (r: SatsType)
    ensures
        sats_content(r) == TypeView::Array(Box::new(sats_content(elem))),
{
    SatsType::array(elem)
}

/// `spacetimedb_sats::AlgebraicType::product`: the product of elements with or without names.
#[verifier::external_body]
fn sats_product(elements: Vec<(Option<String>, SatsType)>) -> (r: SatsType)
    ensures
        sats_content(r) == TypeView::Product(sats_members(elements@)),
{
    let elements: Box<[ProductTypeElement]> = elements
        .into_iter()
        .map(|(name, ty)| ProductTypeElement::new(ty, name.map(String::into_boxed_str)))
        .collect();
    SatsType::product(elements)
}

/// `spacetimedb_sats::AlgebraicType::sum`: the sum of variants with or without names.
#[verifier::external_body]
fn sats_sum(variants: Vec<(Option<String>, SatsType)>) -> (r: SatsType)
    ensures
        sats_content(r) == TypeView::Sum(sats_members(variants@)),
{
    let variants: Box<[SumTypeVariant]> = variants
        .into_iter()
        .map(|(name, ty)| SumTypeVariant::new(ty, name.map(String::into_boxed_str)))
        .collect();
    SatsType::sum(variants)
}

/// The elements of a product, each as a `spacetimedb_sats::AlgebraicType`.
fn sats_elements(pt: &ProductType) -> (r: Vec<(Option<String>, SatsType)>)
    ensures
        sats_members(r@) == pt@,
    decreases pt,
{
    let mut r: Vec<(Option<String>, SatsType)> = Vec::new();
    let n: usize = pt.elements.len();
    for i in 0..n
        invariant
            n == pt.elements@.len(),
            r@.len() == i,
            forall|j: int|
                #![trigger r@[j]]
                0 <= j < i ==> {
                    &&& crate::ty::name_view(r@[j].0) == crate::ty::name_view(pt.elements@[j].name)
                    &&& sats_content(r@[j].1) == pt.elements@[j].algebraic_type@
                },
    {
        let e = &pt.elements[i];
        assert(decreases_to!(pt.elements@ => pt.elements@[i as int]));
        r.push((crate::ty::clone_name(&e.name), sats_type(&e.algebraic_type)));
    }
    assert(sats_members(r@) =~= pt@);
    r
}

/// The variants of a sum, each as a `spacetimedb_sats::AlgebraicType`.
fn sats_variants(st: &SumType) -> (r: Vec<(Option<String>, SatsType)>)
    ensures
        sats_members(r@) == st@,
    decreases st,
{
    let mut r: Vec<(Option<String>, SatsType)> = Vec::new();
    let n: usize = st.variants.len();
    for i in 0..n
        invariant
            n == st.variants@.len(),
            r@.len() == i,
            forall|j: int|
                #![trigger r@[j]]
                0 <= j < i ==> {
                    &&& crate::ty::name_view(r@[j].0) == crate::ty::name_view(st.variants@[j].name)
                    &&& sats_content(r@[j].1) == st.variants@[j].algebraic_type@
                },
    {
        let v = &st.variants[i];
        assert(decreases_to!(st.variants@ => st.variants@[i as int]));
        r.push((crate::ty::clone_name(&v.name), sats_type(&v.algebraic_type)));
    }
    assert(sats_members(r@) =~= st@);
    r
}

/// A type as a `spacetimedb_sats::AlgebraicType`.
fn sats_type(ty: &AlgebraicType) -> (r: SatsType)
    ensures
        sats_content(r) == ty@,
    decreases ty,
{
    match ty {
        AlgebraicType::Ref(r) => sats_ref(*r),
        AlgebraicType::Sum(st) => sats_sum(sats_variants(st)),
        AlgebraicType::Product(pt) => sats_product(sats_elements(pt)),
        AlgebraicType::Array(a) => sats_array(sats_type(&*a.elem_ty)),
        AlgebraicType::String => sats_string(),
        AlgebraicType::Bool => sats_bool(),
        AlgebraicType::I8 => sats_int(IntKind::I8),
        AlgebraicType::U8 => sats_int(IntKind::U8),
        AlgebraicType::I16 => sats_int(IntKind::I16),
        AlgebraicType::U16 => sats_int(IntKind::U16),
        AlgebraicType::I32 => sats_int(IntKind::I32),
        AlgebraicType::U32 => sats_int(IntKind::U32),
        AlgebraicType::I64 => sats_int(IntKind::I64),
        AlgebraicType::U64 => sats_int(IntKind::U64),
        AlgebraicType::I128 => sats_int(IntKind::I128),
        AlgebraicType::U128 => sats_int(IntKind::U128),
        AlgebraicType::I256 => sats_int(IntKind::I256),
        AlgebraicType::U256 => sats_int(IntKind::U256),
        AlgebraicType::F32 => sats_float(),
        AlgebraicType::F64 => sats_double(),
    }
}

/// What a type is called.
pub fn name_of(ty: &AlgebraicType) -> (r: String)
    ensures
        r@ == type_text(ty@),
        scalar_text(ty@) matches Some(text) ==> r@ == text,
{
    fmt_type(&sats_type(ty))
}

} // verus!
