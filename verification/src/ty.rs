//! The algebraic types that a column, a literal or an expression can have.
use vstd::prelude::*;

verus! {

/// The tag of the only element of the `Identity` type.
pub const IDENTITY_TAG: &'static str = "__identity__";

/// The tag of the only element of the `ConnectionId` type.
pub const CONNECTION_ID_TAG: &'static str = "__connection_id__";

/// The tag of the only element of the `Timestamp` type.
pub const TIMESTAMP_TAG: &'static str = "__timestamp_micros_since_unix_epoch__";

/// A structural type.
#[derive(Debug)]
pub enum AlgebraicType {
    /// A reference into a typespace.
    Ref(u32),
    /// A tagged union.
    Sum(SumType),
    /// A record or a tuple.
    Product(ProductType),
    /// An array.
    Array(ArrayType),
    /// UTF-8 text.
    String,
    Bool,
    I8,
    U8,
    I16,
    U16,
    I32,
    U32,
    I64,
    U64,
    I128,
    U128,
    I256,
    U256,
    F32,
    F64,
}

/// A tagged union: the position of a variant is its tag.
#[derive(Debug)]
pub struct SumType {
    pub variants: Vec<SumTypeVariant>,
}

/// One variant of a [`SumType`].
#[derive(Debug)]
pub struct SumTypeVariant {
    pub name: Option<String>,
    pub algebraic_type: AlgebraicType,
}

/// A record or a tuple.
#[derive(Debug)]
pub struct ProductType {
    pub elements: Vec<ProductTypeElement>,
}

/// One element of a [`ProductType`].
#[derive(Debug)]
pub struct ProductTypeElement {
    pub name: Option<String>,
    pub algebraic_type: AlgebraicType,
}

/// The type of arrays with elements of one type.
#[derive(Debug)]
pub struct ArrayType {
    pub elem_ty: Box<AlgebraicType>,
}

/// The integer types.
#[derive(Debug, Clone, Copy, PartialEq, Eq, Structural)]
pub enum IntKind {
    I8,
    U8,
    I16,
    U16,
    I32,
    U32,
    I64,
    U64,
    I128,
    U128,
    I256,
    U256,
}

/// The mathematical content of an [`AlgebraicType`].
pub ghost enum TypeView {
    Ref(u32),
    Sum(Seq<MemberView>),
    Product(Seq<MemberView>),
    Array(Box<TypeView>),
    String,
    Bool,
    Int(IntKind),
    F32,
    F64,
}

/// The mathematical content of a variant or an element: its name and its type.
pub ghost struct MemberView {
    pub name: Option<Seq<char>>,
    pub ty: TypeView,
}

/// The text of an optional name.
pub open spec fn name_view(name: Option<String>) -> Option<Seq<char>> {
    match name {
        Some(s) => Some(s@),
        None => None,
    }
}

/// Whether `i` is the first position of `s` that satisfies `p`.
pub open spec fn is_first<A>(s: Seq<A>, p: spec_fn(A) -> bool, i: int) -> bool {
    &&& 0 <= i < s.len()
    &&& p(s[i])
    &&& forall|j: int| 0 <= j < i ==> !p(#[trigger] s[j])
}

/// The first position of `s` that satisfies `p`.
pub open spec fn first_index<A>(s: Seq<A>, p: spec_fn(A) -> bool) -> Option<int> {
    if exists|i: int| is_first(s, p, i) {
        Some(choose|i: int| is_first(s, p, i))
    } else {
        None
    }
}

/// There is at most one first position.
pub proof fn lemma_first_index<A>(s: Seq<A>, p: spec_fn(A) -> bool, i: int)
    requires
        is_first(s, p, i),
    ensures
        first_index(s, p) == Some(i),
{
    let k = choose|k: int| is_first(s, p, k);
    assert(is_first(s, p, k));
    if k < i {
        assert(!p(s[k]));
    }
    if i < k {
        assert(!p(s[i]));
    }
}

/// Where there is no first position, there is none at all.
pub proof fn lemma_no_first<A>(s: Seq<A>, p: spec_fn(A) -> bool, i: int)
    requires
        first_index(s, p) is None,
        0 <= i < s.len(),
    ensures
        !p(s[i]),
    decreases i,
{
    if p(s[i]) {
        assert forall|j: int| 0 <= j < i implies !p(#[trigger] s[j]) by {
            lemma_no_first(s, p, j);
        }
        assert(is_first(s, p, i));
    }
}

impl TypeView {
    pub open spec fn is_integer(self) -> bool {
        self is Int
    }

    pub open spec fn is_float(self) -> bool {
        self is F32 || self is F64
    }

    pub open spec fn bytes() -> TypeView {
        TypeView::Array(Box::new(TypeView::Int(IntKind::U8)))
    }

    pub open spec fn unit() -> TypeView {
        TypeView::Product(Seq::empty())
    }

    /// The product of one element named `tag`.
    pub open spec fn newtype(tag: Seq<char>, inner: IntKind) -> TypeView {
        TypeView::Product(seq![MemberView { name: Some(tag), ty: TypeView::Int(inner) }])
    }

    pub open spec fn identity() -> TypeView {
        TypeView::newtype(IDENTITY_TAG@, IntKind::U256)
    }

    pub open spec fn connection_id() -> TypeView {
        TypeView::newtype(CONNECTION_ID_TAG@, IntKind::U128)
    }

    pub open spec fn timestamp() -> TypeView {
        TypeView::newtype(TIMESTAMP_TAG@, IntKind::I64)
    }

    /// A sum without data attached to its variants.
    pub open spec fn is_simple_enum(self) -> bool {
        self matches TypeView::Sum(variants) && all_unit(variants)
    }
}

/// Whether no variant has data attached.
pub open spec fn all_unit(variants: Seq<MemberView>) -> bool {
    forall|i: int| 0 <= i < variants.len() ==> (#[trigger] variants[i]).ty == TypeView::unit()
}

/// The first variant of the given name.
pub open spec fn variant_index(variants: Seq<MemberView>, name: Seq<char>) -> Option<int> {
    first_index(variants, |m: MemberView| m.name == Some(name))
}

impl View for AlgebraicType {
    type V = TypeView;

    open spec fn view(&self) -> TypeView {
        self.content()
    }
}

/// The content of an optional type.
pub open spec fn optional_type(ty: Option<&AlgebraicType>) -> Option<TypeView> {
    match ty {
        Some(ty) => Some(ty@),
        None => None,
    }
}

impl SumType {
    /// The names and types of the variants.
    pub open spec fn content(self) -> Seq<MemberView>
        decreases self,
    {
        Seq::new(
            self.variants@.len(),
            |i: int|
                if 0 <= i < self.variants@.len() {
                    MemberView {
                        name: name_view(self.variants@[i].name),
                        ty: self.variants@[i].algebraic_type.content(),
                    }
                } else {
                    arbitrary()
                },
        )
    }
}

impl ProductType {
    /// The names and types of the elements.
    pub open spec fn content(self) -> Seq<MemberView>
        decreases self,
    {
        Seq::new(
            self.elements@.len(),
            |i: int|
                if 0 <= i < self.elements@.len() {
                    MemberView {
                        name: name_view(self.elements@[i].name),
                        ty: self.elements@[i].algebraic_type.content(),
                    }
                } else {
                    arbitrary()
                },
        )
    }
}

impl View for SumType {
    type V = Seq<MemberView>;

    open spec fn view(&self) -> Seq<MemberView> {
        self.content()
    }
}

impl View for ProductType {
    type V = Seq<MemberView>;

    open spec fn view(&self) -> Seq<MemberView> {
        self.content()
    }
}

impl AlgebraicType {
    /// The mathematical content of this type.
    pub open spec fn content(self) -> TypeView
        decreases self,
    {
        match self {
            AlgebraicType::Ref(r) => TypeView::Ref(r),
            AlgebraicType::Sum(st) => TypeView::Sum(st.content()),
            AlgebraicType::Product(pt) => TypeView::Product(pt.content()),
            AlgebraicType::Array(a) => TypeView::Array(Box::new((*a.elem_ty).content())),
            AlgebraicType::String => TypeView::String,
            AlgebraicType::Bool => TypeView::Bool,
            AlgebraicType::I8 => TypeView::Int(IntKind::I8),
            AlgebraicType::U8 => TypeView::Int(IntKind::U8),
            AlgebraicType::I16 => TypeView::Int(IntKind::I16),
            AlgebraicType::U16 => TypeView::Int(IntKind::U16),
            AlgebraicType::I32 => TypeView::Int(IntKind::I32),
            AlgebraicType::U32 => TypeView::Int(IntKind::U32),
            AlgebraicType::I64 => TypeView::Int(IntKind::I64),
            AlgebraicType::U64 => TypeView::Int(IntKind::U64),
            AlgebraicType::I128 => TypeView::Int(IntKind::I128),
            AlgebraicType::U128 => TypeView::Int(IntKind::U128),
            AlgebraicType::I256 => TypeView::Int(IntKind::I256),
            AlgebraicType::U256 => TypeView::Int(IntKind::U256),
            AlgebraicType::F32 => TypeView::F32,
            AlgebraicType::F64 => TypeView::F64,
        }
    }
}

/// A copy of an optional name.
pub(crate) fn clone_name(name: &Option<String>) -> (r: Option<String>)
    ensures
        name_view(r) == name_view(*name),
{
    match name {
        Some(s) => Some(s.clone()),
        None => None,
    }
}

/// Whether two optional names are the same.
fn same_name(a: &Option<String>, b: &Option<String>) -> (r: bool)
    ensures
        r == (name_view(*a) == name_view(*b)),
{
    match (a, b) {
        (Some(s), Some(t)) => *s == *t,
        (None, None) => true,
        _ => false,
    }
}

/// Whether two texts are the same.
pub fn same_text(a: &str, b: &str) -> (r: bool)
    ensures
        r == (a@ == b@),
{
    a.to_owned() == b.to_owned()
}

impl Clone for SumType {
    fn clone(&self) -> (r: SumType)
        ensures
            r@ == self@,
        decreases self,
    {
        let mut variants: Vec<SumTypeVariant> = Vec::new();
        let n: usize = self.variants.len();
        for i in 0..n
            invariant
                n == self.variants@.len(),
                variants@.len() == i,
                forall|j: int|
                    #![trigger variants@[j]]
                    0 <= j < i ==> {
                        &&& name_view(variants@[j].name) == name_view(self.variants@[j].name)
                        &&& variants@[j].algebraic_type@ == self.variants@[j].algebraic_type@
                    },
        {
            let v = &self.variants[i];
            assert(decreases_to!(self.variants@ => self.variants@[i as int]));
            variants.push(
                SumTypeVariant { name: clone_name(&v.name), algebraic_type: v.algebraic_type.clone() },
            );
        }
        let r = SumType { variants };
        assert(r@ =~= self@);
        r
    }
}

impl Clone for ProductType {
    fn clone(&self) -> (r: ProductType)
        ensures
            r@ == self@,
        decreases self,
    {
        let mut elements: Vec<ProductTypeElement> = Vec::new();
        let n: usize = self.elements.len();
        for i in 0..n
            invariant
                n == self.elements@.len(),
                elements@.len() == i,
                forall|j: int|
                    #![trigger elements@[j]]
                    0 <= j < i ==> {
                        &&& name_view(elements@[j].name) == name_view(self.elements@[j].name)
                        &&& elements@[j].algebraic_type@ == self.elements@[j].algebraic_type@
                    },
        {
            let e = &self.elements[i];
            assert(decreases_to!(self.elements@ => self.elements@[i as int]));
            elements.push(
                ProductTypeElement { name: clone_name(&e.name), algebraic_type: e.algebraic_type.clone() },
            );
        }
        let r = ProductType { elements };
        assert(r@ =~= self@);
        r
    }
}

impl Clone for AlgebraicType {
    fn clone(&self) -> (r: AlgebraicType)
        ensures
            r@ == self@,
        decreases self,
    {
        match self {
            AlgebraicType::Ref(r) => AlgebraicType::Ref(*r),
            AlgebraicType::Sum(st) => AlgebraicType::Sum(st.clone()),
            AlgebraicType::Product(pt) => AlgebraicType::Product(pt.clone()),
            AlgebraicType::Array(a) => AlgebraicType::Array(
                ArrayType { elem_ty: Box::new((&*a.elem_ty).clone()) },
            ),
            AlgebraicType::String => AlgebraicType::String,
            AlgebraicType::Bool => AlgebraicType::Bool,
            AlgebraicType::I8 => AlgebraicType::I8,
            AlgebraicType::U8 => AlgebraicType::U8,
            AlgebraicType::I16 => AlgebraicType::I16,
            AlgebraicType::U16 => AlgebraicType::U16,
            AlgebraicType::I32 => AlgebraicType::I32,
            AlgebraicType::U32 => AlgebraicType::U32,
            AlgebraicType::I64 => AlgebraicType::I64,
            AlgebraicType::U64 => AlgebraicType::U64,
            AlgebraicType::I128 => AlgebraicType::I128,
            AlgebraicType::U128 => AlgebraicType::U128,
            AlgebraicType::I256 => AlgebraicType::I256,
            AlgebraicType::U256 => AlgebraicType::U256,
            AlgebraicType::F32 => AlgebraicType::F32,
            AlgebraicType::F64 => AlgebraicType::F64,
        }
    }
}

impl SumType {
    /// Whether two types are the same, names included.
    pub fn same(&self, other: &SumType) -> (r: bool)
        ensures
            r == (self@ == other@),
        decreases self,
    {
        if self.variants.len() != other.variants.len() {
            assert(self@.len() != other@.len());
            return false;
        }
        let n: usize = self.variants.len();
        for i in 0..n
            invariant
                n == self.variants@.len(),
                n == other.variants@.len(),
                forall|j: int| 0 <= j < i ==> #[trigger] self@[j] == other@[j],
        {
            let a = &self.variants[i];
            let b = &other.variants[i];
            assert(decreases_to!(self.variants@ => self.variants@[i as int]));
            if !same_name(&a.name, &b.name) || !a.algebraic_type.same(&b.algebraic_type) {
                assert(self@[i as int] != other@[i as int]);
                return false;
            }
        }
        assert(self@ =~= other@);
        true
    }
}

impl ProductType {
    /// Whether two types are the same, names included.
    pub fn same(&self, other: &ProductType) -> (r: bool)
        ensures
            r == (self@ == other@),
        decreases self,
    {
        if self.elements.len() != other.elements.len() {
            assert(self@.len() != other@.len());
            return false;
        }
        let n: usize = self.elements.len();
        for i in 0..n
            invariant
                n == self.elements@.len(),
                n == other.elements@.len(),
                forall|j: int| 0 <= j < i ==> #[trigger] self@[j] == other@[j],
        {
            let a = &self.elements[i];
            let b = &other.elements[i];
            assert(decreases_to!(self.elements@ => self.elements@[i as int]));
            if !same_name(&a.name, &b.name) || !a.algebraic_type.same(&b.algebraic_type) {
                assert(self@[i as int] != other@[i as int]);
                return false;
            }
        }
        assert(self@ =~= other@);
        true
    }
}

impl AlgebraicType {
    /// Whether two types are the same, names included.
    pub fn same(&self, other: &AlgebraicType) -> (r: bool)
        ensures
            r == (self@ == other@),
        decreases self,
    {
        match (self, other) {
            (AlgebraicType::Ref(a), AlgebraicType::Ref(b)) => *a == *b,
            (AlgebraicType::Sum(a), AlgebraicType::Sum(b)) => a.same(b),
            (AlgebraicType::Product(a), AlgebraicType::Product(b)) => a.same(b),
            (AlgebraicType::Array(a), AlgebraicType::Array(b)) => (&*a.elem_ty).same(&*b.elem_ty),
            (AlgebraicType::String, AlgebraicType::String) => true,
            (AlgebraicType::Bool, AlgebraicType::Bool) => true,
            (AlgebraicType::I8, AlgebraicType::I8) => true,
            (AlgebraicType::U8, AlgebraicType::U8) => true,
            (AlgebraicType::I16, AlgebraicType::I16) => true,
            (AlgebraicType::U16, AlgebraicType::U16) => true,
            (AlgebraicType::I32, AlgebraicType::I32) => true,
            (AlgebraicType::U32, AlgebraicType::U32) => true,
            (AlgebraicType::I64, AlgebraicType::I64) => true,
            (AlgebraicType::U64, AlgebraicType::U64) => true,
            (AlgebraicType::I128, AlgebraicType::I128) => true,
            (AlgebraicType::U128, AlgebraicType::U128) => true,
            (AlgebraicType::I256, AlgebraicType::I256) => true,
            (AlgebraicType::U256, AlgebraicType::U256) => true,
            (AlgebraicType::F32, AlgebraicType::F32) => true,
            (AlgebraicType::F64, AlgebraicType::F64) => true,
            _ => false,
        }
    }
}

impl PartialEq for AlgebraicType {
    fn eq(&self, other: &AlgebraicType) -> (r: bool) {
        self.same(other)
    }
}

impl vstd::std_specs::cmp::PartialEqSpecImpl for AlgebraicType {
    open spec fn obeys_eq_spec() -> bool {
        true
    }

    open spec fn eq_spec(&self, other: &AlgebraicType) -> bool {
        self@ == other@
    }
}

impl SumType {
    /// Whether no variant has data attached.
    pub fn is_simple_enum(&self) -> (r: bool)
        ensures
            r == all_unit(self@),
    {
        let n: usize = self.variants.len();
        for i in 0..n
            invariant
                n == self.variants@.len(),
                forall|j: int| 0 <= j < i ==> (#[trigger] self@[j]).ty == TypeView::unit(),
        {
            if !self.variants[i].algebraic_type.is_unit() {
                assert(self@[i as int].ty != TypeView::unit());
                return false;
            }
        }
        true
    }

    /// The first variant named `tag_name`, with the low eight bits of its position.
    pub fn get_variant(&self, tag_name: &str) -> (r: Option<(u8, &SumTypeVariant)>)
        ensures
            r is Some <==> variant_index(self@, tag_name@) is Some,
            r matches Some((tag, variant)) ==> {
                let i = variant_index(self@, tag_name@)->0;
                &&& 0 <= i < self.variants@.len()
                &&& tag == i % 256
                &&& *variant == self.variants@[i]
            },
    {
        let ghost named = |m: MemberView| m.name == Some(tag_name@);
        let n: usize = self.variants.len();
        for i in 0..n
            invariant
                n == self.variants@.len(),
                named == (|m: MemberView| m.name == Some(tag_name@)),
                forall|j: int| 0 <= j < i ==> !named(#[trigger] self@[j]),
        {
            let v = &self.variants[i];
            if let Some(name) = &v.name {
                if same_text(name.as_str(), tag_name) {
                    proof {
                        assert(is_first(self@, named, i as int));
                        lemma_first_index(self@, named, i as int);
                    }
                    return Some((low_byte(i), v));
                }
            }
            assert(!named(self@[i as int]));
        }
        assert forall|k: int| !is_first(self@, named, k) by {}
        None
    }

    /// The first variant named `tag_name`, if this is a simple enum.
    pub fn get_variant_simple(&self, tag_name: &str) -> (r: Option<(u8, &SumTypeVariant)>)
        ensures
            r is Some <==> all_unit(self@) && variant_index(self@, tag_name@) is Some,
            r matches Some((tag, variant)) ==> {
                let i = variant_index(self@, tag_name@)->0;
                &&& 0 <= i < self.variants@.len()
                &&& tag == i % 256
                &&& *variant == self.variants@[i]
            },
    {
        if self.is_simple_enum() {
            self.get_variant(tag_name)
        } else {
            None
        }
    }
}

/// The low eight bits of a position.
fn low_byte(i: usize) -> (r: u8)
    ensures
        r == i % 256,
{
    (i % 256) as u8
}

impl ProductType {
    /// The product without elements.
    pub fn unit() -> (r: ProductType)
        ensures
            r@ == Seq::<MemberView>::empty(),
    {
        let r = ProductType { elements: Vec::new() };
        assert(r@ =~= Seq::<MemberView>::empty());
        r
    }

    /// The type of the only element, if there is exactly one and its name is `tag`.
    fn newtype_inner(&self, tag: &str) -> (r: Option<&AlgebraicType>)
        ensures
            r is Some <==> self@.len() == 1 && self@[0].name == Some(tag@),
            r matches Some(ty) ==> self@ == seq![MemberView { name: Some(tag@), ty: ty@ }],
    {
        if self.elements.len() != 1 {
            return None;
        }
        let e = &self.elements[0];
        match &e.name {
            Some(name) => if same_text(name.as_str(), tag) {
                assert(self@ =~= seq![MemberView { name: Some(tag@), ty: e.algebraic_type@ }]);
                Some(&e.algebraic_type)
            } else {
                None
            },
            None => None,
        }
    }
}

/// Two products of one element are the same only if the elements are.
proof fn lemma_newtype(pt: ProductType, tag: Seq<char>, ty: TypeView, kind: IntKind)
    ensures
        pt@ == seq![MemberView { name: Some(tag), ty }] ==> ((AlgebraicType::Product(pt)@
            == TypeView::newtype(tag, kind)) == (ty == TypeView::Int(kind))),
        AlgebraicType::Product(pt)@ == TypeView::newtype(tag, kind) ==> {
            &&& pt@.len() == 1
            &&& pt@[0] == MemberView { name: Some(tag), ty: TypeView::Int(kind) }
        },
{
    let s = seq![MemberView { name: Some(tag), ty }];
    let t = seq![MemberView { name: Some(tag), ty: TypeView::Int(kind) }];
    assert(s[0].ty == ty && t[0].ty == TypeView::Int(kind));
}

impl AlgebraicType {
    pub fn is_bool(&self) -> (r: bool)
        ensures
            r == (self@ == TypeView::Bool),
    {
        matches!(self, AlgebraicType::Bool)
    }

    /// Whether this is one of the twelve integer types.
    pub fn is_integer(&self) -> (r: bool)
        ensures
            r == self@.is_integer(),
    {
        match self {
            AlgebraicType::I8 | AlgebraicType::U8 | AlgebraicType::I16 | AlgebraicType::U16
            | AlgebraicType::I32 | AlgebraicType::U32 | AlgebraicType::I64 | AlgebraicType::U64
            | AlgebraicType::I128 | AlgebraicType::U128 | AlgebraicType::I256
            | AlgebraicType::U256 => true,
            _ => false,
        }
    }

    pub fn is_float(&self) -> (r: bool)
        ensures
            r == self@.is_float(),
    {
        matches!(self, AlgebraicType::F32 | AlgebraicType::F64)
    }

    pub fn is_string(&self) -> (r: bool)
        ensures
            r == (self@ == TypeView::String),
    {
        matches!(self, AlgebraicType::String)
    }

    /// Whether this is the product without elements.
    pub fn is_unit(&self) -> (r: bool)
        ensures
            r == (self@ == TypeView::unit()),
    {
        match self {
            AlgebraicType::Product(pt) => {
                assert(pt@.len() == pt.elements@.len());
                assert(pt@.len() == 0 ==> pt@ =~= Seq::<MemberView>::empty());
                pt.elements.len() == 0
            },
            _ => false,
        }
    }

    /// Whether this is the type of arrays of `U8`.
    pub fn is_bytes(&self) -> (r: bool)
        ensures
            r == (self@ == TypeView::bytes()),
    {
        match self {
            AlgebraicType::Array(a) => {
                proof {
                    reveal_with_fuel(AlgebraicType::content, 2);
                }
                matches!(&*a.elem_ty, AlgebraicType::U8)
            },
            _ => false,
        }
    }

    pub fn is_identity(&self) -> (r: bool)
        ensures
            r == (self@ == TypeView::identity()),
    {
        match self {
            AlgebraicType::Product(pt) => {
                let inner = pt.newtype_inner(IDENTITY_TAG);
                proof {
                    let ty = if inner is Some { inner->0@ } else { TypeView::Bool };
                    lemma_newtype(*pt, IDENTITY_TAG@, ty, IntKind::U256);
                }
                matches!(inner, Some(AlgebraicType::U256))
            },
            _ => false,
        }
    }

    pub fn is_connection_id(&self) -> (r: bool)
        ensures
            r == (self@ == TypeView::connection_id()),
    {
        match self {
            AlgebraicType::Product(pt) => {
                let inner = pt.newtype_inner(CONNECTION_ID_TAG);
                proof {
                    let ty = if inner is Some { inner->0@ } else { TypeView::Bool };
                    lemma_newtype(*pt, CONNECTION_ID_TAG@, ty, IntKind::U128);
                }
                matches!(inner, Some(AlgebraicType::U128))
            },
            _ => false,
        }
    }

    pub fn is_timestamp(&self) -> (r: bool)
        ensures
            r == (self@ == TypeView::timestamp()),
    {
        match self {
            AlgebraicType::Product(pt) => {
                let inner = pt.newtype_inner(TIMESTAMP_TAG);
                proof {
                    let ty = if inner is Some { inner->0@ } else { TypeView::Bool };
                    lemma_newtype(*pt, TIMESTAMP_TAG@, ty, IntKind::I64);
                }
                matches!(inner, Some(AlgebraicType::I64))
            },
            _ => false,
        }
    }

    /// Whether this is a sum without data attached to its variants.
    pub fn is_simple_enum(&self) -> (r: bool)
        ensures
            r == self@.is_simple_enum(),
    {
        match self {
            AlgebraicType::Sum(st) => st.is_simple_enum(),
            _ => false,
        }
    }
}

} // verus!
