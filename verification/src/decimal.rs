//! Exact decimal numbers, as number literals denote them.
use bigdecimal::num_bigint::BigInt;
use bigdecimal::{BigDecimal, ToPrimitive};
use ethnum::{i256, u256};
use std::str::FromStr;
use vstd::arithmetic::div_mod::*;
use vstd::arithmetic::power::*;
use vstd::prelude::*;

use crate::ty::IntKind;

verus! {

/// A decimal number of any precision: an integer divided by a power of ten.
#[derive(Debug, PartialEq, Eq)]
pub struct Decimal {
    /// The integer, in decimal notation.
    pub unscaled: String,
    /// The exponent of the power of ten; a negative one stands for trailing zeros.
    pub scale: i64,
}

/// The mathematical content of a [`Decimal`]: the number `unscaled / 10^scale`.
pub ghost struct DecimalView {
    pub unscaled: int,
    pub scale: int,
}

/// A 256-bit unsigned integer, by its two halves.
#[derive(Debug, Clone, Copy, PartialEq, Eq)]
pub struct U256 {
    pub hi: u128,
    pub lo: u128,
}

/// A 256-bit signed integer in two's complement, by its two halves.
#[derive(Debug, Clone, Copy, PartialEq, Eq)]
pub struct I256 {
    pub hi: i128,
    pub lo: u128,
}

impl View for U256 {
    type V = int;

    open spec fn view(&self) -> int {
        self.hi * 0x1_0000_0000_0000_0000_0000_0000_0000_0000int + self.lo
    }
}

impl View for I256 {
    type V = int;

    open spec fn view(&self) -> int {
        self.hi * 0x1_0000_0000_0000_0000_0000_0000_0000_0000int + self.lo
    }
}

/// The power of ten with exponent `n`, for `n >= 0`.
pub open spec fn pow10(n: int) -> int {
    pow(10, n as nat)
}

/// Division that rounds toward zero.
pub open spec fn truncating_div(a: int, b: int) -> int {
    if a >= 0 {
        a / b
    } else {
        -((-a) / b)
    }
}

impl DecimalView {
    /// Whether there is no fractional part.
    pub open spec fn is_integer(self) -> bool {
        self.scale <= 0 || self.unscaled % pow10(self.scale) == 0
    }

    /// The value that the number has in an integer type, if any. In the 256-bit types, only a
    /// number without digits behind the decimal point has one.
    pub open spec fn to_kind(self, kind: IntKind) -> Option<int> {
        if self.scale > 0 && (kind == IntKind::I256 || kind == IntKind::U256) {
            None
        } else {
            fitting(Some(self.whole()), kind)
        }
    }

    /// The number without its fractional part.
    pub open spec fn whole(self) -> int {
        if self.scale <= 0 {
            self.unscaled * pow10(-self.scale)
        } else {
            truncating_div(self.unscaled, pow10(self.scale))
        }
    }
}

impl View for Decimal {
    type V = DecimalView;

    open spec fn view(&self) -> DecimalView {
        DecimalView {
            unscaled: integer_text(self.unscaled@, true)->0,
            scale: self.scale as int,
        }
    }
}

/// An integer in decimal notation without its sign.
pub open spec fn magnitude(text: Seq<char>) -> Seq<char> {
    if text.len() > 0 && text[0] == '-' {
        text.skip(1)
    } else {
        text
    }
}

/// Whether `text` is an integer in decimal notation, without needless zeros or signs.
pub open spec fn is_canonical(text: Seq<char>) -> bool {
    let digits = magnitude(text);
    &&& digits.len() > 0
    &&& all_digits(digits)
    &&& digits[0] == '0' ==> text.len() == 1
}

impl Clone for Decimal {
    fn clone(&self) -> (r: Decimal)
        ensures
            r == *self,
    {
        Decimal { unscaled: self.unscaled.clone(), scale: self.scale }
    }
}

impl Decimal {
    /// The integer is in canonical notation.
    pub open spec fn wf(self) -> bool {
        is_canonical(self.unscaled@)
    }

    /// Whether the number is zero or its exponent is moderate: it has at most
    /// [`MAX_TRAILING_ZEROS`] trailing zeros, and no more digits behind the decimal point than
    /// digits.
    pub open spec fn is_moderate(self) -> bool {
        ||| self@.unscaled == 0
        ||| -MAX_TRAILING_ZEROS <= self.scale <= magnitude(self.unscaled@).len()
    }
}

/// A nonzero number with more trailing zeros than this is outside the range of every integer type.
pub const MAX_TRAILING_ZEROS: i64 = 77;

/// Whether `text` consists of the characters `0` to `9`.
pub open spec fn all_digits(text: Seq<char>) -> bool {
    forall|i: int| 0 <= i < text.len() ==> '0' <= #[trigger] text[i] <= '9'
}

/// The number that a text of the characters `0` to `9` denotes.
pub open spec fn text_value(text: Seq<char>) -> int
    decreases text.len(),
{
    if text.len() == 0 {
        0
    } else {
        10 * text_value(text.drop_last()) + (text.last() as int - '0' as int)
    }
}

/// The integer that `text` denotes: an optional sign and at least one digit.
/// Only a signed integer has the sign `-`.
pub open spec fn integer_text(text: Seq<char>, signed: bool) -> Option<int> {
    let minus = signed && text.len() > 0 && text[0] == '-';
    let plus = text.len() > 0 && text[0] == '+';
    let digits = if minus || plus {
        text.skip(1)
    } else {
        text
    };
    if digits.len() == 0 || !all_digits(digits) {
        None
    } else if minus {
        Some(-text_value(digits))
    } else {
        Some(text_value(digits))
    }
}

/// `n` times the character `0`.
pub open spec fn zeros(n: int) -> Seq<char> {
    Seq::new(n as nat, |i: int| '0')
}

/// The decimal number with the given integer and scale in decimal notation, without an exponent.
pub open spec fn plain_notation(unscaled: Seq<char>, scale: int) -> Seq<char> {
    let d = magnitude(unscaled);
    let sign = unscaled.take(unscaled.len() - d.len());
    sign + if scale <= 0 {
        d + zeros(-scale)
    } else if scale < d.len() {
        d.take(d.len() - scale) + seq!['.'] + d.skip(d.len() - scale)
    } else {
        seq!['0', '.'] + zeros(scale - d.len()) + d
    }
}

/// Whether `text` is an integer in decimal notation: an optional `-` and at least one digit.
pub open spec fn is_plain_integer(text: Seq<char>) -> bool {
    integer_text(text, true) is Some && text[0] != '+'
}

/// Whether `text` is a number as it is commonly written: an optional sign and digits; from the
/// position `p` up to `k`, if any, a decimal point and digits; from the position `k` on, if any, `e`
/// or `E` and an exponent. The scale is in the range of `i64`.
pub open spec fn is_number(text: Seq<char>, p: int, k: int) -> bool {
    &&& 0 < p <= k <= text.len()
    &&& integer_text(text.take(p), true) is Some
    &&& p < k ==> text[p] == '.' && all_digits(text.subrange(p + 1, k))
    &&& k < text.len() ==> (text[k] == 'e' || text[k] == 'E') && integer_text(
        text.skip(k + 1),
        true,
    ) is Some
    &&& i64::MIN <= number_parts(text, p, k).1 <= i64::MAX
}

/// The integer and the scale of a number: the digits without the decimal point, and the number of
/// digits behind it less the exponent.
pub open spec fn number_parts(text: Seq<char>, p: int, k: int) -> (int, int) {
    let behind = if p < k {
        text.subrange(p + 1, k)
    } else {
        Seq::empty()
    };
    let exponent = if k < text.len() {
        integer_text(text.skip(k + 1), true)->0
    } else {
        0
    };
    (integer_text(text.take(p) + behind, true)->0, behind.len() - exponent)
}

/// Whether a character occurs in a number.
pub open spec fn is_number_char(c: char) -> bool {
    '0' <= c <= '9' || c == '_' || c == '.' || c == '+' || c == '-' || c == 'e' || c == 'E'
}

/// Whether `text` is empty or holds a character that occurs in no number.
pub open spec fn is_not_a_number(text: Seq<char>) -> bool {
    text.len() == 0 || exists|i: int| 0 <= i < text.len() && !is_number_char(#[trigger] text[i])
}

/// The least value of an integer type.
pub open spec fn int_min(kind: IntKind) -> int {
    match kind {
        IntKind::I8 => i8::MIN as int,
        IntKind::I16 => i16::MIN as int,
        IntKind::I32 => i32::MIN as int,
        IntKind::I64 => i64::MIN as int,
        IntKind::I128 => i128::MIN as int,
        IntKind::I256 => -0x8000_0000_0000_0000_0000_0000_0000_0000_0000_0000_0000_0000_0000_0000_0000_0000int,
        _ => 0,
    }
}

/// The greatest value of an integer type.
pub open spec fn int_max(kind: IntKind) -> int {
    match kind {
        IntKind::I8 => i8::MAX as int,
        IntKind::U8 => u8::MAX as int,
        IntKind::I16 => i16::MAX as int,
        IntKind::U16 => u16::MAX as int,
        IntKind::I32 => i32::MAX as int,
        IntKind::U32 => u32::MAX as int,
        IntKind::I64 => i64::MAX as int,
        IntKind::U64 => u64::MAX as int,
        IntKind::I128 => i128::MAX as int,
        IntKind::U128 => u128::MAX as int,
        IntKind::I256 => 0x7fff_ffff_ffff_ffff_ffff_ffff_ffff_ffff_ffff_ffff_ffff_ffff_ffff_ffff_ffff_ffffint,
        IntKind::U256 => 0xffff_ffff_ffff_ffff_ffff_ffff_ffff_ffff_ffff_ffff_ffff_ffff_ffff_ffff_ffff_ffffint,
    }
}

/// Whether an integer is a value of an integer type.
pub open spec fn fits(kind: IntKind, v: int) -> bool {
    int_min(kind) <= v <= int_max(kind)
}

/// An integer, if there is one that is a value of an integer type.
pub open spec fn fitting(v: Option<int>, kind: IntKind) -> Option<int> {
    if v is Some && fits(kind, v->0) {
        v
    } else {
        None
    }
}

/// The value of a signed 256-bit integer, if there is one.
pub open spec fn i256_parts(v: Option<I256>) -> Option<int> {
    match v {
        Some(v) => Some(v@),
        None => None,
    }
}

/// The value of an unsigned 256-bit integer, if there is one.
pub open spec fn u256_parts(v: Option<U256>) -> Option<int> {
    match v {
        Some(v) => Some(v@),
        None => None,
    }
}

/// The unscaled integer and the scale of a decimal, if there is one.
pub open spec fn optional_parts(d: Option<Decimal>) -> Option<(int, int)> {
    match d {
        Some(d) => Some((d@.unscaled, d@.scale)),
        None => None,
    }
}

/// Whether a decimal, if there is one, is well-formed.
pub open spec fn optional_wf(d: Option<Decimal>) -> bool {
    d matches Some(d) ==> d.wf()
}

/// The first position of a character that satisfies `p`; without one, the length.
pub open spec fn position(text: Seq<char>, p: spec_fn(char) -> bool) -> int {
    match crate::ty::first_index(text, p) {
        Some(i) => i,
        None => text.len() as int,
    }
}

/// What follows the position `i`.
pub open spec fn behind(text: Seq<char>, i: int) -> Seq<char> {
    if i < text.len() {
        text.skip(i + 1)
    } else {
        Seq::empty()
    }
}

/// A text without its underscores.
pub open spec fn without_underscores(text: Seq<char>) -> Seq<char>
    decreases text.len(),
{
    if text.len() == 0 {
        text
    } else if text.last() == '_' {
        without_underscores(text.drop_last())
    } else {
        without_underscores(text.drop_last()).push(text.last())
    }
}

/// The integer that `text` denotes: an optional sign, a digit, then digits and underscores, which
/// do not count.
pub open spec fn spaced_integer(text: Seq<char>) -> Option<int> {
    let minus = text.len() > 0 && text[0] == '-';
    let plus = text.len() > 0 && text[0] == '+';
    let body = if minus || plus {
        text.skip(1)
    } else {
        text
    };
    let digits = without_underscores(body);
    if body.len() == 0 || body[0] == '_' || !all_digits(digits) {
        None
    } else if minus {
        Some(-text_value(digits))
    } else {
        Some(text_value(digits))
    }
}

/// The decimal number that a text denotes, by the unscaled integer and the scale. The first `e` or
/// `E` separates the exponent, an integer in decimal notation, from the base; without one, the
/// exponent is zero. The base without its first point is the unscaled integer. The scale is the
/// number of characters behind the point, underscores aside, less the exponent, and has to be in
/// the range of `i64`.
pub open spec fn decimal_literal(text: Seq<char>) -> Option<(int, int)> {
    let k = position(text, |c: char| c == 'e' || c == 'E');
    let base = text.take(k);
    let exponent = if k < text.len() {
        integer_text(behind(text, k), true)
    } else {
        Some(0)
    };
    let p = position(base, |c: char| c == '.');
    let trail = behind(base, p);
    match (spaced_integer(base.take(p) + trail), exponent) {
        (Some(unscaled), Some(exponent)) => {
            let scale = without_underscores(trail).len() - exponent;
            if i64::MIN <= scale <= i64::MAX {
                Some((unscaled, scale))
            } else {
                None
            }
        },
        _ => None,
    }
}

/// `BigDecimal::from_str`: the decimal number that a text denotes, as [`decimal_literal`] states it.
/// The integer is written by `BigInt::to_string`, without needless zeros or signs.
#[verifier::external_body]
pub(crate) fn parse_decimal(literal: &str) -> (r: Option<Decimal>)
    ensures
        optional_parts(r) == decimal_literal(literal@),
        optional_wf(r),
{
    BigDecimal::from_str(literal).ok().map(|decimal| {
        let (unscaled, scale) = decimal.into_bigint_and_exponent();
        Decimal { unscaled: unscaled.to_string(), scale }
    })
}

/// `BigDecimal::is_integer`: whether there is no fractional part.
#[verifier::external_body]
fn big_is_integer(d: &Decimal) -> (r: bool)
    requires
        d.wf(),
        d.scale <= magnitude(d.unscaled@).len(),
    ensures
        r == d@.is_integer(),
{
    BigDecimal::new(BigInt::from_str(&d.unscaled).unwrap(), d.scale).is_integer()
}

/// `BigDecimal::to_plain_string`: the number in decimal notation.
#[verifier::external_body]
fn to_plain_string(d: &Decimal) -> (r: String)
    requires
        d.wf(),
        -MAX_TRAILING_ZEROS <= d.scale <= magnitude(d.unscaled@).len(),
    ensures
        r@ == plain_notation(d.unscaled@, d.scale as int),
{
    BigDecimal::new(BigInt::from_str(&d.unscaled).unwrap(), d.scale).to_plain_string()
}

/// `i256::from_str_radix` in base ten: the integer that the text denotes, if it fits.
#[verifier::external_body]
fn i256_from_str_radix(text: &str, radix: u32) -> (r: Option<I256>)
    requires
        radix == 10,
    ensures
        i256_parts(r) == fitting(integer_text(text@, true), IntKind::I256),
{
    i256::from_str_radix(text, radix).ok().map(|v| {
        let (hi, lo) = v.into_words();
        I256 { hi, lo: lo as u128 }
    })
}

/// `u256::from_str_radix` in base ten: the integer that the text denotes, if it fits.
#[verifier::external_body]
fn u256_from_str_radix(text: &str, radix: u32) -> (r: Option<U256>)
    requires
        radix == 10,
    ensures
        u256_parts(r) == fitting(integer_text(text@, false), IntKind::U256),
{
    u256::from_str_radix(text, radix).ok().map(|v| {
        let (hi, lo) = v.into_words();
        U256 { hi, lo }
    })
}

/// `BigDecimal::to_i8`: the integer, if it fits.
#[verifier::external_body]
pub(crate) fn to_i8(d: &Decimal) -> (r: Option<i8>)
    requires
        d.wf(),
        d.is_moderate(),
        d@.is_integer(),
    ensures
        r == (if i8::MIN <= d@.whole() <= i8::MAX {
            Some(d@.whole() as i8)
        } else {
            None
        }),
{
    BigDecimal::new(BigInt::from_str(&d.unscaled).unwrap(), d.scale).to_i8()
}

/// `BigDecimal::to_u8`: the integer, if it fits.
#[verifier::external_body]
pub(crate) fn to_u8(d: &Decimal) -> (r: Option<u8>)
    requires
        d.wf(),
        d.is_moderate(),
        d@.is_integer(),
    ensures
        r == (if u8::MIN <= d@.whole() <= u8::MAX {
            Some(d@.whole() as u8)
        } else {
            None
        }),
{
    BigDecimal::new(BigInt::from_str(&d.unscaled).unwrap(), d.scale).to_u8()
}

/// `BigDecimal::to_i16`: the integer, if it fits.
#[verifier::external_body]
pub(crate) fn to_i16(d: &Decimal) -> (r: Option<i16>)
    requires
        d.wf(),
        d.is_moderate(),
        d@.is_integer(),
    ensures
        r == (if i16::MIN <= d@.whole() <= i16::MAX {
            Some(d@.whole() as i16)
        } else {
            None
        }),
{
    BigDecimal::new(BigInt::from_str(&d.unscaled).unwrap(), d.scale).to_i16()
}

/// `BigDecimal::to_u16`: the integer, if it fits.
#[verifier::external_body]
pub(crate) fn to_u16(d: &Decimal) -> (r: Option<u16>)
    requires
        d.wf(),
        d.is_moderate(),
        d@.is_integer(),
    ensures
        r == (if u16::MIN <= d@.whole() <= u16::MAX {
            Some(d@.whole() as u16)
        } else {
            None
        }),
{
    BigDecimal::new(BigInt::from_str(&d.unscaled).unwrap(), d.scale).to_u16()
}

/// `BigDecimal::to_i32`: the integer, if it fits.
#[verifier::external_body]
pub(crate) fn to_i32(d: &Decimal) -> (r: Option<i32>)
    requires
        d.wf(),
        d.is_moderate(),
        d@.is_integer(),
    ensures
        r == (if i32::MIN <= d@.whole() <= i32::MAX {
            Some(d@.whole() as i32)
        } else {
            None
        }),
{
    BigDecimal::new(BigInt::from_str(&d.unscaled).unwrap(), d.scale).to_i32()
}

/// `BigDecimal::to_u32`: the integer, if it fits.
#[verifier::external_body]
pub(crate) fn to_u32(d: &Decimal) -> (r: Option<u32>)
    requires
        d.wf(),
        d.is_moderate(),
        d@.is_integer(),
    ensures
        r == (if u32::MIN <= d@.whole() <= u32::MAX {
            Some(d@.whole() as u32)
        } else {
            None
        }),
{
    BigDecimal::new(BigInt::from_str(&d.unscaled).unwrap(), d.scale).to_u32()
}

/// `BigDecimal::to_i64`: the integer, if it fits.
#[verifier::external_body]
pub(crate) fn to_i64(d: &Decimal) -> (r: Option<i64>)
    requires
        d.wf(),
        d.is_moderate(),
        d@.is_integer(),
    ensures
        r == (if i64::MIN <= d@.whole() <= i64::MAX {
            Some(d@.whole() as i64)
        } else {
            None
        }),
{
    BigDecimal::new(BigInt::from_str(&d.unscaled).unwrap(), d.scale).to_i64()
}

/// `BigDecimal::to_u64`: the integer, if it fits.
#[verifier::external_body]
pub(crate) fn to_u64(d: &Decimal) -> (r: Option<u64>)
    requires
        d.wf(),
        d.is_moderate(),
        d@.is_integer(),
    ensures
        r == (if u64::MIN <= d@.whole() <= u64::MAX {
            Some(d@.whole() as u64)
        } else {
            None
        }),
{
    BigDecimal::new(BigInt::from_str(&d.unscaled).unwrap(), d.scale).to_u64()
}

/// `BigDecimal::to_i128`: the integer, if it fits.
#[verifier::external_body]
pub(crate) fn to_i128(d: &Decimal) -> (r: Option<i128>)
    requires
        d.wf(),
        d.is_moderate(),
        d@.is_integer(),
    ensures
        r == (if i128::MIN <= d@.whole() <= i128::MAX {
            Some(d@.whole() as i128)
        } else {
            None
        }),
{
    BigDecimal::new(BigInt::from_str(&d.unscaled).unwrap(), d.scale).to_i128()
}

/// `BigDecimal::to_u128`: the integer, if it fits.
#[verifier::external_body]
pub(crate) fn to_u128(d: &Decimal) -> (r: Option<u128>)
    requires
        d.wf(),
        d.is_moderate(),
        d@.is_integer(),
    ensures
        r == (if u128::MIN <= d@.whole() <= u128::MAX {
            Some(d@.whole() as u128)
        } else {
            None
        }),
{
    BigDecimal::new(BigInt::from_str(&d.unscaled).unwrap(), d.scale).to_u128()
}

/// Digits denote a number below the power of ten of their count; without a leading zero, one that
/// is not below the power before.
pub proof fn lemma_text_value_bounds(text: Seq<char>)
    requires
        all_digits(text),
    ensures
        0 <= text_value(text) < pow10(text.len() as int),
        text.len() > 0 && text[0] != '0' ==> text_value(text) >= pow10(text.len() - 1),
    decreases text.len(),
{
    if text.len() == 0 {
        lemma_pow0(10);
    } else {
        let rest = text.drop_last();
        lemma_text_value_bounds(rest);
        lemma_pow_adds(10, rest.len(), 1);
        lemma_pow1(10);
        assert('0' <= text[text.len() - 1] <= '9');
        if rest.len() == 0 {
            lemma_pow0(10);
            assert(text_value(rest) == 0);
        } else {
            assert(rest[0] == text[0]);
            lemma_pow_adds(10, (rest.len() - 1) as nat, 1);
        }
    }
}

/// A zero appended multiplies by ten.
pub proof fn lemma_text_value_zeros(text: Seq<char>, n: int)
    requires
        n >= 0,
    ensures
        text_value(text + zeros(n)) == text_value(text) * pow10(n),
        all_digits(text) ==> all_digits(text + zeros(n)),
    decreases n,
{
    if n == 0 {
        lemma_pow0(10);
        assert(text + zeros(0) =~= text);
    } else {
        lemma_text_value_zeros(text, n - 1);
        assert((text + zeros(n)).drop_last() =~= text + zeros(n - 1));
        lemma_pow_adds(10, (n - 1) as nat, 1);
        lemma_pow1(10);
        let v = text_value(text);
        let p = pow10(n - 1);
        assert(10 * (v * p) == v * (p * 10)) by (nonlinear_arith);
    }
}

/// The sign and the size of the integer of a decimal.
proof fn lemma_unscaled(d: Decimal)
    requires
        d.wf(),
    ensures
        d@.unscaled == (if d.unscaled@[0] == '-' {
            -text_value(magnitude(d.unscaled@))
        } else {
            text_value(magnitude(d.unscaled@))
        }),
        integer_text(d.unscaled@, true) is Some,
        d@.unscaled == 0 <==> magnitude(d.unscaled@)[0] == '0',
        -pow10(magnitude(d.unscaled@).len() as int) < d@.unscaled < pow10(
            magnitude(d.unscaled@).len() as int,
        ),
        d.unscaled@[0] == '-' <==> d@.unscaled < 0,
{
    let m = magnitude(d.unscaled@);
    lemma_text_value_bounds(m);
    assert('0' <= m[0] <= '9');
    if m[0] == '0' {
        assert(m == d.unscaled@);
        assert(m.drop_last().len() == 0);
        assert(text_value(m.drop_last()) == 0);
    } else {
        lemma_pow_positive(10, (m.len() - 1) as nat);
    }
}

/// A nonzero number with digits behind the decimal point only is not an integer.
proof fn lemma_fraction(d: Decimal)
    requires
        d.wf(),
        d@.unscaled != 0,
        d.scale > magnitude(d.unscaled@).len(),
    ensures
        !d@.is_integer(),
{
    let n = magnitude(d.unscaled@).len();
    let u = d@.unscaled;
    let p = pow10(d.scale as int);
    lemma_unscaled(d);
    lemma_pow_strictly_increases(10, n, d.scale as nat);
    if u > 0 {
        lemma_small_mod(u as nat, p as nat);
    } else {
        lemma_small_mod((u + p) as nat, p as nat);
        lemma_mod_add_multiples_vanish(u, p);
    }
}

/// A nonzero number with too many trailing zeros fits no integer type.
proof fn lemma_too_large(d: Decimal, kind: IntKind)
    requires
        d.wf(),
        d@.unscaled != 0,
        d.scale < -MAX_TRAILING_ZEROS,
    ensures
        !fits(kind, d@.whole()),
{
    let n = -d.scale;
    let u = d@.unscaled;
    let p = pow10(n);
    lemma_pow78();
    lemma_pow_increases(10, 78, n as nat);
    if u > 0 {
        assert(u * p >= p) by (nonlinear_arith)
            requires
                u >= 1,
                p > 0,
        ;
    } else {
        assert(u * p <= -p) by (nonlinear_arith)
            requires
                u <= -1,
                p > 0,
        ;
    }
}

/// An integer in decimal notation is a number as it is commonly written.
pub proof fn lemma_plain_number(text: Seq<char>)
    requires
        is_plain_integer(text),
    ensures
        is_number(text, text.len() as int, text.len() as int),
        number_parts(text, text.len() as int, text.len() as int) == (
            integer_text(text, true)->0,
            0int,
        ),
{
    assert(text.take(text.len() as int) =~= text);
    assert(text + Seq::<char>::empty() =~= text);
}

/// Digits hold no underscore.
proof fn lemma_no_underscores(text: Seq<char>)
    requires
        all_digits(text),
    ensures
        without_underscores(text) == text,
    decreases text.len(),
{
    if text.len() > 0 {
        let rest = text.drop_last();
        assert(all_digits(rest)) by {
            assert forall|i: int| 0 <= i < rest.len() implies '0' <= #[trigger] rest[i] <= '9' by {
                assert(rest[i] == text[i]);
            }
        }
        lemma_no_underscores(rest);
        assert('0' <= text[text.len() - 1] <= '9');
        assert(rest.push(text.last()) =~= text);
    }
}

/// Every other character stays where underscores are left out.
proof fn lemma_other_characters(text: Seq<char>, i: int)
    requires
        0 <= i < text.len(),
        text[i] != '_',
    ensures
        without_underscores(text).contains(text[i]),
    decreases text.len(),
{
    let rest = text.drop_last();
    let kept = without_underscores(text);
    if i == text.len() - 1 {
        assert(kept[kept.len() - 1] == text[i]);
    } else {
        lemma_other_characters(rest, i);
        let j = choose|j: int|
            0 <= j < without_underscores(rest).len() && without_underscores(rest)[j] == rest[i];
        assert(kept[j] == text[i]);
    }
}

/// An integer in decimal notation is one without underscores.
proof fn lemma_spaced_integer(text: Seq<char>)
    requires
        integer_text(text, true) is Some,
    ensures
        spaced_integer(text) == integer_text(text, true),
{
    let body = if text[0] == '-' || text[0] == '+' {
        text.skip(1)
    } else {
        text
    };
    lemma_no_underscores(body);
    assert('0' <= body[0] <= '9');
}

/// Where a character of another kind is in place of a digit, there is no integer.
proof fn lemma_no_integer(text: Seq<char>, i: int)
    requires
        0 <= i < text.len(),
        !is_number_char(text[i]),
    ensures
        spaced_integer(text) is None,
        integer_text(text, true) is None,
{
    let signed = text[0] == '-' || text[0] == '+';
    let body = if signed {
        text.skip(1)
    } else {
        text
    };
    let j = if signed {
        i - 1
    } else {
        i
    };
    assert(body[j] == text[i]);
    lemma_other_characters(body, j);
    let digits = without_underscores(body);
    let n = choose|n: int| 0 <= n < digits.len() && digits[n] == body[j];
    assert(!('0' <= digits[n] <= '9'));
}

/// A position that no character before it satisfies, and that it satisfies itself unless it is the
/// length, is the first one.
proof fn lemma_position(text: Seq<char>, p: spec_fn(char) -> bool, i: int)
    requires
        0 <= i <= text.len(),
        forall|j: int| 0 <= j < i ==> !p(#[trigger] text[j]),
        i < text.len() ==> p(text[i]),
    ensures
        position(text, p) == i,
{
    if i < text.len() {
        assert(crate::ty::is_first(text, p, i));
        crate::ty::lemma_first_index(text, p, i);
    } else {
        assert forall|k: int| !crate::ty::is_first(text, p, k) by {}
    }
}

/// The first position is a position or the length.
proof fn lemma_position_bounds(text: Seq<char>, p: spec_fn(char) -> bool)
    ensures
        0 <= position(text, p) <= text.len(),
        position(text, p) < text.len() ==> p(text[position(text, p)]),
{
    if crate::ty::first_index(text, p) is Some {
        assert(crate::ty::is_first(text, p, position(text, p)));
    }
}

/// A number as it is commonly written denotes the number that its digits, its decimal point and its
/// exponent give.
pub proof fn lemma_number(text: Seq<char>, p: int, k: int)
    requires
        is_number(text, p, k),
    ensures
        decimal_literal(text) == Some(number_parts(text, p, k)),
{
    let lead = text.take(p);
    let fraction = if p < k {
        text.subrange(p + 1, k)
    } else {
        Seq::empty()
    };
    let mark = |c: char| c == 'e' || c == 'E';
    let point = |c: char| c == '.';
    let sign: int = if lead[0] == '-' || lead[0] == '+' {
        1
    } else {
        0
    };
    assert(all_digits(lead.skip(sign))) by {
        assert(sign == 0 ==> lead.skip(sign) =~= lead);
    }
    assert forall|j: int| 0 <= j < k implies !mark(#[trigger] text[j]) && (j == p || !point(
        text[j],
    )) by {
        if j < p {
            assert(text[j] == lead[j]);
            if j >= sign {
                assert(lead[j] == lead.skip(sign)[j - sign]);
            }
        } else if j > p {
            assert(text[j] == fraction[j - p - 1]);
        }
    }
    lemma_position(text, mark, k);
    let base = text.take(k);
    lemma_position(base, point, p);
    assert(base.take(p) =~= lead);
    assert(behind(base, p) =~= fraction);
    let digits = lead + fraction;
    assert(digits.skip(sign) =~= lead.skip(sign) + fraction);
    assert(all_digits(digits.skip(sign))) by {
        assert forall|i: int| 0 <= i < digits.skip(sign).len() implies '0' <= #[trigger] digits.skip(
            sign,
        )[i] <= '9' by {
            if i < lead.len() - sign {
                assert(digits.skip(sign)[i] == lead.skip(sign)[i]);
            } else {
                assert(digits.skip(sign)[i] == fraction[i - (lead.len() - sign)]);
            }
        }
    }
    assert(digits[0] == lead[0]);
    assert(sign == 0 ==> digits.skip(sign) =~= digits);
    assert(integer_text(digits, true) is Some);
    lemma_spaced_integer(digits);
    lemma_no_underscores(fraction);
}

/// An empty text, or one with a character that occurs in no number, denotes none.
pub proof fn lemma_not_a_number(text: Seq<char>)
    requires
        is_not_a_number(text),
    ensures
        decimal_literal(text) is None,
{
    let mark = |c: char| c == 'e' || c == 'E';
    let point = |c: char| c == '.';
    let k = position(text, mark);
    lemma_position_bounds(text, mark);
    let base = text.take(k);
    let p = position(base, point);
    lemma_position_bounds(base, point);
    let digits = base.take(p) + behind(base, p);
    if text.len() > 0 {
        let i = choose|i: int| 0 <= i < text.len() && !is_number_char(#[trigger] text[i]);
        if i < k {
            assert(base[i] == text[i]);
            if i < p {
                assert(digits[i] == text[i]);
                lemma_no_integer(digits, i);
            } else {
                assert(i != p);
                assert(digits[i - 1] == text[i]);
                lemma_no_integer(digits, i - 1);
            }
        } else {
            assert(i != k);
            assert(behind(text, k)[i - k - 1] == text[i]);
            lemma_no_integer(behind(text, k), i - k - 1);
        }
    }
}

/// An integer in decimal notation denotes itself, except that only a signed integer has a sign.
proof fn lemma_plain_integer(d: Decimal)
    requires
        d.wf(),
        d.scale <= 0,
    ensures
        integer_text(plain_notation(d.unscaled@, d.scale as int), true) == Some(d@.whole()),
        integer_text(plain_notation(d.unscaled@, d.scale as int), false) == (if d@.unscaled < 0 {
            None
        } else {
            Some(d@.whole())
        }),
{
    let m = magnitude(d.unscaled@);
    let n = -d.scale;
    let text = plain_notation(d.unscaled@, d.scale as int);
    lemma_unscaled(d);
    lemma_text_value_zeros(m, n);
    assert('0' <= m[0] <= '9');
    if d.unscaled@[0] == '-' {
        assert(d.unscaled@.take(d.unscaled@.len() - m.len()) =~= seq!['-']);
        assert(text.skip(1) =~= m + zeros(n));
        assert(text[0] == '-');
        let v = text_value(m);
        let p = pow10(n);
        assert(-(v * p) == (-v) * p) by (nonlinear_arith);
        assert(!('0' <= text[0] <= '9'));
    } else {
        assert(text =~= m + zeros(n));
        assert(text[0] == m[0]);
    }
}

/// A negative number fits no unsigned type.
proof fn lemma_negative(d: Decimal)
    requires
        d.scale <= 0,
    ensures
        d@.unscaled < 0 ==> !fits(IntKind::U256, d@.whole()),
{
    let u = d@.unscaled;
    let p = pow10(-d.scale);
    lemma_pow_positive(10, (-d.scale) as nat);
    assert(u < 0 ==> u * p < 0) by (nonlinear_arith)
        requires
            p > 0,
    ;
}

/// A text with a decimal point denotes no integer.
proof fn lemma_point(d: Decimal, signed: bool)
    requires
        d.wf(),
        d.scale > 0,
    ensures
        integer_text(plain_notation(d.unscaled@, d.scale as int), signed) is None,
{
    let m = magnitude(d.unscaled@);
    let text = plain_notation(d.unscaled@, d.scale as int);
    let sign = d.unscaled@.take(d.unscaled@.len() - m.len());
    let k: int = if d.scale < m.len() {
        sign.len() + m.len() - d.scale
    } else {
        (sign.len() + 1) as int
    };
    assert(text[k] == '.');
    assert(k >= 1);
    assert(text.skip(1)[k - 1] == '.');
    assert(!('0' <= '.' <= '9'));
}

/// Ten to the power of seventy-eight does not fit in 256 bits.
proof fn lemma_pow78()
    ensures
        pow10(78) > int_max(IntKind::U256),
        pow10(78) > -int_min(IntKind::I256),
{
    reveal_with_fuel(pow, 14);
    assert(pow(10, 13) == 10_000_000_000_000);
    lemma_pow_adds(10, 13, 13);
    lemma_pow_adds(10, 26, 13);
    lemma_pow_adds(10, 39, 39);
    let p13 = pow(10, 13);
    let p39 = pow(10, 39);
    assert(p13 * p13 * p13 == 1000000000000000000000000000000000000000int) by (nonlinear_arith)
        requires
            p13 == 10_000_000_000_000,
    ;
    assert(p39 * p39 == 1000000000000000000000000000000000000000000000000000000000000000000000000000000int) by (nonlinear_arith)
        requires
            p39 == 1000000000000000000000000000000000000000int,
    ;
}

impl Decimal {
    /// The number of digits of the integer.
    fn digit_count(&self) -> (r: usize)
        requires
            self.wf(),
        ensures
            r == magnitude(self.unscaled@).len(),
    {
        let n: usize = self.unscaled.as_str().unicode_len();
        if self.unscaled.as_str().get_char(0) == '-' {
            n - 1
        } else {
            n
        }
    }

    fn is_zero(&self) -> (r: bool)
        requires
            self.wf(),
        ensures
            r == (self@.unscaled == 0),
    {
        proof {
            lemma_unscaled(*self);
            assert(magnitude(self.unscaled@)[0] == '0' ==> self.unscaled@[0] == '0');
        }
        self.unscaled.as_str().get_char(0) == '0'
    }

    /// Whether there is no fractional part.
    pub fn is_integer(&self) -> (r: bool)
        requires
            self.wf(),
        ensures
            r == self@.is_integer(),
    {
        if (self.scale as i128) <= (self.digit_count() as i128) {
            big_is_integer(self)
        } else if self.is_zero() {
            proof {
                lemma_pow_positive(10, self.scale as nat);
                lemma_small_mod(0, pow10(self.scale as int) as nat);
            }
            true
        } else {
            proof {
                lemma_fraction(*self);
            }
            false
        }
    }

    /// Whether the number is zero or its exponent is moderate. An integer that is not moderate
    /// fits no integer type.
    pub(crate) fn moderate(&self) -> (r: bool)
        requires
            self.wf(),
        ensures
            r == self.is_moderate(),
            !r && self@.is_integer() ==> forall|kind: IntKind| !#[trigger] fits(kind, self@.whole()),
    {
        if self.is_zero() {
            return true;
        }
        let r = self.scale >= -MAX_TRAILING_ZEROS && (self.scale as i128) <= (self.digit_count() as i128);
        proof {
            if !r && self@.is_integer() {
                if self.scale > 0 {
                    lemma_fraction(*self);
                }
                assert forall|kind: IntKind| !#[trigger] fits(kind, self@.whole()) by {
                    lemma_too_large(*self, kind);
                }
            }
        }
        r
    }

    /// The value in a signed 256-bit integer.
    pub fn to_i256(&self) -> (r: Option<I256>)
        requires
            self.wf(),
        ensures
            i256_parts(r) == self@.to_kind(IntKind::I256),
    {
        if self.scale >= -MAX_TRAILING_ZEROS && (self.scale as i128) <= (self.digit_count() as i128) {
            let text = to_plain_string(self);
            proof {
                if self.scale <= 0 {
                    lemma_plain_integer(*self);
                } else {
                    lemma_point(*self, true);
                }
            }
            i256_from_str_radix(text.as_str(), 10)
        } else if self.is_zero() && self.scale < 0 {
            Some(I256 { hi: 0, lo: 0 })
        } else {
            proof {
                if self.scale < 0 {
                    lemma_too_large(*self, IntKind::I256);
                }
            }
            None
        }
    }

    /// The value in an unsigned 256-bit integer.
    pub fn to_u256(&self) -> (r: Option<U256>)
        requires
            self.wf(),
        ensures
            u256_parts(r) == self@.to_kind(IntKind::U256),
    {
        if self.scale >= -MAX_TRAILING_ZEROS && (self.scale as i128) <= (self.digit_count() as i128) {
            let text = to_plain_string(self);
            proof {
                if self.scale <= 0 {
                    lemma_plain_integer(*self);
                    lemma_negative(*self);
                } else {
                    lemma_point(*self, false);
                }
            }
            u256_from_str_radix(text.as_str(), 10)
        } else if self.is_zero() && self.scale < 0 {
            Some(U256 { hi: 0, lo: 0 })
        } else {
            proof {
                if self.scale < 0 {
                    lemma_too_large(*self, IntKind::U256);
                }
            }
            None
        }
    }
}

} // verus!
