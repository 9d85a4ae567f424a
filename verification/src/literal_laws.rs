//! What literals of each kind denote.
use vstd::arithmetic::div_mod::*;
use vstd::arithmetic::power::*;
use vstd::prelude::*;

use crate::ast::SqlLiteral;
use crate::decimal::DecimalView;
use crate::errors::{ErrorView, LiteralErrorView};
use crate::ty::{IntKind, MemberView, TypeView};
use crate::value::ValueView;

verus! {

/// At the type of strings, every text denotes itself.
pub proof fn law_string(text: Seq<char>)
    ensures
        crate::literal::literal_value(text, TypeView::String) == Ok::<ValueView, LiteralErrorView>(
            ValueView::String(text),
        ),
{
}

/// The number of values of an integer type that are not negative.
pub open spec fn range_size(kind: IntKind) -> int {
    crate::decimal::int_max(kind) + 1
}

/// The ranges of the integer types: eight bits to begin with, each wider one twice as wide, and the
/// signed one of a width half below zero.
pub proof fn law_integer_ranges(kind: IntKind, v: int)
    ensures
        crate::decimal::fits(kind, v) <==> crate::decimal::int_min(kind) <= v
            <= crate::decimal::int_max(kind),
        crate::decimal::int_max(IntKind::U8) == 255,
        ({
            &&& range_size(IntKind::U16) == range_size(IntKind::U8) * range_size(IntKind::U8)
            &&& range_size(IntKind::U32) == range_size(IntKind::U16) * range_size(IntKind::U16)
            &&& range_size(IntKind::U64) == range_size(IntKind::U32) * range_size(IntKind::U32)
            &&& range_size(IntKind::U128) == range_size(IntKind::U64) * range_size(IntKind::U64)
            &&& range_size(IntKind::U256) == range_size(IntKind::U128) * range_size(IntKind::U128)
            &&& range_size(IntKind::U8) == 2 * range_size(IntKind::I8)
            &&& range_size(IntKind::U16) == 2 * range_size(IntKind::I16)
            &&& range_size(IntKind::U32) == 2 * range_size(IntKind::I32)
            &&& range_size(IntKind::U64) == 2 * range_size(IntKind::I64)
            &&& range_size(IntKind::U128) == 2 * range_size(IntKind::I128)
            &&& range_size(IntKind::U256) == 2 * range_size(IntKind::I256)
        }),
        crate::decimal::int_min(kind) == match kind {
            IntKind::I8 | IntKind::I16 | IntKind::I32 | IntKind::I64 | IntKind::I128
            | IntKind::I256 => -crate::decimal::int_max(kind) - 1,
            _ => 0,
        },
{
    assert(0x100int * 0x100 == 0x1_0000) by (nonlinear_arith);
    assert(0x1_0000int * 0x1_0000 == 0x1_0000_0000) by (nonlinear_arith);
    assert(0x1_0000_0000int * 0x1_0000_0000 == 0x1_0000_0000_0000_0000) by (nonlinear_arith);
    assert(0x1_0000_0000_0000_0000int * 0x1_0000_0000_0000_0000
        == 0x1_0000_0000_0000_0000_0000_0000_0000_0000int) by (nonlinear_arith);
    assert(0x1_0000_0000_0000_0000_0000_0000_0000_0000int
        * 0x1_0000_0000_0000_0000_0000_0000_0000_0000int
        == 0x1_0000_0000_0000_0000_0000_0000_0000_0000_0000_0000_0000_0000_0000_0000_0000_0000int)
        by (nonlinear_arith);
}

/// An integer in decimal notation denotes its value, where that is in range.
proof fn lemma_integer(text: Seq<char>, kind: IntKind)
    requires
        crate::decimal::integer_text(text, true) is Some,
    ensures
        crate::literal::literal_value(text, TypeView::Int(kind)) == {
            let n = crate::decimal::integer_text(text, true)->0;
            if crate::decimal::fits(kind, n) {
                Ok::<ValueView, LiteralErrorView>(ValueView::Int(kind, n))
            } else {
                Err(LiteralErrorView::OutOfBounds(text, TypeView::Int(kind)))
            }
        },
{
    let len = text.len() as int;
    assert(text.take(len) =~= text);
    assert(text + Seq::<char>::empty() =~= text);
    assert(crate::decimal::is_number(text, len, len));
    crate::decimal::lemma_number(text, len, len);
    lemma_pow0(10);
    let n = crate::decimal::integer_text(text, true)->0;
    assert(n * 1 == n);
}

/// Digits are an integer without a sign, and not negative.
proof fn lemma_digits(text: Seq<char>)
    requires
        text.len() > 0,
        forall|i: int| 0 <= i < text.len() ==> '0' <= #[trigger] text[i] <= '9',
    ensures
        crate::decimal::integer_text(text, true) == Some(crate::decimal::text_value(text)),
        crate::decimal::text_value(text) >= 0,
{
    assert('0' <= text[0] <= '9');
    crate::decimal::lemma_text_value_bounds(text);
}

/// A digit denotes its value at every integer type.
pub proof fn law_digit(c: char, kind: IntKind)
    requires
        '0' <= c <= '9',
    ensures
        crate::literal::literal_value(seq![c], TypeView::Int(kind)) == Ok::<
            ValueView,
            LiteralErrorView,
        >(ValueView::Int(kind, c as int - '0' as int)),
{
    lemma_digits(seq![c]);
    assert(seq![c].drop_last() =~= Seq::<char>::empty());
    reveal_with_fuel(crate::decimal::text_value, 2);
    lemma_integer(seq![c], kind);
}

/// A digit more makes ten times the integer and the digit. It is refused exactly if that is out of
/// range; what is out of range already stays so.
pub proof fn law_another_digit(text: Seq<char>, c: char, kind: IntKind)
    requires
        text.len() > 0,
        forall|i: int| 0 <= i < text.len() ==> '0' <= #[trigger] text[i] <= '9',
        '0' <= c <= '9',
    ensures
        match crate::literal::literal_value(text, TypeView::Int(kind)) {
            Ok(v) => {
                &&& v matches ValueView::Int(k, n)
                &&& k == kind
                &&& crate::literal::literal_value(text.push(c), TypeView::Int(kind)) == {
                    let m = 10 * n + (c as int - '0' as int);
                    if m <= crate::decimal::int_max(kind) {
                        Ok::<ValueView, LiteralErrorView>(ValueView::Int(kind, m))
                    } else {
                        Err(LiteralErrorView::OutOfBounds(text.push(c), TypeView::Int(kind)))
                    }
                }
            },
            Err(e) => {
                &&& e == LiteralErrorView::OutOfBounds(text, TypeView::Int(kind))
                &&& crate::literal::literal_value(text.push(c), TypeView::Int(kind)) == Err::<
                    ValueView,
                    LiteralErrorView,
                >(LiteralErrorView::OutOfBounds(text.push(c), TypeView::Int(kind)))
            },
        },
{
    let more = text.push(c);
    assert forall|i: int| 0 <= i < more.len() implies '0' <= #[trigger] more[i] <= '9' by {
        if i < text.len() {
            assert(more[i] == text[i]);
        }
    }
    lemma_digits(text);
    lemma_digits(more);
    lemma_integer(text, kind);
    lemma_integer(more, kind);
    assert(more.drop_last() =~= text);
}

/// A sign in front of digits: `-` negates the integer, `+` changes nothing. It is refused exactly if
/// it is out of range.
pub proof fn law_sign(text: Seq<char>, k1: IntKind, k2: IntKind, n: int)
    requires
        text.len() > 0,
        forall|i: int| 0 <= i < text.len() ==> '0' <= #[trigger] text[i] <= '9',
        crate::literal::literal_value(text, TypeView::Int(k1)) == Ok::<ValueView, LiteralErrorView>(
            ValueView::Int(k1, n),
        ),
    ensures
        crate::literal::literal_value(seq!['-'] + text, TypeView::Int(k2)) == if crate::decimal::int_min(
            k2,
        ) <= -n {
            Ok::<ValueView, LiteralErrorView>(ValueView::Int(k2, -n))
        } else {
            Err(LiteralErrorView::OutOfBounds(seq!['-'] + text, TypeView::Int(k2)))
        },
        crate::literal::literal_value(seq!['+'] + text, TypeView::Int(k2)) == if n
            <= crate::decimal::int_max(k2) {
            Ok::<ValueView, LiteralErrorView>(ValueView::Int(k2, n))
        } else {
            Err(LiteralErrorView::OutOfBounds(seq!['+'] + text, TypeView::Int(k2)))
        },
{
    lemma_digits(text);
    lemma_integer(text, k1);
    assert((seq!['-'] + text).skip(1) =~= text);
    assert((seq!['+'] + text).skip(1) =~= text);
    lemma_integer(seq!['-'] + text, k2);
    lemma_integer(seq!['+'] + text, k2);
}

/// An exponent behind an integer multiplies by that power of ten; the result is refused exactly if
/// it is out of range.
pub proof fn law_exponent(
    text: Seq<char>,
    mark: char,
    exponent: Seq<char>,
    k1: IntKind,
    k2: IntKind,
    n: int,
    m: int,
)
    requires
        mark == 'e' || mark == 'E',
        text.len() > 0,
        forall|i: int| 0 <= i < text.len() ==> '0' <= #[trigger] text[i] <= '9',
        exponent.len() > 0,
        forall|i: int| 0 <= i < exponent.len() ==> '0' <= #[trigger] exponent[i] <= '9',
        crate::literal::literal_value(text, TypeView::Int(k1)) == Ok::<ValueView, LiteralErrorView>(
            ValueView::Int(k1, n),
        ),
        crate::literal::literal_value(exponent, TypeView::Int(IntKind::I64)) == Ok::<
            ValueView,
            LiteralErrorView,
        >(ValueView::Int(IntKind::I64, m)),
    ensures
        ({
            let whole = text + seq![mark] + exponent;
            crate::literal::literal_value(whole, TypeView::Int(k2)) == if n * pow(10, m as nat)
                <= crate::decimal::int_max(k2) {
                Ok::<ValueView, LiteralErrorView>(ValueView::Int(k2, n * pow(10, m as nat)))
            } else {
                Err(LiteralErrorView::OutOfBounds(whole, TypeView::Int(k2)))
            }
        }),
{
    let whole = text + seq![mark] + exponent;
    let k = text.len() as int;
    lemma_digits(text);
    lemma_digits(exponent);
    lemma_integer(text, k1);
    lemma_integer(exponent, IntKind::I64);
    assert(whole.take(k) =~= text);
    assert(whole.skip(k + 1) =~= exponent);
    assert(text + Seq::<char>::empty() =~= text);
    assert(whole[k] == mark);
    assert(crate::decimal::is_number(whole, k, k));
    crate::decimal::lemma_number(whole, k, k);
    lemma_pow_positive(10, m as nat);
    assert(n * pow(10, m as nat) >= 0) by (nonlinear_arith)
        requires
            n >= 0,
            pow(10, m as nat) > 0,
    ;
}

/// The value of a decimal without digits behind the point, at an integer type: itself, where that is
/// in range.
pub proof fn law_integral(n: int, text: Seq<char>, kind: IntKind)
    ensures
        crate::literal::int_value(Some((n, 0int)), text, kind) == if crate::decimal::int_min(kind)
            <= n <= crate::decimal::int_max(kind) {
            Ok::<ValueView, LiteralErrorView>(ValueView::Int(kind, n))
        } else {
            Err(LiteralErrorView::OutOfBounds(text, TypeView::Int(kind)))
        },
        crate::literal::int_value(None, text, kind) == Err::<ValueView, LiteralErrorView>(
            LiteralErrorView::NotAnInteger(text),
        ),
{
    lemma_pow0(10);
    assert(n * 1 == n);
}

/// A decimal is not an integer exactly if it is not the same number as one without digits behind the
/// point. It then has no value at any integer type.
pub proof fn law_fraction(d: DecimalView, text: Seq<char>, kind: IntKind)
    ensures
        crate::literal::int_value(Some((d.unscaled, d.scale)), text, kind) == Err::<
            ValueView,
            LiteralErrorView,
        >(LiteralErrorView::NotAnInteger(text)) <==> !exists|n: int| #[trigger]
            crate::laws::same_number(d, DecimalView { unscaled: n, scale: 0 }),
        d.is_integer() <==> exists|n: int| #[trigger]
            crate::laws::same_number(d, DecimalView { unscaled: n, scale: 0 }),
        d.is_integer() ==> crate::laws::same_number(
            d,
            DecimalView { unscaled: d.whole(), scale: 0 },
        ),
{
    let p = crate::decimal::pow10(d.scale);
    if d.scale <= 0 {
        let whole = DecimalView { unscaled: d.whole(), scale: 0 };
        assert(crate::laws::same_number(d, whole));
    } else {
        lemma_pow_positive(10, d.scale as nat);
        if d.is_integer() {
            lemma_whole(d.unscaled, p);
            assert(crate::laws::same_number(d, DecimalView { unscaled: d.whole(), scale: 0 }));
        }
        if exists|n: int| #[trigger]
            crate::laws::same_number(d, DecimalView { unscaled: n, scale: 0 }) {
            let n = choose|n: int| #[trigger]
                crate::laws::same_number(d, DecimalView { unscaled: n, scale: 0 });
            lemma_mod_multiples_basic(n, p);
        }
    }
}

/// Rounding toward zero keeps a multiple.
proof fn lemma_whole(u: int, p: int)
    requires
        p > 0,
        u % p == 0,
    ensures
        u == crate::decimal::truncating_div(u, p) * p,
{
    lemma_fundamental_div_mod(u, p);
    let q = u / p;
    assert(u == q * p) by (nonlinear_arith)
        requires
            u == p * q,
    ;
    if u < 0 {
        assert(-u == (-q) * p) by (nonlinear_arith)
            requires
                u == q * p,
        ;
        lemma_fundamental_div_mod_converse(-u, p, -q, 0);
        assert(u == -(-q) * p);
    }
}

/// In the 256-bit types, an integer that is written with digits behind the point is out of bounds.
pub proof fn law_wide_point(d: DecimalView, text: Seq<char>, kind: IntKind)
    requires
        kind == IntKind::I256 || kind == IntKind::U256,
        d.scale > 0,
        exists|n: int| #[trigger]
            crate::laws::same_number(d, DecimalView { unscaled: n, scale: 0 }),
    ensures
        crate::literal::int_value(Some((d.unscaled, d.scale)), text, kind) == Err::<
            ValueView,
            LiteralErrorView,
        >(LiteralErrorView::OutOfBounds(text, TypeView::Int(kind))),
{
    law_fraction(d, text, kind);
}

/// Two decimals are the same number exactly if they agree once the decimal points are aligned.
pub proof fn law_same_decimal(a: DecimalView, b: DecimalView)
    ensures
        crate::laws::same_number(a, b) == crate::laws::same_number(b, a),
        a.scale <= b.scale ==> (crate::laws::same_number(a, b) <==> b.unscaled == a.unscaled * pow(
            10,
            (b.scale - a.scale) as nat,
        )),
{
    if a.scale == b.scale {
        lemma_pow0(10);
    }
}

/// The value of a literal at an integer type is that of the decimal that it denotes.
pub proof fn law_number_literal(text: Seq<char>, kind: IntKind)
    ensures
        crate::literal::literal_value(text, TypeView::Int(kind)) == crate::literal::int_value(
            crate::decimal::decimal_literal(text),
            text,
            kind,
        ),
{
}

/// At a float type, a literal denotes the decimal that it is written as, the same one at both types.
/// Where it denotes an integer at an integer type, that decimal is the same number. What is no
/// decimal is not valid.
pub proof fn law_float(text: Seq<char>, kind: IntKind)
    ensures
        match crate::decimal::decimal_literal(text) {
            Some((unscaled, scale)) => {
                let d = DecimalView { unscaled, scale };
                &&& crate::literal::literal_value(text, TypeView::F32) == Ok::<
                    ValueView,
                    LiteralErrorView,
                >(ValueView::F32(d))
                &&& crate::literal::literal_value(text, TypeView::F64) == Ok::<
                    ValueView,
                    LiteralErrorView,
                >(ValueView::F64(d))
                &&& crate::literal::literal_value(text, TypeView::Int(kind)) matches Ok(v) ==> {
                    &&& v matches ValueView::Int(_, n)
                    &&& crate::laws::same_number(d, DecimalView { unscaled: n, scale: 0 })
                }
            },
            None => {
                &&& crate::literal::literal_value(text, TypeView::F32) == Err::<
                    ValueView,
                    LiteralErrorView,
                >(LiteralErrorView::NotValid(text, TypeView::F32))
                &&& crate::literal::literal_value(text, TypeView::F64) == Err::<
                    ValueView,
                    LiteralErrorView,
                >(LiteralErrorView::NotValid(text, TypeView::F64))
            },
        },
{
    if crate::decimal::decimal_literal(text) is Some {
        let (unscaled, scale) = crate::decimal::decimal_literal(text)->0;
        law_fraction(DecimalView { unscaled, scale }, text, kind);
    }
}

/// Digits behind digits.
proof fn lemma_text_value_concat(a: Seq<char>, b: Seq<char>)
    ensures
        crate::decimal::text_value(a + b) == crate::decimal::text_value(a) * pow(10, b.len())
            + crate::decimal::text_value(b),
    decreases b.len(),
{
    let v = crate::decimal::text_value(a);
    if b.len() == 0 {
        assert(a + b =~= a);
        lemma_pow0(10);
        assert(v * 1 == v);
    } else {
        let rest = b.drop_last();
        lemma_text_value_concat(a, rest);
        assert((a + b).drop_last() =~= a + rest);
        lemma_pow_adds(10, rest.len(), 1);
        lemma_pow1(10);
        let p = pow(10, rest.len());
        assert(10 * (v * p) == v * (p * 10)) by (nonlinear_arith);
    }
}

/// Digits denote a decimal without digits behind the point: the integer that they denote where they
/// are in range of an integer type.
pub proof fn law_float_digits(text: Seq<char>, kind: IntKind, n: int)
    requires
        text.len() > 0,
        forall|i: int| 0 <= i < text.len() ==> '0' <= #[trigger] text[i] <= '9',
        crate::literal::literal_value(text, TypeView::Int(kind)) == Ok::<ValueView, LiteralErrorView>(
            ValueView::Int(kind, n),
        ),
    ensures
        crate::literal::literal_value(text, TypeView::F64) == Ok::<ValueView, LiteralErrorView>(
            ValueView::F64(DecimalView { unscaled: n, scale: 0 }),
        ),
{
    let len = text.len() as int;
    lemma_digits(text);
    lemma_integer(text, kind);
    assert(text.take(len) =~= text);
    assert(text + Seq::<char>::empty() =~= text);
    assert(crate::decimal::is_number(text, len, len));
    crate::decimal::lemma_number(text, len, len);
}

/// A decimal point between digits: the digits on both sides make the integer, and those behind the
/// point are counted.
pub proof fn law_float_point(lead: Seq<char>, fraction: Seq<char>, n: int, m: int)
    requires
        lead.len() > 0,
        forall|i: int| 0 <= i < lead.len() ==> '0' <= #[trigger] lead[i] <= '9',
        0 < fraction.len() <= i64::MAX,
        forall|i: int| 0 <= i < fraction.len() ==> '0' <= #[trigger] fraction[i] <= '9',
        crate::literal::literal_value(lead, TypeView::F64) == Ok::<ValueView, LiteralErrorView>(
            ValueView::F64(DecimalView { unscaled: n, scale: 0 }),
        ),
        crate::literal::literal_value(fraction, TypeView::F64) == Ok::<ValueView, LiteralErrorView>(
            ValueView::F64(DecimalView { unscaled: m, scale: 0 }),
        ),
    ensures
        crate::literal::literal_value(lead + seq!['.'] + fraction, TypeView::F64) == Ok::<
            ValueView,
            LiteralErrorView,
        >(
            ValueView::F64(
                DecimalView {
                    unscaled: n * pow(10, fraction.len()) + m,
                    scale: fraction.len() as int,
                },
            ),
        ),
{
    assert(crate::decimal::text_value(lead) == n) by {
        lemma_decimal_digits(lead);
        lemma_float(lead, DecimalView { unscaled: n, scale: 0 });
    }
    assert(crate::decimal::text_value(fraction) == m) by {
        lemma_decimal_digits(fraction);
        lemma_float(fraction, DecimalView { unscaled: m, scale: 0 });
    }
    let whole = lead + seq!['.'] + fraction;
    let p = lead.len() as int;
    let k = whole.len() as int;
    assert(whole.take(p) =~= lead);
    assert(whole.subrange(p + 1, k) =~= fraction);
    assert(whole[p] == '.');
    lemma_digits(lead);
    let digits = lead + fraction;
    assert forall|i: int| 0 <= i < digits.len() implies '0' <= #[trigger] digits[i] <= '9' by {
        if i < p {
            assert(digits[i] == lead[i]);
        } else {
            assert(digits[i] == fraction[i - p]);
        }
    }
    lemma_digits(digits);
    assert(crate::decimal::is_number(whole, p, k));
    crate::decimal::lemma_number(whole, p, k);
    lemma_text_value_concat(lead, fraction);
    lemma_float(
        whole,
        DecimalView {
            unscaled: n * pow(10, fraction.len()) + m,
            scale: fraction.len() as int,
        },
    );
}

/// Digits denote the decimal with their value and without digits behind the point.
proof fn lemma_decimal_digits(text: Seq<char>)
    requires
        text.len() > 0,
        forall|i: int| 0 <= i < text.len() ==> '0' <= #[trigger] text[i] <= '9',
    ensures
        crate::decimal::decimal_literal(text) == Some((crate::decimal::text_value(text), 0int)),
{
    let len = text.len() as int;
    lemma_digits(text);
    assert(text.take(len) =~= text);
    assert(text + Seq::<char>::empty() =~= text);
    assert(crate::decimal::is_number(text, len, len));
    crate::decimal::lemma_number(text, len, len);
}

/// A decimal at the float types.
proof fn lemma_float(text: Seq<char>, d: DecimalView)
    ensures
        crate::literal::literal_value(text, TypeView::F64) == Ok::<ValueView, LiteralErrorView>(
            ValueView::F64(d),
        ) <==> crate::decimal::decimal_literal(text) == Some((d.unscaled, d.scale)),
{
}

/// An exponent behind a number without one moves the decimal point by as many digits: to the right,
/// or with the sign `-` to the left. The exponent is an integer literal of its own.
pub proof fn law_float_exponent(
    text: Seq<char>,
    p: int,
    mark: char,
    exponent: Seq<char>,
    d: DecimalView,
    m: int,
)
    requires
        mark == 'e' || mark == 'E',
        crate::decimal::is_number(text, p, text.len() as int),
        crate::decimal::integer_text(exponent, true) is Some,
        crate::literal::literal_value(text, TypeView::F64) == Ok::<ValueView, LiteralErrorView>(
            ValueView::F64(d),
        ),
        crate::literal::literal_value(exponent, TypeView::Int(IntKind::I64)) == Ok::<
            ValueView,
            LiteralErrorView,
        >(ValueView::Int(IntKind::I64, m)),
        i64::MIN <= d.scale - m <= i64::MAX,
    ensures
        crate::literal::literal_value(text + seq![mark] + exponent, TypeView::F64) == Ok::<
            ValueView,
            LiteralErrorView,
        >(ValueView::F64(DecimalView { unscaled: d.unscaled, scale: d.scale - m })),
{
    let k = text.len() as int;
    assert(crate::decimal::number_parts(text, p, k) == (d.unscaled, d.scale)) by {
        lemma_float(text, d);
        crate::decimal::lemma_number(text, p, k);
    }
    assert(crate::decimal::integer_text(exponent, true) == Some(m)) by {
        lemma_integer(exponent, IntKind::I64);
    }
    lemma_exponent(text, p, mark, exponent);
    lemma_float(
        text + seq![mark] + exponent,
        DecimalView { unscaled: d.unscaled, scale: d.scale - m },
    );
}

/// An exponent behind a number without one is taken from its scale.
proof fn lemma_exponent(text: Seq<char>, p: int, mark: char, exponent: Seq<char>)
    requires
        mark == 'e' || mark == 'E',
        crate::decimal::is_number(text, p, text.len() as int),
        crate::decimal::integer_text(exponent, true) is Some,
        i64::MIN <= crate::decimal::number_parts(text, p, text.len() as int).1
            - crate::decimal::integer_text(exponent, true)->0 <= i64::MAX,
    ensures
        crate::decimal::decimal_literal(text + seq![mark] + exponent) == Some(
            (
                crate::decimal::number_parts(text, p, text.len() as int).0,
                crate::decimal::number_parts(text, p, text.len() as int).1
                    - crate::decimal::integer_text(exponent, true)->0,
            ),
        ),
{
    let k = text.len() as int;
    let whole = text + seq![mark] + exponent;
    assert(whole.take(p) == text.take(p)) by {
        assert(whole.take(p) =~= text.take(p));
    }
    if p < k {
        assert(whole[p] == text[p]);
        assert(whole.subrange(p + 1, k) == text.subrange(p + 1, k)) by {
            assert(whole.subrange(p + 1, k) =~= text.subrange(p + 1, k));
        }
    }
    assert(whole[k] == mark);
    assert(whole.skip(k + 1) == exponent) by {
        assert(whole.skip(k + 1) =~= exponent);
    }
    assert(crate::decimal::is_number(whole, p, k));
    crate::decimal::lemma_number(whole, p, k);
}

/// A `-` in front of a number without a sign negates it.
pub proof fn law_float_sign(text: Seq<char>, p: int, k: int, d: DecimalView)
    requires
        crate::decimal::is_number(text, p, k),
        '0' <= text[0] <= '9',
        crate::literal::literal_value(text, TypeView::F64) == Ok::<ValueView, LiteralErrorView>(
            ValueView::F64(d),
        ),
    ensures
        crate::literal::literal_value(seq!['-'] + text, TypeView::F64) == Ok::<
            ValueView,
            LiteralErrorView,
        >(ValueView::F64(DecimalView { unscaled: -d.unscaled, scale: d.scale })),
{
    assert(crate::decimal::number_parts(text, p, k) == (d.unscaled, d.scale)) by {
        lemma_float(text, d);
        crate::decimal::lemma_number(text, p, k);
    }
    lemma_minus(text, p, k);
    crate::decimal::lemma_number(seq!['-'] + text, p + 1, k + 1);
    lemma_float(
        seq!['-'] + text,
        DecimalView { unscaled: -d.unscaled, scale: d.scale },
    );
}

/// Digits with a `-` in front of them.
proof fn lemma_minus_digits(digits: Seq<char>, minus: Seq<char>)
    requires
        digits.len() > 0,
        crate::decimal::all_digits(digits),
        minus == seq!['-'] + digits,
    ensures
        crate::decimal::integer_text(digits, true) is Some,
        crate::decimal::integer_text(minus, true) == Some(
            -crate::decimal::integer_text(digits, true)->0,
        ),
{
    assert('0' <= digits[0] <= '9');
    assert(minus.skip(1) =~= digits);
}

/// A number without a sign and with a `-` in front of it.
proof fn lemma_minus(text: Seq<char>, p: int, k: int)
    requires
        crate::decimal::is_number(text, p, k),
        '0' <= text[0] <= '9',
    ensures
        crate::decimal::is_number(seq!['-'] + text, p + 1, k + 1),
        crate::decimal::number_parts(seq!['-'] + text, p + 1, k + 1) == (
            -crate::decimal::number_parts(text, p, k).0,
            crate::decimal::number_parts(text, p, k).1,
        ),
{
    let minus = seq!['-'] + text;
    let lead = text.take(p);
    let behind = if p < k {
        text.subrange(p + 1, k)
    } else {
        Seq::empty()
    };
    assert(lead[0] == text[0]);
    assert(crate::decimal::all_digits(lead));
    assert(minus.take(p + 1) =~= seq!['-'] + lead);
    lemma_minus_digits(lead, minus.take(p + 1));
    let digits = lead + behind;
    assert(crate::decimal::all_digits(digits)) by {
        assert forall|i: int| 0 <= i < digits.len() implies '0' <= #[trigger] digits[i] <= '9' by {
            if i < p {
                assert(digits[i] == lead[i]);
            } else {
                assert(digits[i] == behind[i - p]);
            }
        }
    }
    assert(minus.take(p + 1) + behind =~= seq!['-'] + digits);
    lemma_minus_digits(digits, minus.take(p + 1) + behind);
    if p < k {
        assert(minus[p + 1] == text[p]);
        assert(minus.subrange(p + 2, k + 1) =~= behind);
    }
    if k < text.len() {
        assert(minus[k + 1] == text[k]);
        assert(minus.skip(k + 2) =~= text.skip(k + 1));
    }
}

/// The type of timestamps.
pub open spec fn timestamp_type() -> TypeView {
    TypeView::Product(
        seq![
            MemberView {
                name: Some("__timestamp_micros_since_unix_epoch__"@),
                ty: TypeView::Int(IntKind::I64),
            },
        ],
    )
}

/// The type of identities.
pub open spec fn identity_type() -> TypeView {
    TypeView::Product(
        seq![MemberView { name: Some("__identity__"@), ty: TypeView::Int(IntKind::U256) }],
    )
}

/// The type of connection ids.
pub open spec fn connection_id_type() -> TypeView {
    TypeView::Product(
        seq![MemberView { name: Some("__connection_id__"@), ty: TypeView::Int(IntKind::U128) }],
    )
}

/// A timestamp is the product of its microseconds since the Unix epoch.
pub proof fn law_timestamp(text: Seq<char>)
    ensures
        match crate::formats::rfc3339_micros(text) {
            Some(micros) => crate::literal::literal_value(text, timestamp_type()) == Ok::<
                ValueView,
                LiteralErrorView,
            >(ValueView::Product(seq![ValueView::Int(IntKind::I64, micros as int)])),
            None => crate::literal::literal_value(text, timestamp_type()) == Err::<
                ValueView,
                LiteralErrorView,
            >(
                LiteralErrorView::Timestamp(
                    "Invalid timestamp format. Expected RFC 3339 format (e.g. '2025-02-10 15:45:30')."@,
                ),
            ),
        },
{
}

/// Two hexadecimal digits, in either case, denote a byte, the high half first.
pub proof fn law_hex_pair(a: char, b: char, hi: int, lo: int)
    requires
        0 <= hi < 16,
        0 <= lo < 16,
        a == "0123456789abcdef"@[hi] || a == "0123456789ABCDEF"@[hi],
        b == "0123456789abcdef"@[lo] || b == "0123456789ABCDEF"@[lo],
    ensures
        crate::literal::literal_value(seq![a, b], TypeView::Array(Box::new(TypeView::Int(IntKind::U8))))
            == Ok::<ValueView, LiteralErrorView>(
            ValueView::Array(
                TypeView::Int(IntKind::U8),
                seq![ValueView::Int(IntKind::U8, 16 * hi + lo)],
            ),
        ),
{
    reveal_strlit("0123456789abcdef");
    reveal_strlit("0123456789ABCDEF");
    lemma_hex_digit(a, hi);
    lemma_hex_digit(b, lo);
    let text = seq![a, b];
    let bytes = crate::formats::hex_bytes(text)->0;
    assert(crate::formats::without_hex_prefix(text) == text);
    assert(bytes =~= seq![(16 * hi + lo) as u8]);
    assert(ValueView::bytes(bytes)->Array_1 =~= seq![ValueView::Int(IntKind::U8, 16 * hi + lo)]);
}

/// The value of a hexadecimal digit is its place among the digits.
proof fn lemma_hex_digit(c: char, v: int)
    requires
        0 <= v < 16,
        c == "0123456789abcdef"@[v] || c == "0123456789ABCDEF"@[v],
    ensures
        crate::formats::hex_digit(c) == Some(v),
        c != 'x' && c != '\'',
{
    reveal_strlit("0123456789abcdef");
    reveal_strlit("0123456789ABCDEF");
    assert(v == 0 || v == 1 || v == 2 || v == 3 || v == 4 || v == 5 || v == 6 || v == 7 || v == 8
        || v == 9 || v == 10 || v == 11 || v == 12 || v == 13 || v == 14 || v == 15);
}

/// Hexadecimal texts one behind the other denote their bytes one behind the other.
pub proof fn law_hex_concat(s: Seq<char>, t: Seq<char>, v: Seq<ValueView>, w: Seq<ValueView>)
    requires
        !(s.len() >= 2 && (s[0] == '0' && s[1] == 'x' || s[0] == 'X' && s[1] == '\'')),
        !(t.len() >= 2 && (t[0] == '0' && t[1] == 'x' || t[0] == 'X' && t[1] == '\'')),
        crate::literal::literal_value(s, TypeView::Array(Box::new(TypeView::Int(IntKind::U8))))
            == Ok::<ValueView, LiteralErrorView>(ValueView::Array(TypeView::Int(IntKind::U8), v)),
        crate::literal::literal_value(t, TypeView::Array(Box::new(TypeView::Int(IntKind::U8))))
            == Ok::<ValueView, LiteralErrorView>(ValueView::Array(TypeView::Int(IntKind::U8), w)),
    ensures
        2 * v.len() == s.len(),
        crate::literal::literal_value(s + t, TypeView::Array(Box::new(TypeView::Int(IntKind::U8))))
            == Ok::<ValueView, LiteralErrorView>(
            ValueView::Array(TypeView::Int(IntKind::U8), v + w),
        ),
{
    let x = crate::formats::hex_bytes(s)->0;
    let y = crate::formats::hex_bytes(t)->0;
    let all = s + t;
    assert(s.len() % 2 == 0 && t.len() % 2 == 0);
    if s.len() == 0 {
        assert(all =~= t);
    } else {
        assert(all[0] == s[0] && all[1] == s[1]);
    }
    assert(crate::formats::without_hex_prefix(all) == all);
    assert forall|i: int| 0 <= i < all.len() implies crate::formats::hex_digit(
        #[trigger] all[i],
    ) is Some by {
        if i < s.len() {
            assert(all[i] == s[i]);
        } else {
            assert(all[i] == t[i - s.len()]);
        }
    }
    let z = crate::formats::hex_bytes(all)->0;
    assert(z =~= x + y) by {
        assert forall|i: int| 0 <= i < z.len() implies z[i] == (x + y)[i] by {
            if i < x.len() {
                assert(all[2 * i] == s[2 * i] && all[2 * i + 1] == s[2 * i + 1]);
            } else {
                let j = i - x.len();
                assert(all[2 * i] == t[2 * j] && all[2 * i + 1] == t[2 * j + 1]);
            }
        }
    }
    assert(ValueView::bytes(z)->Array_1 =~= v + w);
}

/// A text with an odd number of digits, or with a character that is no hexadecimal digit, denotes no
/// bytes, no identity and no connection id.
pub proof fn law_hex_refused(text: Seq<char>)
    requires
        !(text.len() >= 2 && (text[0] == '0' && text[1] == 'x' || text[0] == 'X' && text[1] == '\'')),
        text.len() % 2 == 1 || exists|i: int|
            0 <= i < text.len() && !('0' <= #[trigger] text[i] <= '9' || 'a' <= text[i] <= 'f' || 'A'
                <= text[i] <= 'F'),
    ensures
        crate::literal::literal_value(text, TypeView::Array(Box::new(TypeView::Int(IntKind::U8))))
            == Err::<ValueView, LiteralErrorView>(LiteralErrorView::Hex),
        crate::literal::literal_value(text, identity_type()) == Err::<ValueView, LiteralErrorView>(
            LiteralErrorView::Identity,
        ),
        crate::literal::literal_value(text, connection_id_type()) == Err::<
            ValueView,
            LiteralErrorView,
        >(LiteralErrorView::ConnectionId),
{
    lemma_special_types();
    if text.len() % 2 != 1 {
        let i = choose|i: int|
            0 <= i < text.len() && !('0' <= #[trigger] text[i] <= '9' || 'a' <= text[i] <= 'f' || 'A'
                <= text[i] <= 'F');
        assert(crate::formats::hex_digit(text[i]) is None);
    }
}

/// The special types are different.
proof fn lemma_special_types()
    ensures
        timestamp_type() == TypeView::timestamp(),
        identity_type() == TypeView::identity(),
        connection_id_type() == TypeView::connection_id(),
        identity_type() != timestamp_type(),
        connection_id_type() != timestamp_type(),
        connection_id_type() != identity_type(),
{
    assert(identity_type()->Product_0[0].ty != timestamp_type()->Product_0[0].ty);
    assert(connection_id_type()->Product_0[0].ty != timestamp_type()->Product_0[0].ty);
    assert(connection_id_type()->Product_0[0].ty != identity_type()->Product_0[0].ty);
}

/// The number that the values of bytes denote, most significant first.
pub open spec fn bytes_number(bytes: Seq<ValueView>) -> int
    decreases bytes.len(),
{
    if bytes.len() == 0 {
        0
    } else {
        256 * bytes_number(bytes.drop_last()) + bytes.last()->Int_1
    }
}

/// Bytes denote the same number as their values.
proof fn lemma_bytes_number(bytes: Seq<u8>)
    ensures
        bytes_number(ValueView::bytes(bytes)->Array_1) == crate::formats::big_endian(bytes),
    decreases bytes.len(),
{
    let values = ValueView::bytes(bytes)->Array_1;
    if bytes.len() > 0 {
        lemma_bytes_number(bytes.drop_last());
        assert(values.drop_last() =~= ValueView::bytes(bytes.drop_last())->Array_1);
    }
}

/// An identity is the number that the bytes of its text denote, if there are 32; a connection id is
/// that of 16 bytes. Each is the product of that number alone.
pub proof fn law_hex_number(text: Seq<char>, bytes: Seq<ValueView>)
    requires
        crate::literal::literal_value(text, TypeView::Array(Box::new(TypeView::Int(IntKind::U8))))
            == Ok::<ValueView, LiteralErrorView>(
            ValueView::Array(TypeView::Int(IntKind::U8), bytes),
        ),
    ensures
        crate::literal::literal_value(text, identity_type()) == if bytes.len() == 32 {
            Ok::<ValueView, LiteralErrorView>(
                ValueView::Product(seq![ValueView::Int(IntKind::U256, bytes_number(bytes))]),
            )
        } else {
            Err(LiteralErrorView::Identity)
        },
        crate::literal::literal_value(text, connection_id_type()) == if bytes.len() == 16 {
            Ok::<ValueView, LiteralErrorView>(
                ValueView::Product(seq![ValueView::Int(IntKind::U128, bytes_number(bytes))]),
            )
        } else {
            Err(LiteralErrorView::ConnectionId)
        },
{
    lemma_special_types();
    lemma_bytes_number(crate::formats::hex_bytes(text)->0);
}

/// A simple enum: the name of a variant denotes the first variant of that name, by the low eight
/// bits of its position and without data; any other text is not valid.
pub proof fn law_enum(variants: Seq<MemberView>, text: Seq<char>, i: int)
    requires
        forall|j: int|
            0 <= j < variants.len() ==> (#[trigger] variants[j]).ty == TypeView::Product(
                Seq::empty(),
            ),
        0 <= i <= variants.len(),
        forall|j: int| 0 <= j < i ==> (#[trigger] variants[j]).name != Some(text),
        i < variants.len() ==> variants[i].name == Some(text),
    ensures
        crate::literal::literal_value(text, TypeView::Sum(variants)) == if i < variants.len() {
            Ok::<ValueView, LiteralErrorView>(
                ValueView::Sum((i % 256) as u8, Box::new(ValueView::Product(Seq::empty()))),
            )
        } else {
            Err(LiteralErrorView::NotValid(text, TypeView::Sum(variants)))
        },
{
    let named = |m: MemberView| m.name == Some(text);
    assert(TypeView::Sum(variants).is_simple_enum());
    if i < variants.len() {
        assert(crate::ty::is_first(variants, named, i));
        crate::ty::lemma_first_index(variants, named, i);
    } else {
        assert forall|k: int| !crate::ty::is_first(variants, named, k) by {}
    }
}

/// There is no literal of any other type.
pub proof fn law_no_literal(text: Seq<char>, ty: TypeView)
    requires
        match ty {
            TypeView::Bool | TypeView::Ref(_) => true,
            TypeView::Array(elem) => *elem != TypeView::Int(IntKind::U8),
            TypeView::Sum(variants) => exists|j: int|
                0 <= j < variants.len() && (#[trigger] variants[j]).ty != TypeView::Product(
                    Seq::empty(),
                ),
            TypeView::Product(_) => ty != timestamp_type() && ty != identity_type() && ty
                != connection_id_type(),
            _ => false,
        },
    ensures
        crate::literal::literal_value(text, ty) == Err::<ValueView, LiteralErrorView>(
            LiteralErrorView::NotSupported(ty),
        ),
{
    lemma_special_types();
    if ty is Sum {
        let j = choose|j: int|
            0 <= j < ty->Sum_0.len() && (#[trigger] ty->Sum_0[j]).ty != TypeView::Product(
                Seq::empty(),
            );
        assert(ty->Sum_0[j].ty != TypeView::unit());
    }
}

/// An array literal without elements denotes the array without elements, at the types that have
/// array literals; at any other type there is none.
pub proof fn law_array_start(arr: Seq<SqlLiteral>, elem: TypeView)
    ensures
        ({
            let of_literals = match elem {
                TypeView::Bool | TypeView::String | TypeView::F32 | TypeView::F64 => true,
                TypeView::Int(kind) => kind != IntKind::I64 && kind != IntKind::U64 && kind
                    != IntKind::I256 && kind != IntKind::U256,
                _ => false,
            };
            &&& of_literals ==> crate::literal::array_value(Seq::empty(), elem) == Ok::<
                ValueView,
                ErrorView,
            >(ValueView::Array(elem, Seq::empty()))
            &&& !of_literals ==> crate::literal::array_value(arr, elem) == Err::<
                ValueView,
                ErrorView,
            >(ErrorView::UnexpectedArrayType(elem))
        }),
{
    let rs = crate::literal::elem_values(Seq::empty(), elem);
    crate::literal::lemma_collected_ok(rs);
    assert(crate::literal::collected(rs)->Ok_0 =~= Seq::<ValueView>::empty());
}

/// An element more of an array literal: its value comes behind the others, unless an element before
/// it is refused. A boolean and a string stand for themselves, where the elements are such; a number
/// has the value that its text denotes on its own at the type of the elements. Anything else is
/// refused.
pub proof fn law_array_element(arr: Seq<SqlLiteral>, lit: SqlLiteral, elem: TypeView)
    ensures
        ({
            let before = crate::literal::array_value(arr, elem);
            let after = crate::literal::array_value(arr.push(lit), elem);
            &&& before matches Err(e) ==> after == Err::<ValueView, ErrorView>(e)
            &&& before matches Ok(v) ==> {
                &&& v matches ValueView::Array(of, values)
                &&& of == elem
                &&& lit matches SqlLiteral::Bool(b) ==> after == if elem == TypeView::Bool {
                    Ok::<ValueView, ErrorView>(
                        ValueView::Array(elem, values.push(ValueView::Bool(b))),
                    )
                } else if elem == TypeView::String {
                    Err(ErrorView::UnexpectedType(elem, TypeView::String))
                } else {
                    Err(ErrorView::UnexpectedType(elem, TypeView::Bool))
                }
                &&& lit matches SqlLiteral::Str(s) ==> after == if elem == TypeView::String {
                    Ok::<ValueView, ErrorView>(
                        ValueView::Array(elem, values.push(ValueView::String(s@))),
                    )
                } else if elem == TypeView::Bool {
                    Err(ErrorView::UnexpectedType(elem, TypeView::Bool))
                } else {
                    Err(ErrorView::UnexpectedType(elem, TypeView::String))
                }
                &&& lit is Num || lit is Hex ==> {
                    let text = if lit is Num {
                        lit->Num_0@
                    } else {
                        lit->Hex_0@
                    };
                    let alone = crate::literal::literal_value(text, elem);
                    &&& elem == TypeView::Bool || elem == TypeView::String ==> after == Err::<
                        ValueView,
                        ErrorView,
                    >(ErrorView::UnexpectedType(elem, elem))
                    &&& elem != TypeView::Bool && elem != TypeView::String ==> {
                        &&& alone matches Ok(v) ==> after == Ok::<ValueView, ErrorView>(
                            ValueView::Array(elem, values.push(v)),
                        )
                        &&& alone is Err ==> after == Err::<ValueView, ErrorView>(
                            ErrorView::InvalidLiteral(text, elem),
                        )
                    }
                }
                &&& lit is Arr ==> after == if elem == TypeView::Bool || elem == TypeView::String {
                    Err::<ValueView, ErrorView>(ErrorView::UnexpectedType(elem, elem))
                } else {
                    Err(ErrorView::UnexpectedArrayType(elem))
                }
            }
        }),
{
    let rs = crate::literal::elem_values(arr, elem);
    let r = crate::literal::elem_value(lit, elem);
    assert(crate::literal::elem_values(arr.push(lit), elem) =~= rs.push(r));
    crate::typing_laws::lemma_collected_push(rs, r);
}

} // verus!
