//! Human-readable numbers: counts with Persian thousands separators, and byte
//! sizes with a Persian unit.

use crate::text::{push_char, push_chars, push_str, trim_end_chars, trim_end_by, CharClass};
use vstd::prelude::*;

verus! {

/// The Arabic comma `'،'` (U+060C) that separates groups of thousands.
pub open spec fn thousands_sep() -> char {
    '\u{060C}'
}

pub open spec fn digit_char(d: nat) -> char {
    ((d + 0x30) as u32) as char
}

/// The decimal digits of `n`, most significant first, without leading zeros
/// (`"0"` for zero).
pub open spec fn decimal(n: nat) -> Seq<char>
    decreases n,
{
    if n < 10 {
        seq![digit_char(n)]
    } else {
        decimal(n / 10).push(digit_char(n % 10))
    }
}

/// `d` with `'،'` inserted between groups of three digits, counted from the right.
pub open spec fn group_thousands(d: Seq<char>) -> Seq<char>
    decreases d.len(),
{
    if d.len() <= 3 {
        d
    } else {
        group_thousands(d.take(d.len() - 3)).push(thousands_sep()) + d.skip(d.len() - 3)
    }
}

/// What `format_count` renders: the grouped digits of `|n|`, after `'-'` when
/// `n` is negative.
pub open spec fn count_text(n: int) -> Seq<char> {
    if n < 0 {
        seq!['-'] + group_thousands(decimal((-n) as nat))
    } else {
        group_thousands(decimal(n as nat))
    }
}

fn digit(d: u64) -> (c: char)
    requires
        d < 10,
    ensures
        c == digit_char(d as nat),
{
    crate::text::char_from_ascii((d + 0x30) as u8)
}

/// The decimal digits of `n`.
pub fn decimal_chars(n: u64) -> (res: Vec<char>)
    ensures
        res@ == decimal(n as nat),
    decreases n,
{
    if n < 10 {
        let mut v: Vec<char> = Vec::new();
        v.push(digit(n));
        assert(v@ =~= seq![digit_char(n as nat)]);
        v
    } else {
        let mut v = decimal_chars(n / 10);
        v.push(digit(n % 10));
        v
    }
}

/// `n` as decimal text (`u64::to_string`).
pub fn u64_to_string(n: u64) -> (res: String)
    ensures
        res@ == decimal(n as nat),
{
    let v = decimal_chars(n);
    crate::text::from_chars(v.as_slice())
}

/// The decimal text of a signed integer: `'-'` before the digits of `|n|`
/// when `n` is negative.
pub open spec fn signed_decimal(n: int) -> Seq<char> {
    if n < 0 {
        seq!['-'] + decimal((-n) as nat)
    } else {
        decimal(n as nat)
    }
}

/// `n` as decimal text (`i64::to_string`).
pub fn i64_to_string(n: i64) -> (res: String)
    ensures
        res@ == signed_decimal(n as int),
{
    if n < 0 {
        let abs: u64 = ((-(n + 1)) as u64) + 1;
        let digits = decimal_chars(abs);
        let mut out = String::new();
        push_char(&mut out, '-');
        push_chars(&mut out, digits.as_slice());
        out
    } else {
        u64_to_string(n as u64)
    }
}

fn group_thousands_chars(d: &[char]) -> (res: Vec<char>)
    ensures
        res@ == group_thousands(d@),
    decreases d@.len(),
{
    if d.len() <= 3 {
        crate::text::slice_range(d, 0, d.len())
    } else {
        let head = crate::text::slice_range(d, 0, d.len() - 3);
        assert(head@ =~= d@.take(d@.len() - 3));
        let mut res = group_thousands_chars(head.as_slice());
        res.push('\u{060C}');
        let mut k: usize = d.len() - 3;
        let ghost base = res@;
        while k < d.len()
            invariant
                d@.len() > 3,
                d@.len() - 3 <= k <= d@.len(),
                res@ == base + d@.subrange(d@.len() - 3, k as int),
            decreases d@.len() - k,
        {
            res.push(d[k]);
            k = k + 1;
        }
        assert(d@.subrange(d@.len() - 3, d@.len() as int) =~= d@.skip(d@.len() - 3));
        res
    }
}

/// Formats an integer with Persian thousands separators (Western digits).
pub fn format_count(n: i64) -> (res: String)
    ensures
        res@ == count_text(n as int),
{
    let abs: u64 = if n < 0 {
        ((-(n + 1)) as u64) + 1
    } else {
        n as u64
    };
    let digits = decimal_chars(abs);
    let grouped = group_thousands_chars(digits.as_slice());
    let mut out = String::new();
    if n < 0 {
        push_char(&mut out, '-');
    }
    push_chars(&mut out, grouped.as_slice());
    out
}

// ---------------------------------------------------------------------------
// Byte sizes
// ---------------------------------------------------------------------------

pub open spec fn pow2(k: nat) -> nat
    decreases k,
{
    if k == 0 {
        1
    } else {
        2 * pow2((k - 1) as nat)
    }
}

pub open spec fn pow10(k: nat) -> nat
    decreases k,
{
    if k == 0 {
        1
    } else {
        10 * pow10((k - 1) as nat)
    }
}

/// `n / unit` rounded to the nearest integer, ties to even.
pub open spec fn div_round_half_even(n: nat, unit: nat) -> nat
    recommends
        unit > 0,
{
    let q = n / unit;
    let r = n % unit;
    if 2 * r > unit || (2 * r == unit && q % 2 == 1) {
        q + 1
    } else {
        q
    }
}

/// The spacing of `f64` values around `b`: 1 below 2^53, doubling with each
/// further binary digit of `b`.
pub open spec fn f64_spacing(b: nat) -> nat
    decreases b,
{
    if b < 0x20_0000_0000_0000 {
        1
    } else {
        2 * f64_spacing(b / 2)
    }
}

/// The value of `b as f64`: `b` rounded to the nearest multiple of its `f64`
/// spacing, ties to even.
pub open spec fn as_f64(b: nat) -> nat {
    div_round_half_even(b, f64_spacing(b)) * f64_spacing(b)
}

/// Decimal text of `q / 10^k` with exactly `k` fraction digits (what `{:.k}`
/// prints for a value already rounded to `q / 10^k`).
pub open spec fn fixed_point_text(q: nat, k: nat) -> Seq<char> {
    decimal(q / pow10(k)) + seq!['.'] + pad_digits(q % pow10(k), k)
}

/// The last `k` decimal digits of `n`, with leading zeros.
pub open spec fn pad_digits(n: nat, k: nat) -> Seq<char>
    decreases k,
{
    if k == 0 {
        Seq::<char>::empty()
    } else {
        pad_digits(n / 10, (k - 1) as nat).push(digit_char(n % 10))
    }
}

/// `format!("{value:.k}")` with trailing zeros, then a trailing point, removed,
/// for the value `x / unit` (`unit` a power of two, so the quotient is exact).
pub open spec fn decimal_text(x: nat, unit: nat, k: nat) -> Seq<char> {
    let q = div_round_half_even(x * pow10(k), unit);
    trim_end_by(trim_end_by(fixed_point_text(q, k), CharClass::Exactly('0')), CharClass::Exactly('.'))
}

pub open spec fn kib() -> nat {
    1024
}

pub open spec fn mib() -> nat {
    1048576
}

pub open spec fn gib() -> nat {
    1073741824
}

/// What `format_bytes` renders for a size in bytes.
pub open spec fn bytes_text(bytes: nat) -> Seq<char> {
    if bytes < kib() {
        count_text(bytes as int) + " بایت"@
    } else if bytes < mib() {
        decimal_text(bytes, kib(), 1) + " کیلو"@
    } else if bytes < gib() {
        decimal_text(bytes, mib(), 2) + " مگ"@
    } else {
        decimal_text(as_f64(bytes), gib(), 2) + " گیگ"@
    }
}

proof fn lemma_pow10_small()
    ensures
        pow10(1) == 10,
        pow10(2) == 100,
{
    reveal_with_fuel(pow10, 3);
}

/// `b as f64` as an integer.
fn f64_of_u64(b: u64) -> (res: u128)
    ensures
        res == as_f64(b as nat),
        res <= 0x1_0000_0000_0000_2000,
{
    let mut unit: u64 = 1;
    let mut t: u64 = b;
    while t >= 0x20_0000_0000_0000
        invariant
            1 <= unit <= 4096,
            t as nat == (b as nat) / (unit as nat),
            f64_spacing(b as nat) == (unit as nat) * f64_spacing(t as nat),
        decreases t,
    {
        proof {
            vstd::arithmetic::div_mod::lemma_div_denominator(b as int, unit as int, 2);
            assert(f64_spacing(t as nat) == 2 * f64_spacing((t / 2) as nat));
            assert((unit as nat) * (t as nat) <= b) by (nonlinear_arith)
                requires
                    t as nat == (b as nat) / (unit as nat),
                    unit >= 1,
            ;
            assert(unit < 2048) by (nonlinear_arith)
                requires
                    (unit as nat) * (t as nat) <= b,
                    t >= 0x20_0000_0000_0000,
                    b <= u64::MAX,
            ;
            assert((unit as nat) * (2 * f64_spacing((t / 2) as nat)) == ((unit * 2) as nat)
                * f64_spacing((t / 2) as nat)) by (nonlinear_arith);
        }
        t = t / 2;
        unit = unit * 2;
    }
    assert(f64_spacing(t as nat) == 1);
    assert((unit as nat) * 1 == unit as nat);
    assert(f64_spacing(b as nat) == unit as nat);
    let q = b / unit;
    let r = b % unit;
    proof {
        vstd::arithmetic::div_mod::lemma_fundamental_div_mod(b as int, unit as int);
        assert((q as nat) * (unit as nat) <= b) by (nonlinear_arith)
            requires
                b == (unit as nat) * (q as nat) + (r as nat),
                r >= 0,
        ;
    }
    let rounded: u128 = if 2 * (r as u128) > unit as u128 || (2 * (r as u128) == unit as u128 && q
        % 2 == 1) {
        assert(((q + 1) as nat) * (unit as nat) == (q as nat) * (unit as nat) + unit) by (nonlinear_arith);
        (q as u128 + 1) * unit as u128
    } else {
        q as u128 * unit as u128
    };
    rounded
}

/// The text of `x / unit` rounded to `k` (1 or 2) fraction digits, trailing
/// zeros and point removed.
fn decimal_text_of(x: u128, unit: u128, k: u32) -> (res: Vec<char>)
    requires
        1024 <= unit <= 0x1_0000_0000,
        k == 1 || k == 2,
        x <= 0x1_0000_0000_0000_2000,
    ensures
        res@ == decimal_text(x as nat, unit as nat, k as nat),
{
    proof {
        lemma_pow10_small();
    }
    let scale: u128 = if k == 1 {
        10
    } else {
        100
    };
    assert(scale == pow10(k as nat));
    let scaled = x * scale;
    let q0 = scaled / unit;
    let r = scaled % unit;
    let q: u128 = if 2 * r > unit || (2 * r == unit && q0 % 2 == 1) {
        q0 + 1
    } else {
        q0
    };
    assert(q == div_round_half_even((x as nat) * pow10(k as nat), unit as nat));
    assert(q0 <= scaled / 1024) by {
        vstd::arithmetic::div_mod::lemma_div_is_ordered_by_denominator(scaled as int, 1024, unit as int);
    }
    let int_part = q / scale;
    let frac = q % scale;
    let mut text: Vec<char> = decimal_chars(int_part as u64);
    text.push('.');
    let ghost fixed = fixed_point_text(q as nat, k as nat);
    if k == 2 {
        text.push(digit((frac / 10) as u64));
        text.push(digit((frac % 10) as u64));
        proof {
            reveal_with_fuel(pad_digits, 3);
            assert(pad_digits(frac as nat, 2) =~= seq![
                digit_char((frac / 10) as nat),
                digit_char((frac % 10) as nat),
            ]);
        }
    } else {
        text.push(digit((frac % 10) as u64));
        proof {
            reveal_with_fuel(pad_digits, 2);
            assert(pad_digits(frac as nat, 1) =~= seq![digit_char((frac % 10) as nat)]);
        }
    }
    assert(text@ =~= fixed);
    let trimmed0 = trim_end_chars(text.as_slice(), CharClass::Exactly('0'));
    trim_end_chars(trimmed0.as_slice(), CharClass::Exactly('.'))
}

/// Human-readable byte size in Persian (e.g. «1.2 مگ»: number first, short unit).
pub fn format_bytes(bytes: u64) -> (res: String)
    ensures
        res@ == bytes_text(bytes as nat),
{
    if bytes < 1024 {
        let mut s = format_count(bytes as i64);
        push_str(&mut s, " بایت");
        return s;
    }
    let mut out = String::new();
    if bytes < 1048576 {
        let t = decimal_text_of(bytes as u128, 1024, 1);
        push_chars(&mut out, t.as_slice());
        push_str(&mut out, " کیلو");
    } else if bytes < 1073741824 {
        let t = decimal_text_of(bytes as u128, 1048576, 2);
        push_chars(&mut out, t.as_slice());
        push_str(&mut out, " مگ");
    } else {
        let v = f64_of_u64(bytes);
        let t = decimal_text_of(v, 1073741824, 2);
        push_chars(&mut out, t.as_slice());
        push_str(&mut out, " گیگ");
    }
    assert(Seq::<char>::empty() + bytes_text(bytes as nat) =~= bytes_text(bytes as nat));
    out
}

} // verus!
