//! Reading numbers from configuration values: integers as `i32::from_str`
//! reads them, and decimals from the bit pattern of the `f64` they read as.

use vstd::prelude::*;
use vstd::string::*;
use vstd::arithmetic::power2::pow2;

verus! {

/// An ASCII decimal digit.
pub open spec fn is_digit(c: char) -> bool {
    '0' <= c && c <= '9'
}

/// The value of an ASCII decimal digit.
pub open spec fn digit_value(c: char) -> int {
    (c as u32) - ('0' as u32)
}

/// The value of a sequence of decimal digits, most significant first.
pub open spec fn digits_value(s: Seq<char>) -> int
    decreases s.len(),
{
    if s.len() == 0 {
        0
    } else {
        10 * digits_value(s.drop_last()) + digit_value(s.last())
    }
}

/// All characters are decimal digits.
pub open spec fn all_digits(s: Seq<char>) -> bool {
    forall|i: int| 0 <= i < s.len() ==> is_digit(#[trigger] s[i])
}

/// What `i32::from_str` gives for `s`: an optional `+` or `-`, then one or
/// more decimal digits, whose value must fit `i32`.
pub open spec fn parse_i32_spec(s: Seq<char>) -> Option<i32> {
    let neg = s.len() > 0 && s[0] == '-';
    let signed = s.len() > 0 && (s[0] == '-' || s[0] == '+');
    let digits = if signed { s.skip(1) } else { s };
    if digits.len() == 0 || !all_digits(digits) {
        None
    } else {
        let v = if neg { -digits_value(digits) } else { digits_value(digits) };
        if i32::MIN <= v <= i32::MAX { Some(v as i32) } else { None }
    }
}

proof fn lemma_digits_value_nonneg(s: Seq<char>)
    requires
        all_digits(s),
    ensures
        digits_value(s) >= 0,
    decreases s.len(),
{
    if s.len() > 0 {
        lemma_digits_value_nonneg(s.drop_last());
    }
}

/// Longer digit prefixes have larger or equal values.
proof fn lemma_digits_value_grows(s: Seq<char>, j: int)
    requires
        all_digits(s),
        0 <= j <= s.len(),
    ensures
        digits_value(s.take(j)) <= digits_value(s),
    decreases s.len() - j,
{
    if j < s.len() {
        lemma_digits_value_grows(s, j + 1);
        assert(s.take(j + 1).drop_last() =~= s.take(j));
        lemma_digits_value_nonneg(s.take(j));
    } else {
        assert(s.take(j) =~= s);
    }
}

/// Reads a decimal integer as `i32::from_str` does.
pub fn parse_i32(s: &str) -> (r: Option<i32>)
    ensures
        r == parse_i32_spec(s@),
{
    let n = s.unicode_len();
    if n == 0 {
        return None;
    }
    let first = s.get_char(0);
    let neg = first == '-';
    let start: usize = if first == '-' || first == '+' { 1 } else { 0 };
    let ghost digits = if start == 1 { s@.skip(1) } else { s@ };
    proof {
        assert(s@[0] == first);
        assert(start == 0 ==> s@.skip(0) =~= s@);
    }
    if start >= n {
        return None;
    }
    let mut acc: i64 = 0;
    let mut i: usize = start;
    while i < n
        invariant
            n == s@.len(),
            start <= i <= n,
            start == 0 || start == 1,
            digits == (if start == 1 { s@.skip(1) } else { s@ }),
            forall|k: int| 0 <= k < i - start ==> is_digit(#[trigger] digits[k]),
            s@.len() > 0,
            neg == (s@[0] == '-'),
            (start == 1) == (s@[0] == '-' || s@[0] == '+'),
            acc == digits_value(digits.take(i - start)),
            0 <= acc <= 2147483648,
        decreases n - i,
    {
        let c = s.get_char(i);
        if !('0' <= c && c <= '9') {
            proof {
                assert(!is_digit(digits[i - start]));
            }
            return None;
        }
        let d = (c as u32 - '0' as u32) as i64;
        proof {
            assert(digits.take(i - start + 1).drop_last() =~= digits.take(i - start));
            assert(digits.take(i - start + 1).last() == c);
        }
        let next = acc * 10 + d;
        if next > 2147483648 {
            let mut j: usize = i + 1;
            while j < n
                invariant
                    n == s@.len(),
                    start <= i < j <= n,
                    start == 0 || start == 1,
                    digits == (if start == 1 { s@.skip(1) } else { s@ }),
                    forall|k: int| 0 <= k < j - start ==> is_digit(#[trigger] digits[k]),
                    s@.len() > 0,
                    neg == (s@[0] == '-'),
                    (start == 1) == (s@[0] == '-' || s@[0] == '+'),
                    digits_value(digits.take(i - start + 1)) > 2147483648,
                decreases n - j,
            {
                let c2 = s.get_char(j);
                if !('0' <= c2 && c2 <= '9') {
                    proof {
                        assert(!is_digit(digits[j - start]));
                    }
                    return None;
                }
                j = j + 1;
            }
            proof {
                assert(digits.len() == n - start);
                assert(all_digits(digits));
                lemma_digits_value_grows(digits, i - start + 1);
                assert(digits_value(digits) > 2147483648);
            }
            return None;
        }
        acc = next;
        i = i + 1;
    }
    proof {
        assert(digits.take(n - start) =~= digits);
    }
    if neg {
        Some((-acc) as i32)
    } else if acc > 2147483647 {
        None
    } else {
        Some(acc as i32)
    }
}

} // verus!

verus! {

/// ASCII lower-casing of a character.
pub open spec fn lower(c: char) -> char {
    if 'A' <= c && c <= 'Z' {
        ((c as u32) + 32) as char
    } else {
        c
    }
}

/// `a` equals the lower-case word `word` when lower-cased.
pub open spec fn same_ignoring_case(a: Seq<char>, word: Seq<char>) -> bool {
    a.len() == word.len() && forall|i: int| 0 <= i < a.len() ==> lower(#[trigger] a[i]) == word[i]
}

/// The smaller of two integers.
pub open spec fn min_int(a: int, b: int) -> int {
    if a < b { a } else { b }
}

pub(crate) fn chars_of(s: &str) -> (r: Vec<char>)
    ensures
        r@ == s@,
{
    let n = s.unicode_len();
    let mut r: Vec<char> = Vec::new();
    let mut i: usize = 0;
    while i < n
        invariant
            n == s@.len(),
            0 <= i <= n,
            r@ == s@.take(i as int),
        decreases n - i,
    {
        r.push(s.get_char(i));
        proof {
            assert(r@ =~= s@.take(i as int + 1));
        }
        i = i + 1;
    }
    proof {
        assert(r@ =~= s@);
    }
    r
}

fn lower_char(c: char) -> (r: char)
    ensures
        r == lower(c),
{
    if 'A' <= c && c <= 'Z' {
        ((c as u32 + 32) as u8) as char
    } else {
        c
    }
}

pub(crate) fn same_ignoring_case_vec(v: &Vec<char>, word: &str) -> (r: bool)
    ensures
        r == same_ignoring_case(v@, word@),
{
    let n = v.len();
    if n != word.unicode_len() {
        return false;
    }
    let mut i: usize = 0;
    while i < n
        invariant
            n == v@.len(),
            n == word@.len(),
            0 <= i <= n,
            forall|k: int| 0 <= k < i ==> lower(#[trigger] v@[k]) == word@[k],
        decreases n - i,
    {
        if lower_char(v[i]) != word.get_char(i) {
            return false;
        }
        i = i + 1;
    }
    true
}

} // verus!

verus! {

/// The sign bit of a double's IEEE 754 bit pattern.
pub open spec fn double_negative(b: u64) -> bool {
    b >= 0x8000_0000_0000_0000
}

/// The biased exponent field of a double's bit pattern.
pub open spec fn double_exponent(b: u64) -> int {
    ((b % 0x8000_0000_0000_0000) / 0x10_0000_0000_0000) as int
}

/// The fraction field of a double's bit pattern.
pub open spec fn double_fraction(b: u64) -> int {
    (b % 0x10_0000_0000_0000) as int
}

/// The significand of a finite double: its magnitude is the significand
/// times `2^double_scale(b)`.
pub open spec fn double_significand(b: u64) -> int {
    if double_exponent(b) == 0 {
        double_fraction(b)
    } else {
        double_fraction(b) + 0x10_0000_0000_0000
    }
}

/// The power of two a finite double's significand is scaled by.
pub open spec fn double_scale(b: u64) -> int {
    if double_exponent(b) == 0 {
        -1074
    } else {
        double_exponent(b) - 1075
    }
}

/// The significand with the double's sign.
pub open spec fn double_signed(b: u64) -> int {
    if double_negative(b) {
        -double_significand(b)
    } else {
        double_significand(b)
    }
}

/// The finite double with bit pattern `b` is less than the integer `n`.
pub open spec fn double_less(b: u64, n: int) -> bool {
    let k = double_scale(b);
    if k >= 0 {
        double_signed(b) * pow2(k as nat) < n
    } else {
        double_signed(b) < n * pow2((-k) as nat)
    }
}

/// The finite double with bit pattern `b` is greater than the integer `n`.
pub open spec fn double_greater(b: u64, n: int) -> bool {
    let k = double_scale(b);
    if k >= 0 {
        double_signed(b) * pow2(k as nat) > n
    } else {
        double_signed(b) > n * pow2((-k) as nat)
    }
}

/// Whether the double with bit pattern `b` lies outside `[lo, hi]`, as
/// `x < lo || x > hi` decides it on doubles: a NaN never does, an infinity
/// always does, and a finite value is compared exactly with the bounds.
pub open spec fn double_outside(b: u64, lo: i64, hi: i64) -> bool {
    if double_exponent(b) == 0x7ff {
        double_fraction(b) == 0
    } else {
        double_less(b, lo as int) || double_greater(b, hi as int)
    }
}

/// How a magnitude `m = q * p + r`, with `0 <= r < p`, compares with the
/// multiples `n * p`, by its quotient `q` and remainder `r`.
proof fn lemma_compare_scaled(m: int, p: int, q: int, r: int, n: int)
    requires
        p > 0,
        0 <= r < p,
        m == q * p + r,
    ensures
        (m < n * p) <==> (q < n),
        (m > n * p) <==> (q > n || (q == n && r > 0)),
        (-m < n * p) <==> (q > -n || (q == -n && r > 0)),
        (-m > n * p) <==> (q < -n),
{
    assert(m - n * p == (q - n) * p + r) by (nonlinear_arith)
        requires
            m == q * p + r,
    ;
    assert(-m - n * p == (-q - n) * p - r) by (nonlinear_arith)
        requires
            m == q * p + r,
    ;
    assert forall|d: int| d <= -1 implies #[trigger] (d * p) <= -p by {
        assert(d * p <= -p) by (nonlinear_arith)
            requires
                d <= -1,
                p > 0,
        ;
    }
    assert forall|d: int| d >= 1 implies #[trigger] (d * p) >= p by {
        assert(d * p >= p) by (nonlinear_arith)
            requires
                d >= 1,
                p > 0,
        ;
    }
    assert((q - n) * p == 0 <==> q == n) by (nonlinear_arith)
        requires
            p > 0,
    ;
    assert((-q - n) * p == 0 <==> q == -n) by (nonlinear_arith)
        requires
            p > 0,
    ;
    if q - n <= -1 {
        assert((q - n) * p <= -p);
    } else if q - n >= 1 {
        assert((q - n) * p >= p);
    }
    if -q - n <= -1 {
        assert((-q - n) * p <= -p);
    } else if -q - n >= 1 {
        assert((-q - n) * p >= p);
    }
}

/// Whether the double with bit pattern `bits` lies outside `[lo, hi]`.
pub fn double_outside_range(bits: u64, lo: i64, hi: i64) -> (r: bool)
    ensures
        r == double_outside(bits, lo, hi),
{
    let neg = bits >= 0x8000_0000_0000_0000;
    let e: u64 = (bits % 0x8000_0000_0000_0000) / 0x10_0000_0000_0000;
    let f: u64 = bits % 0x10_0000_0000_0000;
    if e == 0x7ff {
        return f == 0;
    }
    let m: u64 = if e == 0 { f } else { f + 0x10_0000_0000_0000 };
    let ghost s: int = double_signed(bits);
    let ghost k: int = double_scale(bits);
    proof {
        assert(s == if neg { -(m as int) } else { m as int });
        assert(m < 0x20_0000_0000_0000);
        assert(e != 0 ==> m >= 0x10_0000_0000_0000);
    }
    // The magnitude's integer part, and whether a fraction remains; a
    // magnitude of at least 2^64 is held as 2^64, past every bound.
    let q: u128;
    let frac: bool;
    if e >= 1075 {
        let kk: u64 = e - 1075;
        if kk >= 12 {
            q = 0x1_0000_0000_0000_0000;
            frac = false;
            proof {
                vstd::arithmetic::power2::lemma2_to64();
                if kk > 12 {
                    vstd::arithmetic::power2::lemma_pow2_strictly_increases(12, kk as nat);
                }
                let pk = pow2(kk as nat);
                assert(pk >= 0x1000);
                assert((m as int) * pk >= 0x1_0000_0000_0000_0000) by (nonlinear_arith)
                    requires
                        m >= 0x10_0000_0000_0000,
                        pk >= 0x1000,
                ;
                assert(s * pk == if neg { -((m as int) * pk) } else { (m as int) * pk }) by (nonlinear_arith)
                    requires
                        s == if neg { -(m as int) } else { m as int },
                ;
            }
        } else {
            proof {
                vstd::bits::lemma_u64_pow2_no_overflow(kk as nat);
                vstd::bits::lemma_u64_shl_is_mul(1u64, kk);
            }
            let p: u64 = 1u64 << kk;
            proof {
                vstd::arithmetic::power2::lemma2_to64();
                if kk < 11 {
                    vstd::arithmetic::power2::lemma_pow2_strictly_increases(kk as nat, 11);
                }
                assert(p <= 0x800);
                assert((m as int) * (p as int) < 0x1_0000_0000_0000_0000) by (nonlinear_arith)
                    requires
                        m < 0x20_0000_0000_0000,
                        p <= 0x800,
                ;
            }
            q = (m as u128) * (p as u128);
            frac = false;
            proof {
                assert(s * pow2(kk as nat) == if neg { -(q as int) } else { q as int }) by (nonlinear_arith)
                    requires
                        s == if neg { -(m as int) } else { m as int },
                        q == m * p,
                        p == pow2(kk as nat),
                ;
            }
        }
    } else {
        let j: u64 = if e == 0 { 1074 } else { 1075 - e };
        if j >= 64 {
            q = 0;
            frac = m != 0;
            proof {
                vstd::arithmetic::power2::lemma2_to64();
                if j > 64 {
                    vstd::arithmetic::power2::lemma_pow2_strictly_increases(64, j as nat);
                }
                let pj = pow2(j as nat) as int;
                assert(pj > m);
                lemma_compare_scaled(m as int, pj, 0, m as int, lo as int);
                lemma_compare_scaled(m as int, pj, 0, m as int, hi as int);
            }
        } else {
            proof {
                vstd::bits::lemma_u64_pow2_no_overflow(j as nat);
                vstd::bits::lemma_u64_shl_is_mul(1u64, j);
            }
            let p: u64 = 1u64 << j;
            q = (m / p) as u128;
            frac = m % p != 0;
            proof {
                let pj = pow2(j as nat) as int;
                vstd::arithmetic::div_mod::lemma_fundamental_div_mod(m as int, p as int);
                lemma_compare_scaled(m as int, pj, (m / p) as int, (m % p) as int, lo as int);
                lemma_compare_scaled(m as int, pj, (m / p) as int, (m % p) as int, hi as int);
            }
        }
    }
    let qi: i128 = q as i128;
    let below = if !neg { qi < lo as i128 } else { qi > -(lo as i128) || (qi == -(lo as i128) && frac) };
    let above = if !neg { qi > hi as i128 || (qi == hi as i128 && frac) } else { qi < -(hi as i128) };
    below || above
}

} // verus!
