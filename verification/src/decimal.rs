//! Fixed-point prices and the decimal numerals they are read from.
//!
//! A price is a whole number of millionths of a currency unit. Upstream sources
//! send prices and volumes as plain decimal numerals (`27.55`, `-3`, `.5`); this
//! module says what such a numeral is worth and reads it without rounding up:
//! digits beyond the sixth decimal place are validated and dropped.

use vstd::prelude::*;
use crate::text::{find_byte, first_index_of};

verus! {

/// Decimal places a [`Price`] keeps.
pub const PRICE_DECIMALS: u32 = 6;

/// A price, as a count of millionths of a currency unit.
#[derive(Clone, Copy, Debug, PartialEq, Eq, Structural)]
pub struct Price {
    pub micros: i64,
}

impl View for Price {
    type V = int;

    /// The price in millionths.
    open spec fn view(&self) -> int {
        self.micros as int
    }
}

/// Ten to the power `n`.
pub open spec fn pow10(n: nat) -> nat
    decreases n,
{
    if n == 0 {
        1
    } else {
        10 * pow10((n - 1) as nat)
    }
}

/// Whether `b` is an ASCII decimal digit.
pub open spec fn is_digit(b: u8) -> bool {
    0x30 <= b <= 0x39
}

/// Whether every byte of `s` is an ASCII decimal digit.
pub open spec fn all_digits(s: Seq<u8>) -> bool {
    forall|i: int| 0 <= i < s.len() ==> is_digit(#[trigger] s[i])
}

/// The number that the digit string `s` writes; 0 for the empty string.
pub open spec fn digits_value(s: Seq<u8>) -> nat
    decreases s.len(),
{
    if s.len() == 0 {
        0
    } else {
        10 * digits_value(s.drop_last()) + (s.last() - 0x30) as nat
    }
}

/// Position of the first `.` in `s`, or `s.len()` where there is none.
pub open spec fn first_dot(s: Seq<u8>) -> int {
    first_index_of(s, 0x2e)
}

/// What the fraction digits `frac` are worth in units of `10^-scale`: the first
/// `scale` digits count, missing ones are zeros, further ones are dropped.
pub open spec fn fraction_units(frac: Seq<u8>, scale: nat) -> nat {
    if frac.len() >= scale {
        digits_value(frac.take(scale as int))
    } else {
        digits_value(frac) * pow10((scale - frac.len()) as nat)
    }
}

/// The digits before the first `.` of an unsigned numeral.
pub open spec fn whole_part(s: Seq<u8>) -> Seq<u8> {
    s.take(first_dot(s))
}

/// The digits after the first `.` of an unsigned numeral; empty without a `.`.
pub open spec fn fraction_part(s: Seq<u8>) -> Seq<u8> {
    if first_dot(s) < s.len() {
        s.skip(first_dot(s) + 1)
    } else {
        Seq::empty()
    }
}

/// Whether `s` is an unsigned decimal numeral: digits, at most one `.`, and at
/// least one digit on either side of it.
pub open spec fn is_unsigned_decimal(s: Seq<u8>) -> bool {
    &&& all_digits(whole_part(s))
    &&& all_digits(fraction_part(s))
    &&& whole_part(s).len() + fraction_part(s).len() > 0
}

/// The value of the unsigned numeral `s` in units of `10^-scale`, rounded toward zero.
pub open spec fn unsigned_units(s: Seq<u8>, scale: nat) -> nat {
    digits_value(whole_part(s)) * pow10(scale) + fraction_units(fraction_part(s), scale)
}

/// Whether `s` starts with a sign.
pub open spec fn has_sign(s: Seq<u8>) -> bool {
    s.len() > 0 && (s[0] == 0x2d || s[0] == 0x2b)
}

/// The numeral `s` without its sign.
pub open spec fn unsigned_part(s: Seq<u8>) -> Seq<u8> {
    if has_sign(s) {
        s.skip(1)
    } else {
        s
    }
}

/// Whether `s` is a decimal numeral: an optional `+` or `-`, then an unsigned numeral.
pub open spec fn is_decimal(s: Seq<u8>) -> bool {
    is_unsigned_decimal(unsigned_part(s))
}

/// The value of the decimal numeral `s` in units of `10^-scale`, rounded toward zero.
pub open spec fn decimal_units(s: Seq<u8>, scale: nat) -> int {
    if s.len() > 0 && s[0] == 0x2d {
        -(unsigned_units(unsigned_part(s), scale) as int)
    } else {
        unsigned_units(unsigned_part(s), scale) as int
    }
}

/// What reading `s` at `scale` decimal places gives: its value where `s` is a
/// numeral whose value fits an `i64`, nothing otherwise.
pub open spec fn read_decimal(s: Seq<u8>, scale: nat) -> Option<i64> {
    if is_decimal(s) && i64::MIN <= decimal_units(s, scale) <= i64::MAX {
        Some(decimal_units(s, scale) as i64)
    } else {
        None
    }
}

/// What reading `s` as a whole number gives: as [`read_decimal`] at scale 0, but
/// a `.` is not accepted.
pub open spec fn read_integer(s: Seq<u8>) -> Option<i64> {
    if first_dot(unsigned_part(s)) == unsigned_part(s).len() {
        read_decimal(s, 0)
    } else {
        None
    }
}

/// What reading `s` as a price gives.
pub open spec fn read_price(s: Seq<u8>) -> Option<Price> {
    match read_decimal(s, PRICE_DECIMALS as nat) {
        Some(micros) => Some(Price { micros }),
        None => None,
    }
}

/// `v`, shifted left by the digits of `s`, plus what `s` writes.
spec fn shifted(v: nat, s: Seq<u8>) -> nat {
    v * pow10(s.len()) + digits_value(s)
}

proof fn lemma_pow10_positive(n: nat)
    ensures
        pow10(n) >= 1,
    decreases n,
{
    if n > 0 {
        lemma_pow10_positive((n - 1) as nat);
    }
}

proof fn lemma_pow10_step(v: nat, n: nat)
    ensures
        v * pow10(n + 1) == 10 * (v * pow10(n)),
{
    assert(pow10(n + 1) == 10 * pow10(n));
    assert(v * (10 * pow10(n)) == 10 * (v * pow10(n))) by (nonlinear_arith);
}

proof fn lemma_shifted_step(v: nat, s: Seq<u8>)
    requires
        s.len() > 0,
    ensures
        shifted(v, s) == 10 * shifted(v, s.drop_last()) + (s.last() - 0x30) as nat,
{
    lemma_pow10_step(v, s.drop_last().len());
}

proof fn lemma_shifted_grows(v: nat, s: Seq<u8>, i: int)
    requires
        0 <= i <= s.len(),
        all_digits(s),
    ensures
        shifted(v, s.take(i)) <= shifted(v, s),
    decreases s.len() - i,
{
    if i < s.len() {
        lemma_shifted_grows(v, s, i + 1);
        let t = s.take(i + 1);
        assert(t.drop_last() =~= s.take(i));
        assert(t.last() == s[i]);
        lemma_shifted_step(v, t);
    } else {
        assert(s.take(i) =~= s);
    }
}

proof fn lemma_pow10_grows(v: nat, n: nat, m: nat)
    requires
        n <= m,
    ensures
        v * pow10(n) <= v * pow10(m),
    decreases m - n,
{
    if n < m {
        lemma_pow10_grows(v, n + 1, m);
        lemma_pow10_step(v, n);
    }
}

/// Largest magnitude a numeral may have and still fit an `i64` with some sign.
const MAGNITUDE_LIMIT: u64 = 0x8000_0000_0000_0000;

/// Index of the first byte at or after `from` that is not a digit.
fn scan_digits(text: &[u8], from: usize) -> (end: usize)
    requires
        from <= text@.len(),
    ensures
        from <= end <= text@.len(),
        all_digits(text@.subrange(from as int, end as int)),
        end < text@.len() ==> !is_digit(text@[end as int]),
{
    let mut end: usize = from;
    while end < text.len() && 0x30 <= text[end] && text[end] <= 0x39
        invariant
            from <= end <= text@.len(),
            all_digits(text@.subrange(from as int, end as int)),
        decreases text@.len() - end,
    {
        end += 1;
    }
    end
}

/// Appends the digits `text[from..to]` to the number `acc`, giving up as soon
/// as the result passes the largest magnitude of interest.
fn append_digits(text: &[u8], from: usize, to: usize, acc: u64) -> (r: Option<u64>)
    requires
        from <= to <= text@.len(),
        all_digits(text@.subrange(from as int, to as int)),
        acc <= MAGNITUDE_LIMIT,
    ensures
        r == if shifted(acc as nat, text@.subrange(from as int, to as int)) <= MAGNITUDE_LIMIT {
            Some(shifted(acc as nat, text@.subrange(from as int, to as int)) as u64)
        } else {
            None
        },
{
    let ghost digits = text@.subrange(from as int, to as int);
    let mut cur: u64 = acc;
    let mut i: usize = from;
    assert(digits.take(0) =~= Seq::<u8>::empty());
    assert(pow10(0) == 1);
    while i < to
        invariant
            from <= i <= to <= text@.len(),
            digits == text@.subrange(from as int, to as int),
            all_digits(digits),
            cur <= MAGNITUDE_LIMIT,
            cur == shifted(acc as nat, digits.take(i - from)),
        decreases to - i,
    {
        proof {
            let t = digits.take(i - from + 1);
            assert(t.drop_last() =~= digits.take(i - from));
            assert(t.last() == text@[i as int]);
            assert(is_digit(digits[i - from]));
            lemma_shifted_step(acc as nat, t);
            lemma_shifted_grows(acc as nat, digits, i - from + 1);
        }
        let d: u64 = (text[i] - 0x30) as u64;
        if cur > 922_337_203_685_477_580 {
            // ten times `cur` alone is past the limit
            return None;
        }
        let next: u64 = cur * 10 + d;
        if next > MAGNITUDE_LIMIT {
            return None;
        }
        cur = next;
        i += 1;
    }
    assert(digits.take(to - from) =~= digits);
    Some(cur)
}

/// Multiplies `acc` by ten `times` times, giving up as soon as the result
/// passes the largest magnitude of interest.
fn append_zeros(acc: u64, times: u32) -> (r: Option<u64>)
    requires
        acc <= MAGNITUDE_LIMIT,
    ensures
        r == if acc * pow10(times as nat) <= MAGNITUDE_LIMIT {
            Some((acc * pow10(times as nat)) as u64)
        } else {
            None
        },
{
    let mut cur: u64 = acc;
    let mut k: u32 = 0;
    assert(pow10(0) == 1);
    while k < times
        invariant
            k <= times,
            cur <= MAGNITUDE_LIMIT,
            cur == acc * pow10(k as nat),
        decreases times - k,
    {
        proof {
            lemma_pow10_step(acc as nat, k as nat);
            lemma_pow10_grows(acc as nat, (k + 1) as nat, times as nat);
        }
        if cur > 922_337_203_685_477_580 {
            return None;
        }
        let next: u64 = cur * 10;
        if next > MAGNITUDE_LIMIT {
            return None;
        }
        cur = next;
        k += 1;
    }
    Some(cur)
}

proof fn lemma_value_splits(whole: Seq<u8>, frac: Seq<u8>, scale: nat)
    requires
        frac.len() <= scale,
    ensures
        shifted(digits_value(whole), frac) * pow10((scale - frac.len()) as nat) == digits_value(
            whole,
        ) * pow10(scale) + digits_value(frac) * pow10((scale - frac.len()) as nat),
    decreases scale - frac.len(),
{
    let w = digits_value(whole);
    let f = digits_value(frac);
    let a = pow10(frac.len());
    let b = pow10((scale - frac.len()) as nat);
    lemma_pow10_sum(frac.len(), (scale - frac.len()) as nat);
    assert((w * a + f) * b == w * (a * b) + f * b) by (nonlinear_arith);
}

proof fn lemma_pow10_sum(n: nat, m: nat)
    ensures
        pow10(n) * pow10(m) == pow10(n + m),
    decreases n,
{
    if n > 0 {
        lemma_pow10_sum((n - 1) as nat, m);
        let a = pow10((n - 1) as nat);
        let b = pow10(m);
        assert(pow10(n) == 10 * a);
        assert(pow10(n + m) == 10 * pow10((n - 1 + m) as nat));
        assert((10 * a) * b == 10 * (a * b)) by (nonlinear_arith);
    } else {
        assert(pow10(0) == 1);
    }
}

/// Reads the unsigned numeral `text[from..]` at `scale` decimal places.
fn read_magnitude(text: &[u8], from: usize, scale: u32) -> (r: Option<u64>)
    requires
        from <= text@.len(),
    ensures
        r == if is_unsigned_decimal(text@.skip(from as int)) && unsigned_units(
            text@.skip(from as int),
            scale as nat,
        ) <= MAGNITUDE_LIMIT {
            Some(unsigned_units(text@.skip(from as int), scale as nat) as u64)
        } else {
            None
        },
{
    let ghost body = text@.skip(from as int);
    let ghost whole = whole_part(body);
    let ghost frac = fraction_part(body);
    let dot = find_byte(text, from, 0x2e);
    let whole_end = scan_digits(text, from);
    assert(whole =~= text@.subrange(from as int, dot as int));
    if whole_end < dot {
        assert(!is_digit(whole[whole_end - from]));
        return None;
    }
    assert(text@.subrange(from as int, dot as int) =~= text@.subrange(
        from as int,
        whole_end as int,
    ).take(dot - from));
    let frac_start: usize = if dot < text.len() {
        dot + 1
    } else {
        dot
    };
    assert(frac =~= text@.subrange(frac_start as int, text@.len() as int));
    let frac_end = scan_digits(text, frac_start);
    if frac_end < text.len() {
        assert(!is_digit(frac[frac_end - frac_start]));
        return None;
    }
    if dot - from + (frac_end - frac_start) == 0 {
        return None;
    }
    assert(is_unsigned_decimal(body));
    let frac_len: usize = frac_end - frac_start;
    let kept: usize = if frac_len >= scale as usize {
        scale as usize
    } else {
        frac_len
    };
    assert(text@.subrange(frac_start as int, frac_start + kept) =~= frac.take(kept as int));
    proof {
        lemma_shifted_grows(0, whole, whole.len() as int);
        assert(whole.take(whole.len() as int) =~= whole);
        assert(shifted(0, whole) == digits_value(whole)) by {
            assert(0 * pow10(whole.len()) == 0) by (nonlinear_arith);
        }
        lemma_pow10_positive(scale as nat);
        lemma_pow10_positive(kept as nat);
        lemma_pow10_positive((scale - kept) as nat);
    }
    let w = match append_digits(text, from, dot, 0) {
        Some(w) => w,
        None => {
            proof {
                let v = digits_value(whole);
                let p = pow10(scale as nat);
                assert(v * p >= v) by (nonlinear_arith)
                    requires
                        p >= 1,
                ;
            }
            return None;
        },
    };
    let ghost wf = shifted(w as nat, frac.take(kept as int));
    proof {
        if frac_len >= scale as usize {
            assert(wf == unsigned_units(body, scale as nat));
        } else {
            assert(frac.take(kept as int) =~= frac);
            lemma_value_splits(whole, frac, scale as nat);
            let q = pow10((scale - kept) as nat);
            assert(wf * q >= wf) by (nonlinear_arith)
                requires
                    q >= 1,
            ;
            assert(wf * q == unsigned_units(body, scale as nat));
        }
    }
    let with_frac = match append_digits(text, frac_start, frac_start + kept, w) {
        Some(v) => v,
        None => {
            return None;
        },
    };
    if frac_len >= scale as usize {
        Some(with_frac)
    } else {
        append_zeros(with_frac, scale - frac_len as u32)
    }
}

/// Reads a decimal numeral at `scale` decimal places, rounding toward zero.
///
/// The result is the numeral's value in units of `10^-scale`; there is none
/// where `text` is not a numeral or the value does not fit an `i64`.
pub fn parse_decimal(text: &[u8], scale: u32) -> (r: Option<i64>)
    ensures
        r == read_decimal(text@, scale as nat),
{
    let negative = text.len() > 0 && text[0] == 0x2d;
    let signed = text.len() > 0 && (text[0] == 0x2d || text[0] == 0x2b);
    let from: usize = if signed {
        1
    } else {
        0
    };
    assert(text@.skip(0) =~= text@);
    match read_magnitude(text, from, scale) {
        None => None,
        Some(m) => {
            if negative {
                if m == 0x8000_0000_0000_0000 {
                    Some(i64::MIN)
                } else {
                    Some(-(m as i64))
                }
            } else if m > 0x7fff_ffff_ffff_ffff {
                None
            } else {
                Some(m as i64)
            }
        },
    }
}

/// Reads a whole number: an optional sign and at least one digit.
pub fn parse_integer(text: &[u8]) -> (r: Option<i64>)
    ensures
        r == read_integer(text@),
{
    let signed = text.len() > 0 && (text[0] == 0x2d || text[0] == 0x2b);
    let from: usize = if signed {
        1
    } else {
        0
    };
    assert(text@.skip(0) =~= text@);
    if find_byte(text, from, 0x2e) < text.len() {
        None
    } else {
        parse_decimal(text, 0)
    }
}

impl Price {
    /// Reads a price from a decimal numeral; digits past the sixth decimal
    /// place are dropped.
    pub fn parse(text: &[u8]) -> (r: Option<Price>)
        ensures
            r == read_price(text@),
    {
        match parse_decimal(text, PRICE_DECIMALS) {
            Some(micros) => Some(Price { micros }),
            None => None,
        }
    }

    /// Whether this price is `other` or higher.
    pub fn at_least(&self, other: &Price) -> (r: bool)
        ensures
            r == (self@ >= other@),
    {
        self.micros >= other.micros
    }

    /// Whether this price is `other` or lower.
    pub fn at_most(&self, other: &Price) -> (r: bool)
        ensures
            r == (self@ <= other@),
    {
        self.micros <= other.micros
    }
}

} // verus!
