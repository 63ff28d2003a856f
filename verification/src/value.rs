//! Fixed-point metric values.
//!
//! A metric value is a signed fixed-point decimal with six fractional
//! digits, held in an `i64` count of millionths. Arithmetic saturates at
//! the ends of the `i64` range, and every operation's exact result is
//! stated in its contract over the mathematical integers.

use vstd::prelude::*;
use crate::text::dec_text;
use crate::text::dec_text_padded;
use crate::text::u64_text;
use crate::text::u64_text_padded;
use crate::text::is_digit;
use crate::text::all_digits;
use crate::text::digits_val;
use crate::text::find_char;
use crate::text::pow10;
use crate::text::lemma_find_char;
use crate::text::lemma_find_char_at;
use crate::text::lemma_pow10_le;
use crate::text::lemma_digits_val_bound;
use crate::text::lemma_dec_text_digits;
use crate::text::lemma_dec_text_padded_digits;
use crate::text::scan_digits;
use crate::text::pow10_u64;

verus! {

/// Number of raw units in one whole unit.
pub const SCALE: i64 = 1000000;

/// Clamps a mathematical integer to the `i64` range.
pub open spec fn sat64(x: int) -> int {
    if x > i64::MAX {
        i64::MAX as int
    } else if x < i64::MIN {
        i64::MIN as int
    } else {
        x
    }
}

/// A fixed-point metric value; its view is the raw count of millionths.
#[derive(Clone, Copy, PartialEq, Eq, Structural)]
pub struct Value {
    raw: i64,
}

impl View for Value {
    type V = int;

    closed spec fn view(&self) -> int {
        self.raw as int
    }
}

/// Every value's view lies in the `i64` range.
pub broadcast proof fn lemma_value_bounds(v: Value)
    ensures
        i64::MIN <= #[trigger] v@ <= i64::MAX,
{
}

impl Value {
    /// The value zero.
    pub fn zero() -> (r: Value)
        ensures
            r@ == 0,
    {
        Value { raw: 0 }
    }

    /// The value one (one whole unit).
    pub fn one() -> (r: Value)
        ensures
            r@ == SCALE,
    {
        Value { raw: SCALE }
    }

    /// The value holding exactly `raw` millionths.
    pub fn from_raw(raw: i64) -> (r: Value)
        ensures
            r@ == raw,
    {
        Value { raw }
    }

    /// The whole number `n`, saturated to the representable range.
    pub fn from_whole(n: i64) -> (r: Value)
        ensures
            r@ == sat64(n * SCALE),
    {
        let wn: i128 = n as i128;
        proof {
            assert(i64::MIN * (SCALE as int) <= wn * (SCALE as int) <= i64::MAX * (SCALE as int))
                by (nonlinear_arith)
                requires
                    i64::MIN <= wn <= i64::MAX,
            ;
        }
        let wide: i128 = wn * (SCALE as i128);
        Value { raw: clamp64(wide) }
    }

    /// The raw count of millionths.
    pub fn raw(self) -> (r: i64)
        ensures
            r == self@,
    {
        self.raw
    }

    /// True exactly when the value is negative.
    pub fn is_negative(self) -> (r: bool)
        ensures
            r == (self@ < 0),
    {
        self.raw < 0
    }

    /// Saturating addition.
    pub fn add(self, d: Value) -> (r: Value)
        ensures
            r@ == sat64(self@ + d@),
    {
        let wide: i128 = (self.raw as i128) + (d.raw as i128);
        Value { raw: clamp64(wide) }
    }

    /// Saturating subtraction.
    pub fn sub(self, d: Value) -> (r: Value)
        ensures
            r@ == sat64(self@ - d@),
    {
        let wide: i128 = (self.raw as i128) - (d.raw as i128);
        Value { raw: clamp64(wide) }
    }

    /// The quotient of two non-negative values as a fixed-point value,
    /// rounded toward zero and saturated at the top of the range.
    pub fn ratio(num: Value, den: Value) -> (r: Value)
        requires
            num@ >= 0,
            den@ > 0,
        ensures
            r@ == sat64((num@ * SCALE) / den@),
    {
        let n: u128 = (num.raw as u128) * (SCALE as u128);
        let d: u128 = den.raw as u128;
        let q: u128 = n / d;
        if q > (i64::MAX as u128) {
            proof {
                assert((num@ * SCALE) / den@ == q) by {
                    assert(n == num@ * SCALE);
                    assert(d == den@);
                }
            }
            Value { raw: i64::MAX }
        } else {
            proof {
                assert((num@ * SCALE) / den@ == q) by {
                    assert(n == num@ * SCALE);
                    assert(d == den@);
                }
                assert(q >= 0);
            }
            Value { raw: q as i64 }
        }
    }
}

/// The fractional digits of `f` (six-digit fixed point, `0 < f < SCALE`)
/// with trailing zero digits removed, as a pair of remaining value and
/// remaining digit count: while the last digit is zero and more than one
/// digit is left, drop it.
pub open spec fn trimmed_frac(f: nat, w: nat) -> (nat, nat)
    decreases w,
{
    if w > 1 && f % 10 == 0 {
        trimmed_frac(f / 10, (w - 1) as nat)
    } else {
        (f, w)
    }
}

/// Decimal text of a non-negative raw value: the whole part, then, if the
/// fractional part is not zero, a point and the fractional digits with
/// trailing zeros removed.
pub open spec fn fixed_text_mag(m: nat) -> Seq<char> {
    let whole = m / (SCALE as nat);
    let frac = m % (SCALE as nat);
    if frac == 0 {
        dec_text(whole)
    } else {
        dec_text(whole) + seq!['.'] + dec_text_padded(trimmed_frac(frac, 6).0, trimmed_frac(frac, 6).1)
    }
}

/// Decimal text of a raw value: a minus sign for negative values, then
/// the text of the magnitude.
pub open spec fn fixed_text(v: int) -> Seq<char> {
    if v < 0 {
        seq!['-'] + fixed_text_mag((-v) as nat)
    } else {
        fixed_text_mag(v as nat)
    }
}

impl Value {
    /// Renders the value as decimal text: an optional minus sign, the
    /// whole part, and the non-zero fractional digits if any.
    pub fn to_text(self) -> (r: String)
        ensures
            r@ == fixed_text(self@),
    {
        let neg = self.raw < 0;
        let mag: u64 = if self.raw < 0 {
            (-(self.raw as i128)) as u64
        } else {
            self.raw as u64
        };
        proof {
            if self.raw < 0 {
                assert(mag as nat == (-(self@)) as nat);
            } else {
                assert(mag as nat == self@ as nat);
            }
        }
        let whole: u64 = mag / 1000000;
        let frac: u64 = mag % 1000000;
        let mut s = if neg {
            let h = String::from_str("-");
            proof {
                reveal_strlit("-");
                assert(h@ =~= seq!['-']);
            }
            h
        } else {
            String::new()
        };
        let wt = u64_text(whole);
        s.append(wt.as_str());
        if frac != 0 {
            let dot = ".";
            proof {
                reveal_strlit(".");
                assert(dot@ =~= seq!['.']);
            }
            s.append(dot);
            let mut f: u64 = frac;
            let mut w: u64 = 6;
            while f % 10 == 0 && w > 1
                invariant
                    1 <= w <= 6,
                    f > 0,
                    trimmed_frac(f as nat, w as nat) == trimmed_frac(frac as nat, 6),
                decreases w,
            {
                f = f / 10;
                w = w - 1;
            }
            let ft = u64_text_padded(f, w);
            s.append(ft.as_str());
            proof {
                assert(trimmed_frac(frac as nat, 6).0 == f as nat);
                assert(trimmed_frac(frac as nat, 6).1 == w as nat);
                assert(s@ =~= fixed_text(self@));
            }
        } else {
            proof {
                assert(s@ =~= fixed_text(self@));
            }
        }
        s
    }
}

/// Grammar of an unsigned fixed-point token: a non-empty digit run, or a
/// non-empty digit run, a point, and one to six fractional digits.
pub open spec fn fixed_body_ok(t: Seq<char>) -> bool {
    let d = find_char(t, '.');
    if d == t.len() {
        t.len() > 0 && all_digits(t)
    } else {
        let whole = t.take(d);
        let frac = t.skip(d + 1);
        whole.len() > 0 && all_digits(whole) && 1 <= frac.len() <= 6 && all_digits(frac)
    }
}

/// The raw (millionths) magnitude denoted by an unsigned fixed-point
/// token (meaningful when `fixed_body_ok(t)`).
pub open spec fn fixed_body_raw(t: Seq<char>) -> int {
    let d = find_char(t, '.');
    if d == t.len() {
        digits_val(t) * SCALE
    } else {
        let frac = t.skip(d + 1);
        digits_val(t.take(d)) * SCALE + digits_val(frac) * pow10((6 - frac.len()) as nat)
    }
}

/// The raw value denoted by a fixed-point token with an optional sign,
/// defined when the token matches the grammar and the value lies in the
/// `i64` range.
pub open spec fn parse_fixed(s: Seq<char>) -> Option<int> {
    let neg = s.len() > 0 && s[0] == '-';
    let t = if s.len() > 0 && (s[0] == '-' || s[0] == '+') {
        s.skip(1)
    } else {
        s
    };
    if fixed_body_ok(t) {
        let v = if neg {
            -fixed_body_raw(t)
        } else {
            fixed_body_raw(t)
        };
        if i64::MIN <= v <= i64::MAX {
            Some(v)
        } else {
            None
        }
    } else {
        None
    }
}

/// Trimming trailing zeros keeps the fraction's value: what remains,
/// scaled back by the dropped digits, is the original fraction, still
/// positive and still within its width.
pub proof fn lemma_trimmed_frac(f: nat, w: nat)
    requires
        1 <= w,
        0 < f < pow10(w),
    ensures
        1 <= trimmed_frac(f, w).1 <= w,
        0 < trimmed_frac(f, w).0 < pow10(trimmed_frac(f, w).1),
        trimmed_frac(f, w).0 * pow10((w - trimmed_frac(f, w).1) as nat) == f,
    decreases w,
{
    if w > 1 && f % 10 == 0 {
        assert(f == 10 * (f / 10));
        assert(f / 10 < pow10((w - 1) as nat));
        lemma_trimmed_frac(f / 10, (w - 1) as nat);
        let f2 = trimmed_frac(f / 10, (w - 1) as nat).0;
        let w2 = trimmed_frac(f / 10, (w - 1) as nat).1;
        assert(pow10((w - w2) as nat) == 10 * pow10((w - 1 - w2) as nat));
        assert(f2 * (10 * pow10((w - 1 - w2) as nat)) == 10 * (f2 * pow10((w - 1 - w2) as nat)))
            by (nonlinear_arith);
        assert(f2 * pow10((w - 1 - w2) as nat) == f / 10);
        assert(f2 * pow10((w - w2) as nat) == 10 * (f / 10));
    } else {
        assert(trimmed_frac(f, w) == (f, w));
        assert(pow10(0) == 1);
        assert(f * pow10((w - w) as nat) == f) by (nonlinear_arith)
            requires
                pow10((w - w) as nat) == 1,
        ;
    }
}

/// The text of a non-negative raw value starts with a digit, matches the
/// fixed-point grammar, and denotes exactly that value.
proof fn lemma_fixed_mag_parses(m: nat)
    ensures
        fixed_text_mag(m).len() > 0,
        is_digit(fixed_text_mag(m)[0]),
        fixed_body_ok(fixed_text_mag(m)),
        fixed_body_raw(fixed_text_mag(m)) == m,
{
    let whole = m / (SCALE as nat);
    let frac = m % (SCALE as nat);
    let wt = dec_text(whole);
    lemma_dec_text_digits(whole);
    assert(pow10(6) == 1000000) by {
        reveal_with_fuel(pow10, 8);
    }
    if frac == 0 {
        let t = fixed_text_mag(m);
        assert(t == wt);
        assert forall|i: int| 0 <= i < t.len() implies t[i] != '.' by {
            assert(is_digit(t[i]));
        }
        lemma_find_char_at(t, '.', t.len() as int);
        vstd::arithmetic::div_mod::lemma_fundamental_div_mod(m as int, SCALE as int);
        assert(digits_val(t) * (SCALE as nat) == m);
    } else {
        lemma_trimmed_frac(frac, 6);
        let f1 = trimmed_frac(frac, 6).0;
        let w1 = trimmed_frac(frac, 6).1;
        lemma_dec_text_padded_digits(f1, w1);
        let ft = dec_text_padded(f1, w1);
        let t = fixed_text_mag(m);
        assert(t == wt + seq!['.'] + ft);
        assert(t.len() == wt.len() + 1 + w1);
        assert forall|i: int| 0 <= i < wt.len() implies t[i] != '.' by {
            assert(t[i] == wt[i]);
            assert(is_digit(wt[i]));
        }
        assert(t[wt.len() as int] == '.');
        lemma_find_char_at(t, '.', wt.len() as int);
        let d = find_char(t, '.');
        assert(t.take(d) =~= wt);
        assert(t.skip(d + 1) =~= ft);
        assert(fixed_body_ok(t));
        assert(fixed_body_raw(t) == digits_val(wt) * SCALE + digits_val(ft) * pow10(
            (6 - w1) as nat,
        ));
        assert(digits_val(ft) * pow10((6 - w1) as nat) == frac);
        assert(whole * (SCALE as nat) + frac == m);
        assert(t[0] == wt[0]);
        assert(is_digit(wt[0]));
    }
}

/// Rendering a value and parsing the text back yields the value again:
/// the reply a caller sees denotes exactly the stored value.
pub proof fn lemma_text_round_trip(v: int)
    requires
        i64::MIN <= v <= i64::MAX,
    ensures
        parse_fixed(fixed_text(v)) == Some(v),
{
    if v < 0 {
        let m = (-v) as nat;
        lemma_fixed_mag_parses(m);
        let s = fixed_text(v);
        assert(s == seq!['-'] + fixed_text_mag(m));
        assert(s[0] == '-');
        assert(s.skip(1) =~= fixed_text_mag(m));
    } else {
        let m = v as nat;
        lemma_fixed_mag_parses(m);
        let s = fixed_text(v);
        assert(s == fixed_text_mag(m));
        assert(is_digit(s[0]));
        assert(s[0] != '-' && s[0] != '+');
    }
}

impl Value {
    /// Parses decimal fixed-point text: an optional sign, a whole part,
    /// and an optional point with up to six fractional digits. Rejects
    /// anything else and any value out of the representable range.
    pub fn parse(s: &str) -> (r: Option<Value>)
        ensures
            match r {
                Some(v) => parse_fixed(s@) == Some(v@),
                None => parse_fixed(s@) is None,
            },
    {
        let n = s.unicode_len();
        if n == 0 {
            return None;
        }
        let c0 = s.get_char(0);
        let neg = c0 == '-';
        let start: usize = if c0 == '-' || c0 == '+' {
            1
        } else {
            0
        };
        let ghost t = if start == 1 {
            s@.skip(1)
        } else {
            s@
        };
        proof {
            assert(t =~= s@.subrange(start as int, n as int));
            lemma_find_char(t, '.');
        }
        let (wend, wacc, wbig) = scan_digits(s, start);
        if wend == start {
            proof {
                if start < n {
                    assert(t[0] == s@[start as int]);
                    let d = find_char(t, '.');
                    if d < t.len() && d > 0 {
                        assert(t.take(d)[0] == t[0]);
                    }
                }
            }
            return None;
        }
        proof {
            assert forall|i: int| 0 <= i < wend - start implies is_digit(#[trigger] t[i]) by {
                assert(t[i] == s@[start + i]);
            }
            assert forall|i: int| 0 <= i < wend - start implies t[i] != '.' by {
                assert(is_digit(t[i]));
            }
        }
        if wend == n {
            proof {
                lemma_find_char_at(t, '.', t.len() as int);
            }
            if wbig {
                proof {
                    lemma_mul_ge(digits_val(t) as int, SCALE as int);
                }
                return None;
            }
            let mag: u128 = wacc * 1000000;
            match signed_mag(neg, mag) {
                Some(raw) => Some(Value { raw }),
                None => None,
            }
        } else {
            let c = s.get_char(wend);
            if c != '.' {
                proof {
                    assert(t[wend - start] == s@[wend as int]);
                    let d = find_char(t, '.');
                    if d < t.len() {
                        // The first point lies past the non-digit, so the
                        // whole part holds that non-digit.
                        assert(d > wend - start);
                        assert(t.take(d)[wend - start] == t[wend - start]);
                    }
                }
                return None;
            }
            proof {
                assert(t[wend - start] == s@[wend as int]);
                lemma_find_char_at(t, '.', wend - start);
            }
            let ghost d = wend - start;
            let ghost frac = t.skip(d + 1);
            proof {
                assert(frac =~= s@.subrange(wend + 1, n as int));
            }
            let (fend, facc, fbig) = scan_digits(s, wend + 1);
            if fend < n {
                proof {
                    assert(frac[fend - (wend + 1)] == s@[fend as int]);
                }
                return None;
            }
            let flen = fend - (wend + 1);
            if flen == 0 {
                return None;
            }
            if flen > 6 {
                return None;
            }
            proof {
                assert forall|i: int| 0 <= i < frac.len() implies is_digit(#[trigger] frac[i]) by {
                    assert(frac[i] == s@[wend + 1 + i]);
                }
                lemma_digits_val_bound(frac);
                lemma_pow10_le(frac.len(), 6);
                assert(pow10(6) == 1000000) by {
                    reveal_with_fuel(pow10, 8);
                }
                assert(!fbig);
                assert(t.take(d) =~= s@.subrange(start as int, wend as int));
            }
            if wbig {
                proof {
                    lemma_mul_ge(digits_val(t.take(d)) as int, SCALE as int);
                }
                return None;
            }
            let fpow = pow10_u64(6 - (flen as u64));
            proof {
                lemma_pow10_le((6 - flen) as nat, 6);
                assert(pow10(6) == 1000000) by {
                    reveal_with_fuel(pow10, 8);
                }
                assert(facc * (fpow as int) < 1000000 * 1000000) by (nonlinear_arith)
                    requires
                        facc < 1000000,
                        fpow <= 1000000,
                ;
            }
            let mag: u128 = wacc * 1000000 + facc * (fpow as u128);
            match signed_mag(neg, mag) {
                Some(raw) => Some(Value { raw }),
                None => None,
            }
        }
    }
}

/// A product of two values at least one apiece is at least either factor.
proof fn lemma_mul_ge(a: int, b: int)
    requires
        a >= 0,
        b >= 1,
    ensures
        a * b >= a,
{
    assert(a * b >= a * 1) by (nonlinear_arith)
        requires
            a >= 0,
            b >= 1,
    ;
}

/// Applies a sign to a magnitude and keeps the result when it lies in the
/// `i64` range.
fn signed_mag(neg: bool, mag: u128) -> (r: Option<i64>)
    ensures
        ({
            let v = if neg {
                -(mag as int)
            } else {
                mag as int
            };
            match r {
                Some(x) => i64::MIN <= v <= i64::MAX && x as int == v,
                None => !(i64::MIN <= v <= i64::MAX),
            }
        }),
{
    if neg {
        if mag > (i64::MAX as u128) + 1 {
            None
        } else {
            Some((-(mag as i128)) as i64)
        }
    } else {
        if mag > (i64::MAX as u128) {
            None
        } else {
            Some(mag as i64)
        }
    }
}

/// Clamps an `i128` into the `i64` range.
fn clamp64(x: i128) -> (r: i64)
    ensures
        r as int == sat64(x as int),
{
    if x > (i64::MAX as i128) {
        i64::MAX
    } else if x < (i64::MIN as i128) {
        i64::MIN
    } else {
        x as i64
    }
}

} // verus!
