//! Small verified text utilities: string comparison against a specification
//! view, and decimal rendering of unsigned integers, both used by the value
//! codec and the export path.

use vstd::prelude::*;

verus! {

/// The decimal digit character for `d` (meaningful for `d < 10`).
pub open spec fn digit_char(d: nat) -> char {
    if d == 0 {
        '0'
    } else if d == 1 {
        '1'
    } else if d == 2 {
        '2'
    } else if d == 3 {
        '3'
    } else if d == 4 {
        '4'
    } else if d == 5 {
        '5'
    } else if d == 6 {
        '6'
    } else if d == 7 {
        '7'
    } else if d == 8 {
        '8'
    } else {
        '9'
    }
}

/// Decimal text of `n`, most significant digit first, without leading
/// zeros (zero itself is the single character '0').
pub open spec fn dec_text(n: nat) -> Seq<char>
    decreases n,
{
    if n < 10 {
        seq![digit_char(n)]
    } else {
        dec_text(n / 10) + seq![digit_char(n % 10)]
    }
}

/// Decimal text of `n` padded with leading zeros to exactly `w` digits;
/// meaningful when `n` has at most `w` digits.
pub open spec fn dec_text_padded(n: nat, w: nat) -> Seq<char>
    decreases w,
{
    if w == 0 {
        Seq::empty()
    } else {
        dec_text_padded(n / 10, (w - 1) as nat) + seq![digit_char(n % 10)]
    }
}

/// True exactly for the ten decimal digit characters.
pub open spec fn is_digit(c: char) -> bool {
    c == '0' || c == '1' || c == '2' || c == '3' || c == '4' || c == '5' || c == '6' || c == '7'
        || c == '8' || c == '9'
}

/// The numeric value of a decimal digit character (meaningful when
/// `is_digit(c)`).
pub open spec fn digit_val(c: char) -> nat {
    if c == '0' {
        0
    } else if c == '1' {
        1
    } else if c == '2' {
        2
    } else if c == '3' {
        3
    } else if c == '4' {
        4
    } else if c == '5' {
        5
    } else if c == '6' {
        6
    } else if c == '7' {
        7
    } else if c == '8' {
        8
    } else {
        9
    }
}

/// True when every character of `s` is a decimal digit.
pub open spec fn all_digits(s: Seq<char>) -> bool {
    forall|i: int| 0 <= i < s.len() ==> is_digit(#[trigger] s[i])
}

/// The number denoted by a sequence of decimal digit characters, most
/// significant first (zero for the empty sequence).
pub open spec fn digits_val(s: Seq<char>) -> nat
    decreases s.len(),
{
    if s.len() == 0 {
        0
    } else {
        10 * digits_val(s.drop_last()) + digit_val(s.last())
    }
}

/// The index of the first occurrence of `c` in `s`, or `s.len()` when `c`
/// does not occur.
pub open spec fn find_char(s: Seq<char>, c: char) -> int
    decreases s.len(),
{
    if s.len() == 0 {
        0
    } else if s[0] == c {
        0
    } else {
        1 + find_char(s.skip(1), c)
    }
}

/// Ten to the power `k`.
pub open spec fn pow10(k: nat) -> nat
    decreases k,
{
    if k == 0 {
        1
    } else {
        10 * pow10((k - 1) as nat)
    }
}

/// `find_char` names the first occurrence: it is in bounds, it holds `c`
/// when in bounds, and nothing before it holds `c`.
pub proof fn lemma_find_char(s: Seq<char>, c: char)
    ensures
        0 <= find_char(s, c) <= s.len(),
        find_char(s, c) < s.len() ==> s[find_char(s, c)] == c,
        forall|i: int| 0 <= i < find_char(s, c) ==> s[i] != c,
    decreases s.len(),
{
    if s.len() == 0 {
    } else if s[0] == c {
    } else {
        lemma_find_char(s.skip(1), c);
        assert forall|i: int| 0 <= i < find_char(s, c) implies s[i] != c by {
            if i > 0 {
                assert(s.skip(1)[i - 1] == s[i]);
            }
        }
        if find_char(s, c) < s.len() {
            assert(s.skip(1)[find_char(s, c) - 1] == s[find_char(s, c)]);
        }
    }
}

/// `find_char` returns `d` when `c` first occurs at `d` (or, with
/// `d == s.len()`, does not occur at all).
pub proof fn lemma_find_char_at(s: Seq<char>, c: char, d: int)
    requires
        0 <= d <= s.len(),
        d < s.len() ==> s[d] == c,
        forall|i: int| 0 <= i < d ==> s[i] != c,
    ensures
        find_char(s, c) == d,
    decreases s.len(),
{
    if s.len() == 0 {
    } else if s[0] == c {
    } else {
        assert(d > 0);
        lemma_find_char_at(s.skip(1), c, d - 1);
    }
}

/// Powers of ten grow with the exponent.
pub proof fn lemma_pow10_le(a: nat, b: nat)
    requires
        a <= b,
    ensures
        pow10(a) <= pow10(b),
    decreases b,
{
    if a < b {
        lemma_pow10_le(a, (b - 1) as nat);
    }
}

/// A digit run of length `n` denotes less than ten to the power `n`.
pub proof fn lemma_digits_val_bound(s: Seq<char>)
    ensures
        digits_val(s) < pow10(s.len()),
    decreases s.len(),
{
    if s.len() > 0 {
        lemma_digits_val_bound(s.drop_last());
    }
}

/// The decimal text of `n` consists of digits, is never empty, and
/// denotes `n` itself.
pub proof fn lemma_dec_text_digits(n: nat)
    ensures
        all_digits(dec_text(n)),
        dec_text(n).len() >= 1,
        digits_val(dec_text(n)) == n,
    decreases n,
{
    if n < 10 {
        assert(dec_text(n).last() == digit_char(n));
        assert(dec_text(n).drop_last() =~= Seq::<char>::empty());
        assert(digits_val(Seq::<char>::empty()) == 0);
        assert(digit_val(digit_char(n)) == n);
    } else {
        lemma_dec_text_digits(n / 10);
        assert(dec_text(n).drop_last() =~= dec_text(n / 10));
        assert(dec_text(n).last() == digit_char(n % 10));
        assert(digit_val(digit_char(n % 10)) == n % 10);
        assert(n == 10 * (n / 10) + n % 10);
        assert forall|i: int| 0 <= i < dec_text(n).len() implies is_digit(
            #[trigger] dec_text(n)[i],
        ) by {
            if i < dec_text(n).len() - 1 {
                assert(dec_text(n)[i] == dec_text(n / 10)[i]);
            }
        }
    }
}

/// The zero-padded decimal text of `n` (with `n` small enough for its
/// width) consists of digits, has exactly that width, and denotes `n`.
pub proof fn lemma_dec_text_padded_digits(n: nat, w: nat)
    requires
        n < pow10(w),
    ensures
        all_digits(dec_text_padded(n, w)),
        dec_text_padded(n, w).len() == w,
        digits_val(dec_text_padded(n, w)) == n,
    decreases w,
{
    if w == 0 {
    } else {
        assert(n == 10 * (n / 10) + n % 10);
        lemma_dec_text_padded_digits(n / 10, (w - 1) as nat);
        assert(dec_text_padded(n, w).drop_last() =~= dec_text_padded(n / 10, (w - 1) as nat));
        assert forall|i: int| 0 <= i < dec_text_padded(n, w).len() implies is_digit(
            #[trigger] dec_text_padded(n, w)[i],
        ) by {
            if i < dec_text_padded(n, w).len() - 1 {
                assert(dec_text_padded(n, w)[i] == dec_text_padded(n / 10, (w - 1) as nat)[i]);
            }
        }
    }
}

/// Character equality on whole views: true exactly when the two strings
/// read as the same character sequence.
pub fn str_eq(a: &str, b: &str) -> (r: bool)
    ensures
        r == (a@ == b@),
{
    let an = a.unicode_len();
    let bn = b.unicode_len();
    if an != bn {
        assert(a@ != b@) by {
            assert(a@.len() != b@.len());
        }
        return false;
    }
    let mut i: usize = 0;
    while i < an
        invariant
            i <= an,
            an == a@.len(),
            an == b@.len(),
            forall|k: int| 0 <= k < i ==> a@[k] == b@[k],
        decreases an - i,
    {
        if a.get_char(i) != b.get_char(i) {
            assert(a@ != b@) by {
                assert(a@[i as int] != b@[i as int]);
            }
            return false;
        }
        i = i + 1;
    }
    proof {
        assert(a@ =~= b@);
    }
    true
}

/// Classifies a character as a decimal digit and gives its value.
pub fn digit_of(c: char) -> (r: Option<u64>)
    ensures
        match r {
            Some(d) => is_digit(c) && d < 10 && d as nat == digit_val(c),
            None => !is_digit(c),
        },
{
    match c {
        '0' => Some(0),
        '1' => Some(1),
        '2' => Some(2),
        '3' => Some(3),
        '4' => Some(4),
        '5' => Some(5),
        '6' => Some(6),
        '7' => Some(7),
        '8' => Some(8),
        '9' => Some(9),
        _ => None,
    }
}

/// Reads the longest run of decimal digits of `s` starting at `from` and
/// accumulates its value, reporting instead that the run's value passed
/// the top of the `i64` range.
pub fn scan_digits(s: &str, from: usize) -> (r: (usize, u128, bool))
    requires
        from <= s@.len(),
    ensures
        ({
            let (end, acc, too_big) = r;
            &&& from <= end <= s@.len()
            &&& forall|i: int| from <= i < end ==> is_digit(#[trigger] s@[i])
            &&& end < s@.len() ==> !is_digit(s@[end as int])
            &&& !too_big ==> acc <= i64::MAX as u128 + 1 && acc as nat == digits_val(
                s@.subrange(from as int, end as int),
            )
            &&& too_big ==> digits_val(s@.subrange(from as int, end as int)) > i64::MAX as u128 + 1
        }),
{
    let n = s.unicode_len();
    let mut j = from;
    let mut acc: u128 = 0;
    let mut too_big = false;
    loop
        invariant
            from <= j <= n,
            n == s@.len(),
            forall|i: int| from <= i < j ==> is_digit(#[trigger] s@[i]),
            !too_big ==> acc <= i64::MAX as u128 + 1 && acc as nat == digits_val(
                s@.subrange(from as int, j as int),
            ),
            too_big ==> digits_val(s@.subrange(from as int, j as int)) > i64::MAX as u128 + 1,
        ensures
            from <= j <= n,
            j < n ==> !is_digit(s@[j as int]),
        decreases n - j,
    {
        if j == n {
            break;
        }
        let c = s.get_char(j);
        match digit_of(c) {
            None => {
                break;
            },
            Some(d) => {
                proof {
                    assert(s@.subrange(from as int, j + 1).drop_last() =~= s@.subrange(
                        from as int,
                        j as int,
                    ));
                    assert(s@.subrange(from as int, j + 1).last() == s@[j as int]);
                }
                if !too_big {
                    let next: u128 = acc * 10 + (d as u128);
                    if next > (i64::MAX as u128) + 1 {
                        too_big = true;
                    } else {
                        acc = next;
                    }
                }
                j = j + 1;
            },
        }
    }
    (j, acc, too_big)
}

/// The signed integer denoted by `s`: an optional sign followed by one or
/// more decimal digits, defined when that number lies in the `i64` range.
pub open spec fn parse_int(s: Seq<char>) -> Option<int> {
    let neg = s.len() > 0 && s[0] == '-';
    let t = if s.len() > 0 && (s[0] == '-' || s[0] == '+') {
        s.skip(1)
    } else {
        s
    };
    if t.len() > 0 && all_digits(t) {
        let v = if neg {
            -(digits_val(t) as int)
        } else {
            digits_val(t) as int
        };
        if i64::MIN <= v <= i64::MAX {
            Some(v)
        } else {
            None
        }
    } else {
        None
    }
}

/// Parses an optionally signed run of decimal digits as an `i64`,
/// rejecting anything else and any number out of range.
pub fn parse_i64(s: &str) -> (r: Option<i64>)
    ensures
        match r {
            Some(v) => parse_int(s@) == Some(v as int),
            None => parse_int(s@) is None,
        },
{
    let n = s.unicode_len();
    if n == 0 {
        return None;
    }
    let c0 = s.get_char(0);
    let neg = c0 == '-';
    let start: usize = if c0 == '-' || c0 == '+' {
        1
    } else {
        0
    };
    let ghost t = if start == 1 {
        s@.skip(1)
    } else {
        s@
    };
    let (end, acc, too_big) = scan_digits(s, start);
    if end == start {
        proof {
            if t.len() > 0 {
                assert(t[0] == s@[start as int]);
            }
        }
        return None;
    }
    if end < n {
        proof {
            assert(t[end - start] == s@[end as int]);
        }
        return None;
    }
    proof {
        assert(t =~= s@.subrange(start as int, n as int));
        assert forall|i: int| 0 <= i < t.len() implies is_digit(#[trigger] t[i]) by {
            assert(t[i] == s@[start + i]);
        }
    }
    if too_big {
        return None;
    }
    if neg {
        if acc > (i64::MAX as u128) + 1 {
            return None;
        }
        Some((-(acc as i128)) as i64)
    } else {
        if acc > (i64::MAX as u128) {
            return None;
        }
        Some(acc as i64)
    }
}

/// The index of the first occurrence of `c` in `s` at or after `from`,
/// or the length of `s` when there is none.
pub fn find_char_from(s: &str, from: usize, c: char) -> (j: usize)
    requires
        from <= s@.len(),
    ensures
        from <= j <= s@.len(),
        forall|i: int| from <= i < j ==> s@[i] != c,
        j < s@.len() ==> s@[j as int] == c,
{
    let n = s.unicode_len();
    let mut j = from;
    while j < n
        invariant
            from <= j <= n,
            n == s@.len(),
            forall|i: int| from <= i < j ==> s@[i] != c,
        decreases n - j,
    {
        if s.get_char(j) == c {
            return j;
        }
        j = j + 1;
    }
    j
}

/// Ten to the power `k` for `k` at most six.
pub fn pow10_u64(k: u64) -> (r: u64)
    requires
        k <= 6,
    ensures
        r as nat == pow10(k as nat),
{
    proof {
        reveal_with_fuel(pow10, 8);
    }
    if k == 0 {
        1
    } else if k == 1 {
        10
    } else if k == 2 {
        100
    } else if k == 3 {
        1000
    } else if k == 4 {
        10000
    } else if k == 5 {
        100000
    } else {
        1000000
    }
}

/// The one-character string for the decimal digit `d`.
pub fn digit_str(d: u64) -> (r: &'static str)
    requires
        d < 10,
    ensures
        r@ == seq![digit_char(d as nat)],
{
    if d == 0 {
        let s = "0";
        proof {
            reveal_strlit("0");
            assert(s@ =~= seq![digit_char(0)]);
        }
        s
    } else if d == 1 {
        let s = "1";
        proof {
            reveal_strlit("1");
            assert(s@ =~= seq![digit_char(1)]);
        }
        s
    } else if d == 2 {
        let s = "2";
        proof {
            reveal_strlit("2");
            assert(s@ =~= seq![digit_char(2)]);
        }
        s
    } else if d == 3 {
        let s = "3";
        proof {
            reveal_strlit("3");
            assert(s@ =~= seq![digit_char(3)]);
        }
        s
    } else if d == 4 {
        let s = "4";
        proof {
            reveal_strlit("4");
            assert(s@ =~= seq![digit_char(4)]);
        }
        s
    } else if d == 5 {
        let s = "5";
        proof {
            reveal_strlit("5");
            assert(s@ =~= seq![digit_char(5)]);
        }
        s
    } else if d == 6 {
        let s = "6";
        proof {
            reveal_strlit("6");
            assert(s@ =~= seq![digit_char(6)]);
        }
        s
    } else if d == 7 {
        let s = "7";
        proof {
            reveal_strlit("7");
            assert(s@ =~= seq![digit_char(7)]);
        }
        s
    } else if d == 8 {
        let s = "8";
        proof {
            reveal_strlit("8");
            assert(s@ =~= seq![digit_char(8)]);
        }
        s
    } else {
        let s = "9";
        proof {
            reveal_strlit("9");
            assert(s@ =~= seq![digit_char(9)]);
        }
        s
    }
}

/// Renders `n` in decimal without leading zeros.
pub fn u64_text(n: u64) -> (r: String)
    ensures
        r@ == dec_text(n as nat),
    decreases n,
{
    if n < 10 {
        String::from_str(digit_str(n))
    } else {
        let mut s = u64_text(n / 10);
        s.append(digit_str(n % 10));
        s
    }
}

/// Renders `n` in decimal padded with leading zeros to exactly `w` digits.
pub fn u64_text_padded(n: u64, w: u64) -> (r: String)
    ensures
        r@ == dec_text_padded(n as nat, w as nat),
    decreases w,
{
    if w == 0 {
        let s = String::new();
        proof {
            assert(s@ =~= dec_text_padded(n as nat, 0));
        }
        s
    } else {
        let mut s = u64_text_padded(n / 10, w - 1);
        s.append(digit_str(n % 10));
        s
    }
}

} // verus!
