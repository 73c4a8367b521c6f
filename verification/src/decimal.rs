//! Exact parsing of non-negative decimal numerals.
//!
//! A scale factor read from a monitor-configuration file or from the
//! settings-query output is a plain decimal numeral such as `2`,
//! `1.5` or `1.7487922906875610`.  It is kept as an exact rational
//! `num / den` with `den` a power of ten, so applying it to a window
//! dimension is an exact integer computation.

use vstd::prelude::*;

use crate::text::first_index_of2;
use crate::text::find_char2;
use crate::text::lemma_first_index_of2;

verus! {

/// Largest admitted numerator / denominator: eighteen decimal digits.
pub const DIGIT_LIMIT: u64 = 1000000000000000000;

/// A decimal digit.
pub open spec fn is_digit(c: char) -> bool {
    '0' <= c && c <= '9'
}

/// Numeric value of a decimal digit.
pub open spec fn digit_val(c: char) -> int {
    c as int - '0' as int
}

/// Every character of the sequence is a decimal digit.
pub open spec fn all_digits(s: Seq<char>) -> bool {
    forall|i: int| 0 <= i < s.len() ==> is_digit(#[trigger] s[i])
}

/// Value of a digit sequence read as a base-ten numeral.
pub open spec fn digits_val(s: Seq<char>) -> int
    decreases s.len(),
{
    if s.len() == 0 {
        0
    } else {
        digits_val(s.drop_last()) * 10 + digit_val(s.last())
    }
}

/// Ten to the power `n`.
pub open spec fn pow10(n: nat) -> nat
    decreases n,
{
    if n == 0 {
        1
    } else {
        10 * pow10((n - 1) as nat)
    }
}

pub proof fn lemma_pow10_pos(n: nat)
    ensures
        pow10(n) >= 1,
    decreases n,
{
    if n > 0 {
        lemma_pow10_pos((n - 1) as nat);
    }
}

pub proof fn lemma_pow10_mono(a: nat, b: nat)
    requires
        a <= b,
    ensures
        pow10(a) <= pow10(b),
    decreases b,
{
    if a < b {
        lemma_pow10_mono(a, (b - 1) as nat);
        lemma_pow10_pos((b - 1) as nat);
    }
}

pub proof fn lemma_pow10_add(a: nat, b: nat)
    ensures
        pow10(a + b) == pow10(a) * pow10(b),
    decreases a,
{
    if a == 0 {
        assert(a + b == b);
        assert(pow10(a) == 1);
        assert(pow10(a) * pow10(b) == pow10(b)) by (nonlinear_arith)
            requires
                pow10(a) == 1,
        ;
    } else {
        let a1 = (a - 1) as nat;
        lemma_pow10_add(a1, b);
        assert((a + b - 1) as nat == a1 + b);
        assert(pow10(a + b) == 10 * pow10(a1 + b));
        assert(10 * (pow10(a1) * pow10(b)) == (10 * pow10(a1)) * pow10(b)) by (nonlinear_arith);
    }
}

/// The value of an eighteen-digit cap.
pub proof fn lemma_pow10_18()
    ensures
        pow10(18) == DIGIT_LIMIT,
{
    reveal_with_fuel(pow10, 19);
    assert(pow10(18) == 1000000000000000000);
}

/// A digit sequence's value is bounded by ten to its length.
pub proof fn lemma_digits_val_bound(s: Seq<char>)
    requires
        all_digits(s),
    ensures
        0 <= digits_val(s) < pow10(s.len()),
    decreases s.len(),
{
    if s.len() == 0 {
    } else {
        let t = s.drop_last();
        assert(all_digits(t));
        lemma_digits_val_bound(t);
        assert(digit_val(s.last()) <= 9);
        assert(digits_val(t) * 10 + 9 < 10 * pow10(t.len())) by (nonlinear_arith)
            requires
                0 <= digits_val(t) < pow10(t.len()),
        ;
    }
}

/// Reading a concatenation of digit sequences: the left part is
/// shifted by ten to the length of the right part.
pub proof fn lemma_digits_val_append(a: Seq<char>, b: Seq<char>)
    ensures
        digits_val(a + b) == digits_val(a) * pow10(b.len()) + digits_val(b),
    decreases b.len(),
{
    if b.len() == 0 {
        assert(a + b =~= a);
        assert(pow10(b.len()) == 1);
        assert(digits_val(a) * pow10(b.len()) == digits_val(a)) by (nonlinear_arith)
            requires
                pow10(b.len()) == 1,
        ;
    } else {
        let b1 = b.drop_last();
        let d = digit_val(b.last());
        lemma_digits_val_append(a, b1);
        assert((a + b).drop_last() =~= a + b1);
        assert((a + b).last() == b.last());
        assert(digits_val(a + b) == digits_val(a + b1) * 10 + d);
        assert(digits_val(b) == digits_val(b1) * 10 + d);
        assert((b.len() - 1) as nat == b1.len());
        assert(pow10(b.len()) == 10 * pow10(b1.len()));
        assert((digits_val(a) * pow10(b1.len()) + digits_val(b1)) * 10 + d == digits_val(a) * (10
            * pow10(b1.len())) + (digits_val(b1) * 10 + d)) by (nonlinear_arith);
    }
}

/// Parse the digits of `s` between positions `from` and `to`.
///
/// Returns the numeral's value, or `None` if a character in the range
/// is not a digit.  An empty range reads as zero.
fn parse_digits(s: &str, from: usize, to: usize) -> (r: Option<u64>)
    requires
        from <= to <= s@.len(),
        to - from <= 18,
    ensures
        match r {
            Some(v) => all_digits(s@.subrange(from as int, to as int)) && v == digits_val(
                s@.subrange(from as int, to as int),
            ),
            None => !all_digits(s@.subrange(from as int, to as int)),
        },
{
    let ghost whole = s@.subrange(from as int, to as int);
    let mut acc: u64 = 0;
    let mut i: usize = from;
    while i < to
        invariant
            from <= i <= to <= s@.len(),
            to - from <= 18,
            whole == s@.subrange(from as int, to as int),
            all_digits(s@.subrange(from as int, i as int)),
            acc == digits_val(s@.subrange(from as int, i as int)),
            acc < pow10((i - from) as nat),
        decreases to - i,
    {
        let c = s.get_char(i);
        if c < '0' || c > '9' {
            proof {
                assert(whole[i - from] == s@[i as int]);
                assert(!is_digit(whole[i - from]));
            }
            return None;
        }
        let d: u64 = (c as u32 - '0' as u32) as u64;
        proof {
            let prev = s@.subrange(from as int, i as int);
            let cur = s@.subrange(from as int, i + 1);
            assert(cur.drop_last() =~= prev);
            assert(cur.last() == s@[i as int]);
            assert(d == digit_val(s@[i as int]));
            lemma_pow10_mono((i - from + 1) as nat, 18);
            lemma_pow10_18();
            assert(acc * 10 + d < pow10((i - from + 1) as nat)) by (nonlinear_arith)
                requires
                    0 <= acc < pow10((i - from) as nat),
                    0 <= d <= 9,
                    pow10((i - from + 1) as nat) == 10 * pow10((i - from) as nat),
            ;
        }
        acc = acc * 10 + d;
        i = i + 1;
    }
    Some(acc)
}

/// What a whole string parses to: `Some((num, den))` exactly when the
/// string is a decimal numeral of at most eighteen digits, `num` the
/// digits' value and `den` ten to the number of fraction digits.
pub open spec fn dec_val(s: Seq<char>) -> Option<(int, int)> {
    match first_index_of2(s, '.', '.') {
        None => if 1 <= s.len() <= 18 && all_digits(s) {
            Some((digits_val(s), 1))
        } else {
            None
        },
        Some(k) => {
            let ip = s.subrange(0, k);
            let fp = s.subrange(k + 1, s.len() as int);
            if 1 <= s.len() - 1 <= 18 && all_digits(ip) && all_digits(fp) {
                Some(
                    (
                        digits_val(ip) * pow10(fp.len()) + digits_val(fp),
                        pow10(fp.len()) as int,
                    ),
                )
            } else {
                None
            }
        },
    }
}

/// A parsed value that is strictly positive; anything else reads as
/// "no number here".
pub open spec fn pos_dec_val(s: Seq<char>) -> Option<(int, int)> {
    match dec_val(s) {
        Some((n, d)) => if n > 0 {
            Some((n, d))
        } else {
            None
        },
        None => None,
    }
}

/// An exact display scale factor `num / den`, with `den` a power of
/// ten.  `num > den` means the display is scaled up.
#[derive(Clone, Copy, PartialEq, Eq, Structural, Debug)]
pub struct ScaleFactor {
    pub num: u64,
    pub den: u64,
}

impl ScaleFactor {
    /// Both parts are positive and at most eighteen digits wide.
    pub open spec fn wf(self) -> bool {
        0 < self.num <= DIGIT_LIMIT && 0 < self.den <= DIGIT_LIMIT
    }

    /// The identity factor: no scaling.
    pub fn identity() -> (r: ScaleFactor)
        ensures
            r.num == 1 && r.den == 1,
            r.wf(),
    {
        ScaleFactor { num: 1, den: 1 }
    }
}

/// Ten to the power `e`, as a machine integer.
fn pow10_u64(e: usize) -> (r: u64)
    requires
        e <= 18,
    ensures
        r == pow10(e as nat),
{
    let mut r: u64 = 1;
    let mut i: usize = 0;
    while i < e
        invariant
            0 <= i <= e <= 18,
            r == pow10(i as nat),
        decreases e - i,
    {
        proof {
            lemma_pow10_mono((i + 1) as nat, 18);
            lemma_pow10_18();
        }
        r = r * 10;
        i = i + 1;
    }
    r
}

/// Parse a strictly positive decimal numeral.
///
/// Mirrors [`pos_dec_val`]: the result is the exact rational value of
/// the string, or `None` when the string is not a numeral of at most
/// eighteen digits or its value is not strictly positive.
pub fn parse_positive_decimal(s: &str) -> (r: Option<ScaleFactor>)
    ensures
        match r {
            Some(f) => pos_dec_val(s@) == Some((f.num as int, f.den as int)) && f.wf(),
            None => pos_dec_val(s@) is None,
        },
{
    let n = s.unicode_len();
    proof {
        lemma_pow10_18();
    }
    match find_char2(s, '.', '.') {
        None => {
            if n < 1 || n > 18 {
                return None;
            }
            proof {
                assert(s@.subrange(0, n as int) =~= s@);
            }
            match parse_digits(s, 0, n) {
                None => None,
                Some(v) => {
                    proof {
                        lemma_digits_val_bound(s@);
                        lemma_pow10_mono(s@.len(), 18);
                    }
                    if v > 0 {
                        Some(ScaleFactor { num: v, den: 1 })
                    } else {
                        None
                    }
                },
            }
        },
        Some(k) => {
            proof {
                lemma_first_index_of2(s@, '.', '.');
            }
            if n < 2 || n - 1 > 18 {
                return None;
            }
            let ghost ip = s@.subrange(0, k as int);
            let ghost fp = s@.subrange(k + 1, n as int);
            let a = match parse_digits(s, 0, k) {
                None => {
                    return None;
                },
                Some(a) => a,
            };
            let b = match parse_digits(s, k + 1, n) {
                None => {
                    return None;
                },
                Some(b) => b,
            };
            let f = n - 1 - k;
            let den = pow10_u64(f);
            proof {
                lemma_digits_val_bound(ip);
                lemma_digits_val_bound(fp);
                lemma_pow10_add(ip.len(), fp.len());
                lemma_pow10_mono((n - 1) as nat, 18);
                assert(a * den + b < pow10(ip.len()) * pow10(fp.len())) by (nonlinear_arith)
                    requires
                        0 <= a < pow10(ip.len()),
                        0 <= b < pow10(fp.len()),
                        den == pow10(fp.len()),
                ;
                lemma_pow10_pos(fp.len());
                lemma_pow10_mono(fp.len(), 18);
            }
            let num = a * den + b;
            if num > 0 {
                Some(ScaleFactor { num, den })
            } else {
                None
            }
        },
    }
}

/// One dimension scaled by `num / den`, truncated toward zero, and
/// capped at the largest representable value.
pub open spec fn scaled_spec(w: int, num: int, den: int) -> int {
    let q = (w * num) / den;
    if q > u32::MAX {
        u32::MAX as int
    } else {
        q
    }
}

/// Apply a scale factor to one window dimension.
pub fn scale_dim(w: u32, f: ScaleFactor) -> (r: u32)
    requires
        f.wf(),
    ensures
        r == scaled_spec(w as int, f.num as int, f.den as int),
{
    proof {
        assert((w as int) * (f.num as int) <= (u32::MAX as int) * (DIGIT_LIMIT as int))
            by (nonlinear_arith)
            requires
                0 <= w <= u32::MAX,
                0 < f.num <= DIGIT_LIMIT,
        ;
        assert((w as int) * (f.num as int) >= 0) by (nonlinear_arith)
            requires
                0 <= w,
                0 < f.num,
        ;
    }
    let p: u128 = (w as u128) * (f.num as u128);
    let q: u128 = p / (f.den as u128);
    if q > (u32::MAX as u128) {
        u32::MAX
    } else {
        q as u32
    }
}

} // verus!
