//! Sizes and percentages as the scan scripts print them: read as
//! `f64::from_str` reads text, compared with whole-number limits, and
//! written rounded to one decimal place as `{:.1}` writes them.
//!
//! A reading is an optional sign, then `inf`, `infinity` or `nan` in any
//! case, or digits with an optional point (at least one digit in all) and
//! an optional exponent (`e` or `E`, an optional sign, digits). Infinity is
//! above every limit where positive and below every limit where negative,
//! and is written `inf` or `-inf`; `NaN` is neither above nor below any
//! limit and is written `NaN`.
//!
//! A finite number is kept as its exact decimal digits, with no floating
//! point, and each answer is worked out in whole-number arithmetic for the
//! `f64` nearest to it, the one that `f64::from_str` gives:
//! - a comparison with a whole-number limit below `2^32` asks on which side
//!   of the midpoint between the limit and the next `f64` the number lies
//!   (ties go to the even mantissa, which the limit has);
//! - a number is written as `{:.1}` writes that `f64`: its exact value
//!   rounded to tenths, ties to the even tenth;
//! - a number is infinite from `2^1024 - 2^970` on, where a float
//!   overflows, and a number at most `2^-1075` in size is zero.

use vstd::prelude::*;
use crate::number::{
    all_digits, decimal, digit_char, digit_char_exec, digit_value, digits_value, is_digit,
    lemma_decimal, lemma_digit_char, lemma_digits_push, push_decimal, read_digits, read_sign,
    sign_and_body,
};
use crate::text::{
    ascii_fold, eq_ignore_ascii_case, eq_ignore_case, first_at, split_once, split_once_chars,
    sub_chars,
};

verus! {

/// Some digit of `s` is not `0`.
pub open spec fn has_nonzero(s: Seq<char>) -> bool {
    exists|i: int| 0 <= i < s.len() && s[i] != '0'
}

/// The number of binary digits of `n`.
pub open spec fn bit_len(n: nat) -> nat
    decreases n,
{
    if n == 0 {
        0
    } else {
        1 + bit_len(n / 2)
    }
}

/// For a whole number `limit` below `2^32`, the `j` for which `2^-j` is
/// half the gap from `limit` up to the next `f64`: that gap is `2^(b - 53)`
/// for a limit of `b` binary digits, and the least subnormal `2^-1074`
/// above zero.
pub open spec fn half_gap_above(limit: nat) -> nat {
    if limit == 0 {
        1075
    } else {
        (54 - bit_len(limit)) as nat
    }
}

/// For a whole number `limit` from one to `2^32`, the `j` for which `2^-j`
/// is half the gap from `limit` down to the `f64` before it, a gap half as
/// wide as the one above where `limit` is a power of two.
pub open spec fn half_gap_below(limit: nat) -> nat {
    if vstd::arithmetic::power2::pow2((bit_len(limit) - 1) as nat) == limit {
        (55 - bit_len(limit)) as nat
    } else {
        (54 - bit_len(limit)) as nat
    }
}

/// The fraction with the digits `f` after the point against `2^-j`: the
/// sign of their difference.
pub open spec fn frac_against(f: Seq<char>, j: nat) -> int {
    sign_of(
        digits_value(f) as int * vstd::arithmetic::power2::pow2(j) as int,
        ten_pow(f.len()) as int,
    )
}

/// The fraction with the digits `f` after the point against `1 - 2^-j`:
/// the sign of their difference.
pub open spec fn frac_against_rest(f: Seq<char>, j: nat) -> int {
    sign_of(
        digits_value(f) as int * vstd::arithmetic::power2::pow2(j) as int,
        (vstd::arithmetic::power2::pow2(j) as int - 1) * ten_pow(f.len()) as int,
    )
}

/// The number `d`, held as the nearest `f64`, is greater than the whole
/// number `limit` (below `2^32`, an `f64` with an even mantissa): it is not
/// negative, and its whole part is greater, or equal with a fraction past
/// half the gap to the next `f64` (at exactly half the `f64` is `limit`).
pub open spec fn digits_above(d: (bool, Seq<char>, Seq<char>), limit: nat) -> bool {
    !d.0 && (digits_value(d.1) > limit || (digits_value(d.1) == limit && frac_against(
        d.2,
        half_gap_above(limit),
    ) == 1))
}

/// The number `d`, held as the nearest `f64`, is less than the whole number
/// `limit` (below `2^32`): a negative number where the limit is positive or
/// it is not rounded to zero, past half the least subnormal; otherwise its
/// whole part is at most `limit - 2`, or `limit - 1` with a fraction short
/// of half the gap below `limit`.
pub open spec fn digits_below(d: (bool, Seq<char>, Seq<char>), limit: nat) -> bool {
    if d.0 {
        limit > 0 || digits_value(d.1) > 0 || frac_against(d.2, 1075) == 1
    } else {
        limit > 0 && (digits_value(d.1) + 1 < limit || (digits_value(d.1) + 1 == limit
            && frac_against_rest(d.2, half_gap_below(limit)) == -1))
    }
}

/// The first digit after the point, or zero where there is none.
pub open spec fn tenths_digit(frac: Seq<char>) -> nat {
    if frac.len() > 0 {
        digit_value(frac[0])
    } else {
        0
    }
}

/// The number of doublings that bring `v` to at least `20 * 2^52`.
pub open spec fn mantissa_shift(v: nat) -> nat
    decreases 90071992547409920 - v,
{
    if v == 0 || v >= 90071992547409920 {
        0
    } else if 2 * v >= 90071992547409920 {
        1
    } else {
        1 + mantissa_shift(2 * v)
    }
}

/// The magnitude `w.f` against `c / 2^j`: the sign of their difference.
pub open spec fn against_binary(w: Seq<char>, f: Seq<char>, j: nat, c: int) -> int {
    sign_of(
        digits_value(w + f) as int * vstd::arithmetic::power2::pow2(j) as int,
        c * ten_pow(f.len()) as int,
    )
}

/// Whether the magnitude `w.f`, `t` tenths and more and below `2^48`, is
/// written as `t + 1` tenths. The `f64` nearest to it lies within `2^-6`
/// of it and so is written `t` or `t + 1` tenths as it lies below or above
/// the half point `k / 20`, `k = 2t + 1`. With `s` the
/// doublings that bring `k` to `20 * 2^52` and `m` the `20`ths of the
/// doubled `k`, rounded down, the `f64`s next to the half point are
/// `m / 2^s` and `(m + 1) / 2^s`: the nearest `f64` is above it where the
/// magnitude passes their midpoint, or reaches it with `m` odd (ties go to
/// the even mantissa). Where the half point is the `f64` `m / 2^s` itself,
/// a magnitude that stays within the midpoints on both sides is held as
/// the half point, which goes to the even tenth.
pub open spec fn rounds_up(w: Seq<char>, f: Seq<char>) -> bool {
    let t = digits_value(w) * 10 + tenths_digit(f);
    let k = 2 * t + 1;
    if k < 5629499534213120 {
        let s = mantissa_shift(k);
        let v = k * vstd::arithmetic::power2::pow2(s);
        let m = v / 20;
        let hi = against_binary(w, f, s + 1, (2 * m + 1) as int);
        let lo = against_binary(w, f, s + 1, 2 * m as int - 1);
        if hi == 1 || (hi == 0 && m % 2 == 1) {
            true
        } else if v % 20 != 0 || lo == -1 || (lo == 0 && m % 2 == 1) {
            false
        } else {
            t % 2 == 1
        }
    } else {
        false
    }
}

/// `a / b` rounded to a whole number, ties to even.
pub open spec fn round_half_even(a: nat, b: nat) -> nat {
    let q = a / b;
    let r = a % b;
    if 2 * r > b || (2 * r == b && q % 2 == 1) {
        q + 1
    } else {
        q
    }
}

/// For a magnitude `w.f` with a whole part from `2^48` to below `2^53`, the
/// tenths that the nearest `f64` is written as: with `s` the doublings that
/// bring the whole part to 53 binary digits, the mantissa is `w.f * 2^s`
/// rounded to a whole number, ties to even; the `f64` is the mantissa over
/// `2^s`, and its tenths are rounded the same way.
pub open spec fn upper_tenths(w: Seq<char>, f: Seq<char>) -> nat {
    let s = (53 - bit_len(digits_value(w))) as nat;
    let m = round_half_even(
        digits_value(w + f) * vstd::arithmetic::power2::pow2(s),
        ten_pow(f.len()),
    );
    round_half_even(10 * m, vstd::arithmetic::power2::pow2(s))
}

/// Five to the power `n`.
pub open spec fn five_pow(n: nat) -> nat
    decreases n,
{
    if n == 0 {
        1
    } else {
        5 * five_pow((n - 1) as nat)
    }
}

/// For a magnitude `w.f` with a whole part of `2^53` or more, the tenths
/// that the nearest `f64` is written as: with `e` the binary digits of the
/// whole part beyond 53, the mantissa is `w.f / 2^e` rounded to a whole
/// number, ties to even, and the `f64` is the whole number mantissa times
/// `2^e`.
pub open spec fn huge_tenths(w: Seq<char>, f: Seq<char>) -> nat {
    let e = (bit_len(digits_value(w)) - 53) as nat;
    let m = round_half_even(
        digits_value(w + f),
        ten_pow(f.len()) * vstd::arithmetic::power2::pow2(e),
    );
    10 * m * vstd::arithmetic::power2::pow2(e)
}

/// The magnitude `whole.frac` rounded to a whole number of tenths.
pub open spec fn rounded_tenths(whole: Seq<char>, frac: Seq<char>) -> nat {
    let t = digits_value(whole) * 10 + tenths_digit(frac);
    if 281474976710656 <= digits_value(whole) < 9007199254740992 {
        upper_tenths(whole, frac)
    } else if digits_value(whole) >= 9007199254740992 {
        huge_tenths(whole, frac)
    } else if rounds_up(whole, frac) {
        t + 1
    } else {
        t
    }
}

/// `d` as `{:.1}` writes it: a `-` where negative, the whole part, a point
/// and one digit.
pub open spec fn format_digits_spec(d: (bool, Seq<char>, Seq<char>)) -> Seq<char> {
    let r = rounded_tenths(d.1, d.2);
    let body = decimal(r / 10).push('.').push(digit_char(r % 10));
    if d.0 {
        seq!['-'] + body
    } else {
        body
    }
}

/// The digit after `c`.
pub open spec fn next_digit(c: char) -> char {
    (c as u32 + 1) as char
}

/// The digits of the number one greater than the one `s` writes.
pub open spec fn increment_digits(s: Seq<char>) -> Seq<char>
    decreases s.len(),
{
    if s.len() == 0 {
        seq!['1']
    } else if s.last() as u32 != 57 {
        s.drop_last().push(next_digit(s.last()))
    } else {
        increment_digits(s.drop_last()).push('0')
    }
}

/// `s` writes a number without leading zeros.
pub open spec fn canonical(s: Seq<char>) -> bool {
    s.len() == 1 || (s.len() > 1 && s[0] as u32 != 48)
}

/// `n` zero digits.
pub open spec fn zeros(n: nat) -> Seq<char> {
    Seq::new(n, |k: int| '0')
}

/// A digit, written back from its value, is itself.
proof fn lemma_digit_round_trip(c: char)
    requires
        is_digit(c),
    ensures
        digit_char(digit_value(c)) == c,
{
}

/// The value of a single digit.
proof fn lemma_single_digit(c: char)
    ensures
        digits_value(seq![c]) == digit_value(c),
{
    assert(seq![c].drop_last() =~= Seq::<char>::empty());
    assert(digits_value(Seq::<char>::empty()) == 0);
    assert(seq![c].last() == c);
}

/// Digits that are all zeros write zero.
proof fn lemma_all_zeros(s: Seq<char>)
    requires
        forall|j: int| 0 <= j < s.len() ==> s[j] as u32 == 48,
    ensures
        digits_value(s) == 0,
    decreases s.len(),
{
    if s.len() > 0 {
        lemma_all_zeros(s.drop_last());
    }
}

/// Leading zeros do not change the value.
proof fn lemma_leading_zeros(s: Seq<char>, k: int)
    requires
        0 <= k <= s.len(),
        forall|j: int| 0 <= j < k ==> s[j] as u32 == 48,
    ensures
        digits_value(s) == digits_value(s.skip(k)),
    decreases s.len(),
{
    if k == s.len() {
        lemma_all_zeros(s);
        assert(s.skip(k) =~= Seq::<char>::empty());
    } else {
        lemma_leading_zeros(s.drop_last(), k);
        assert(s.skip(k).drop_last() =~= s.drop_last().skip(k));
    }
}

/// Digits that begin with a non-zero digit write at least one.
proof fn lemma_positive(s: Seq<char>)
    requires
        all_digits(s),
        s.len() >= 1,
        s[0] as u32 != 48,
    ensures
        digits_value(s) >= 1,
    decreases s.len(),
{
    assert(is_digit(s[0]));
    if s.len() == 1 {
        lemma_single_digit(s[0]);
        assert(s =~= seq![s[0]]);
    } else {
        let p = s.drop_last();
        assert(p[0] == s[0]);
        assert(all_digits(p)) by {
            assert forall|i: int| 0 <= i < p.len() implies #[trigger] is_digit(p[i]) by {
                assert(p[i] == s[i]);
            }
        }
        lemma_positive(p);
    }
}

/// Digits without leading zeros are the decimal form of their value.
proof fn lemma_canonical_decimal(c: Seq<char>)
    requires
        all_digits(c),
        canonical(c),
    ensures
        decimal(digits_value(c)) == c,
    decreases c.len(),
{
    if c.len() == 1 {
        lemma_single_digit(c[0]);
        lemma_digit_round_trip(c[0]);
        assert(c =~= seq![c[0]]);
        let d = digit_value(c[0]);
        assert(is_digit(c[0]));
        assert(d < 10);
        assert(decimal(d) == seq![digit_char(d)]);
    } else {
        let p = c.drop_last();
        assert(p[0] == c[0]);
        assert(all_digits(p)) by {
            assert forall|i: int| 0 <= i < p.len() implies #[trigger] is_digit(p[i]) by {
                assert(p[i] == c[i]);
            }
        }
        assert(is_digit(c.last()));
        lemma_positive(p);
        lemma_canonical_decimal(p);
        lemma_digit_round_trip(c.last());
        let v = digits_value(c);
        assert(v == digits_value(p) * 10 + digit_value(c.last()));
        assert(v / 10 == digits_value(p));
        assert(v % 10 == digit_value(c.last()));
        assert(v >= 10);
        assert(decimal(v) == decimal(v / 10).push(digit_char(v % 10)));
        assert(c =~= p.push(c.last()));
    }
}

/// Incrementing the digits adds one to their value and keeps them free of
/// leading zeros.
proof fn lemma_increment(s: Seq<char>)
    requires
        all_digits(s),
    ensures
        all_digits(increment_digits(s)),
        digits_value(increment_digits(s)) == digits_value(s) + 1,
        increment_digits(s).len() >= 1,
        s.len() == 0 || canonical(s) ==> canonical(increment_digits(s)),
    decreases s.len(),
{
    let r = increment_digits(s);
    if s.len() == 0 {
        lemma_single_digit('1');
        assert(is_digit(r[0]));
    } else {
        let p = s.drop_last();
        let c = s.last();
        assert(s =~= p.push(c));
        assert(is_digit(c));
        assert(all_digits(p)) by {
            assert forall|i: int| 0 <= i < p.len() implies #[trigger] is_digit(p[i]) by {
                assert(p[i] == s[i]);
            }
        }
        lemma_digits_push(p, c);
        if c as u32 != 57 {
            assert(next_digit(c) == digit_char(digit_value(c) + 1));
            lemma_digit_char(digit_value(c) + 1);
            lemma_digits_push(p, next_digit(c));
            assert forall|i: int| 0 <= i < r.len() implies #[trigger] is_digit(r[i]) by {
                if i < p.len() {
                    assert(r[i] == s[i]);
                }
            }
        } else {
            lemma_increment(p);
            let q = increment_digits(p);
            lemma_digits_push(q, '0');
            assert forall|i: int| 0 <= i < r.len() implies #[trigger] is_digit(r[i]) by {
                if i < q.len() {
                    assert(r[i] == q[i]);
                }
            }
            if q.len() == 1 {
                lemma_single_digit(q[0]);
                assert(q =~= seq![q[0]]);
            }
            assert(r[0] == q[0]);
        }
    }
}

/// Incrementing digits that end in nines turns the nines to zeros and
/// increments what comes before them.
proof fn lemma_increment_nines(s: Seq<char>, i: int, n: int)
    requires
        0 <= i <= n <= s.len(),
        forall|k: int| i <= k < n ==> s[k] as u32 == 57,
    ensures
        increment_digits(s.take(n)) == increment_digits(s.take(i)) + zeros((n - i) as nat),
    decreases n - i,
{
    if n == i {
        assert(increment_digits(s.take(i)) + zeros(0) =~= increment_digits(s.take(i)));
    } else {
        lemma_increment_nines(s, i, n - 1);
        assert(s.take(n).drop_last() =~= s.take(n - 1));
        assert(increment_digits(s.take(i)) + zeros((n - 1 - i) as nat) + seq!['0']
            =~= increment_digits(s.take(i)) + zeros((n - i) as nat));
    }
}

/// The digits of the number one greater than the one `c` writes.
fn increment(c: &Vec<char>) -> (r: Vec<char>)
    requires
        all_digits(c@),
    ensures
        r@ == increment_digits(c@),
{
    let n = c.len();
    let mut i = n;
    while i > 0 && c[i - 1] as u32 == 57
        invariant
            i <= n,
            n == c@.len(),
            all_digits(c@),
            forall|k: int| i <= k < n ==> c@[k] as u32 == 57,
        decreases i,
    {
        i = i - 1;
    }
    proof {
        lemma_increment_nines(c@, i as int, n as int);
        assert(c@.take(n as int) =~= c@);
    }
    let mut r: Vec<char>;
    if i == 0 {
        r = vec!['1'];
        assert(c@.take(0) =~= Seq::<char>::empty());
        assert(r@ =~= seq!['1']);
    } else {
        r = sub_chars(c, 0, i - 1);
        let d = c[i - 1];
        assert(is_digit(d));
        let nd = digit_char_exec((d as u32 - 48 + 1) as u64);
        proof {
            lemma_digit_char((digit_value(d) + 1) as nat);
        }
        assert(nd == next_digit(d));
        r.push(nd);
        assert(c@.take(i as int).drop_last() =~= c@.subrange(0, i - 1));
        assert(r@ =~= increment_digits(c@.take(i as int)));
    }
    let ghost base = r@;
    let mut k = i;
    while k < n
        invariant
            i <= k <= n,
            r@ == base + zeros((k - i) as nat),
        decreases n - k,
    {
        r.push('0');
        assert(base + zeros((k - i) as nat) + seq!['0'] =~= base + zeros((k + 1 - i) as nat));
        k = k + 1;
    }
    r
}

/// After `s = mantissa_shift(k)` doublings, at most 57, `k * 2^s` lands in
/// `[20 * 2^52, 40 * 2^52)`.
proof fn lemma_mantissa_shift(k: nat)
    requires
        1 <= k < 180143985094819840,
    ensures
        90071992547409920 <= k * vstd::arithmetic::power2::pow2(mantissa_shift(k)) < 180143985094819840,
        mantissa_shift(k) <= 57,
    decreases 90071992547409920 - k,
{
    vstd::arithmetic::power2::lemma2_to64();
    vstd::arithmetic::power2::lemma2_to64_rest();
    let s = mantissa_shift(k);
    if k >= 90071992547409920 {
        assert(s == 0);
        let one = vstd::arithmetic::power2::pow2(s);
        assert(one == 1);
        assert(k * one == k) by (nonlinear_arith)
            requires
                one == 1,
        ;
    } else if 2 * k >= 90071992547409920 {
        assert(s == 1);
        assert(k * vstd::arithmetic::power2::pow2(s) == 2 * k);
    } else {
        lemma_mantissa_shift(2 * k);
        let s2 = mantissa_shift(2 * k);
        assert(s == 1 + s2);
        vstd::arithmetic::power2::lemma_pow2_unfold(s);
        let q = vstd::arithmetic::power2::pow2(s2);
        assert(k * (2 * q) == (2 * k) * q) by (nonlinear_arith);
        assert(k * vstd::arithmetic::power2::pow2(s) == (2 * k) * q);
    }
    let q = vstd::arithmetic::power2::pow2(s);
    assert(q <= k * q) by (nonlinear_arith)
        requires
            k >= 1,
    ;
    if s > 57 {
        vstd::arithmetic::power2::lemma_pow2_strictly_increases(57, s);
    }
}

/// Digits written after others scale the first by ten to their count.
proof fn lemma_concat_value(a: Seq<char>, b: Seq<char>)
    ensures
        digits_value(a + b) as int == digits_value(a) as int * ten_pow(b.len()) as int
            + digits_value(b) as int,
    decreases b.len(),
{
    if b.len() == 0 {
        assert(a + b =~= a);
        assert(ten_pow(0) == 1);
    } else {
        let b2 = b.drop_last();
        lemma_concat_value(a, b2);
        assert((a + b).drop_last() =~= a + b2);
        assert((a + b).last() == b.last());
        assert(ten_pow(b.len()) == 10 * ten_pow(b2.len()));
        let x = digits_value(a) as int;
        let y = ten_pow(b2.len()) as int;
        assert(x * y * 10 == x * (10 * y)) by (nonlinear_arith);
    }
}

/// The digits of `c` followed by `n` zeros, for `c` at least one.
fn decimal_shifted(c: u64, n: usize) -> (r: Vec<char>)
    requires
        c >= 1,
    ensures
        all_digits(r@),
        canonical(r@),
        digits_value(r@) as int == c as int * ten_pow(n as nat) as int,
{
    let mut p: Vec<char> = Vec::new();
    push_decimal(&mut p, c);
    proof {
        assert(p@ =~= decimal(c as nat));
        lemma_decimal(c as nat);
        lemma_decimal_canonical(c as nat);
    }
    let r = concat(&p, &zero_digits(n));
    proof {
        lemma_append_zeros(p@, n as nat);
        assert forall|i: int| 0 <= i < r@.len() implies #[trigger] is_digit(r@[i]) by {
            if i < p@.len() {
                assert(r@[i] == p@[i]);
            } else {
                assert(r@[i] == zeros(n as nat)[i - p@.len()]);
            }
        }
        if r@.len() > 1 {
            assert(r@[0] == p@[0]);
        }
    }
    r
}

/// `rounds_up(whole, frac)`, where `core` writes the whole tenths.
fn rounds_up_exec(whole: &Vec<char>, frac: &Vec<char>, core: &Vec<char>) -> (r: bool)
    requires
        all_digits(whole@),
        all_digits(frac@),
        all_digits(core@),
        core@.len() >= 1,
        digits_value(core@) == digits_value(whole@) * 10 + tenths_digit(frac@),
        digits_value(whole@) < 281474976710656,
    ensures
        r == rounds_up(whole@, frac@),
{
    let (_, read) = read_digits(core, 0, core.len(), 2814749767106559);
    assert(core@.subrange(0, core@.len() as int) =~= core@);
    match read {
        None => {
            assert(tenths_digit(frac@) <= 9) by {
                if frac@.len() > 0 {
                    assert(is_digit(frac@[0]));
                }
            }
            assert(false);
            false
        },
        Some(t) => {
            let k: u64 = (2 * t + 1) as u64;
            proof {
                lemma_mantissa_shift(k as nat);
                vstd::arithmetic::power2::lemma2_to64();
            }
            let mut v: u64 = k;
            let mut s: u64 = 0;
            while v < 90071992547409920
                invariant
                    1 <= k <= v < 180143985094819840,
                    s + mantissa_shift(v as nat) == mantissa_shift(k as nat),
                    mantissa_shift(k as nat) <= 57,
                    v == k * vstd::arithmetic::power2::pow2(s as nat),
                decreases 180143985094819840 - v,
            {
                proof {
                    vstd::arithmetic::power2::lemma_pow2_unfold((s + 1) as nat);
                    let q = vstd::arithmetic::power2::pow2(s as nat);
                    assert(k * (2 * q) == 2 * (k * q)) by (nonlinear_arith);
                }
                v = 2 * v;
                s = s + 1;
            }
            let m = v / 20;
            assert(m >= 1);
            let wf = concat(whole, frac);
            proof {
                assert(all_digits(wf@)) by {
                    assert forall|i: int| 0 <= i < wf@.len() implies #[trigger] is_digit(wf@[i]) by {
                        if i < whole@.len() {
                            assert(wf@[i] == whole@[i]);
                        } else {
                            assert(wf@[i] == frac@[i - whole@.len()]);
                        }
                    }
                }
            }
            let a = times_pow2(&strip_zeros(&wf), s + 1);
            let hi = compare_digits(&a, &decimal_shifted(2 * m + 1, frac.len()));
            if hi == 1 || (hi == 0 && m % 2 == 1) {
                return true;
            }
            if v % 20 != 0 {
                return false;
            }
            let lo = compare_digits(&a, &decimal_shifted(2 * m - 1, frac.len()));
            if lo == -1 || (lo == 0 && m % 2 == 1) {
                false
            } else {
                t % 2 == 1
            }
        },
    }
}

/// A number is below two to the power of its count of binary digits.
proof fn lemma_below_pow2_bit_len(x: nat)
    ensures
        x < vstd::arithmetic::power2::pow2(bit_len(x)),
    decreases x,
{
    vstd::arithmetic::power2::lemma2_to64();
    if x > 0 {
        lemma_below_pow2_bit_len(x / 2);
        vstd::arithmetic::power2::lemma_pow2_unfold(bit_len(x));
        assert(bit_len(x) - 1 == bit_len(x / 2));
    }
}

/// The number of binary digits of `n`.
fn bit_len_u64(n: u64) -> (r: u64)
    ensures
        r == bit_len(n as nat),
        r <= 64,
{
    proof {
        vstd::arithmetic::power2::lemma2_to64();
        lemma_bit_len_bound(n as nat, 64);
    }
    let mut x = n;
    let mut b: u64 = 0;
    while x > 0
        invariant
            b + bit_len(x as nat) == bit_len(n as nat),
            bit_len(n as nat) <= 64,
        decreases x,
    {
        x = x / 2;
        b = b + 1;
    }
    b
}

/// `upper_tenths(whole, frac)`, where `wv` is the whole part.
fn upper_tenths_exec(whole: &Vec<char>, frac: &Vec<char>, wv: u64) -> (r: u64)
    requires
        all_digits(whole@),
        all_digits(frac@),
        wv == digits_value(whole@),
        281474976710656 <= wv < 9007199254740992,
    ensures
        r == upper_tenths(whole@, frac@),
{
    proof {
        vstd::arithmetic::power2::lemma2_to64();
        vstd::arithmetic::power2::lemma2_to64_rest();
        lemma_bit_len_bound(wv as nat, 53);
        lemma_below_pow2_bit_len(wv as nat);
    }
    let b = bit_len_u64(wv);
    let s: u64 = 53 - b;
    let wf = concat(whole, frac);
    assert(all_digits(wf@)) by {
        assert forall|i: int| 0 <= i < wf@.len() implies #[trigger] is_digit(wf@[i]) by {
            if i < whole@.len() {
                assert(wf@[i] == whole@[i]);
            } else {
                assert(wf@[i] == frac@[i - whole@.len()]);
            }
        }
    }
    let sc = times_pow2(&strip_zeros(&wf), s);
    let q = frac.len();
    let ghost n = digits_value(wf@) as int;
    let ghost fv = digits_value(frac@) as int;
    let ghost tq = ten_pow(q as nat) as int;
    let ghost ps = vstd::arithmetic::power2::pow2(s as nat) as int;
    let ghost pb = vstd::arithmetic::power2::pow2(b as nat) as int;
    let ghost w = wv as int;
    proof {
        lemma_concat_value(whole@, frac@);
        lemma_digits_bounds(frac@);
        lemma_digits_bounds(sc@);
        vstd::arithmetic::power2::lemma_pow2_pos(s as nat);
        vstd::arithmetic::power2::lemma_pow2_adds(b as nat, s as nat);
        lemma_ten_pow_grows(0, q as nat);
        assert(n == w * tq + fv);
        assert(w * tq + fv >= tq && (w * tq + fv) * ps >= w * tq + fv) by (nonlinear_arith)
            requires
                w >= 1,
                fv >= 0,
                tq >= 1,
                ps >= 1,
        ;
        if sc@.len() <= q {
            lemma_ten_pow_grows(sc@.len(), q as nat);
        }
    }
    let cut = sc.len() - q;
    let a = sub_chars(&sc, 0, cut);
    let rest = sub_chars(&sc, cut, sc.len());
    let ghost va = digits_value(a@) as int;
    let ghost vr = digits_value(rest@) as int;
    proof {
        assert(sc@ =~= a@ + rest@);
        assert(all_digits(a@) && all_digits(rest@)) by {
            assert forall|i: int| 0 <= i < a@.len() implies #[trigger] is_digit(a@[i]) by {
                assert(a@[i] == sc@[i]);
            }
            assert forall|i: int| 0 <= i < rest@.len() implies #[trigger] is_digit(rest@[i]) by {
                assert(rest@[i] == sc@[i + cut]);
            }
        }
        lemma_concat_value(a@, rest@);
        lemma_digits_bounds(rest@);
        vstd::arithmetic::div_mod::lemma_fundamental_div_mod_converse(n * ps, tq, va, vr);
        assert(n * ps < pb * ps * tq) by (nonlinear_arith)
            requires
                n == w * tq + fv,
                0 <= fv < tq,
                w + 1 <= pb,
                ps >= 1,
        ;
        assert(pb * ps == 9007199254740992);
        assert(va < 9007199254740992) by (nonlinear_arith)
            requires
                va * tq + vr == n * ps,
                vr >= 0,
                n * ps < 9007199254740992 * tq,
                tq >= 1,
        ;
    }
    let (_, fl_read) = read_digits(&a, 0, a.len(), 9007199254740991);
    assert(a@.subrange(0, a@.len() as int) =~= a@);
    let fl: u64 = match fl_read {
        Some(v) => v as u64,
        None => {
            assert(false);
            0
        },
    };
    let twice = double_digits(&strip_zeros(&rest));
    let c = compare_digits(&twice, &one_then_zeros(q));
    let m: u64 = if c == 1 || (c == 0 && fl % 2 == 1) {
        fl + 1
    } else {
        fl
    };
    let mut d: u64 = 1;
    let mut i: u64 = 0;
    while i < s
        invariant
            i <= s <= 53,
            d == vstd::arithmetic::power2::pow2(i as nat),
        decreases s - i,
    {
        proof {
            vstd::arithmetic::power2::lemma2_to64();
            vstd::arithmetic::power2::lemma2_to64_rest();
            vstd::arithmetic::power2::lemma_pow2_unfold((i + 1) as nat);
            vstd::arithmetic::power2::lemma_pow2_strictly_increases((i + 1) as nat, 54);
        }
        d = 2 * d;
        i = i + 1;
    }
    let num: u64 = 10 * m;
    let tq2 = num / d;
    let rr = num % d;
    if 2 * rr > d || (2 * rr == d && tq2 % 2 == 1) {
        tq2 + 1
    } else {
        tq2
    }
}

/// One place of multiplying by five: where `r` writes five times `pre` plus
/// the carry out of the digit `ch`, half of it, appending the last digit of
/// five times `ch` plus the carry `cin` from the next place gives five times
/// `pre` and `ch`, plus `cin`.
proof fn lemma_five_step(pre: Seq<char>, ch: char, r: Seq<char>, out: char, cin: nat)
    requires
        is_digit(ch),
        cin <= 4,
        digits_value(r) == 5 * digits_value(pre) + digit_value(ch) / 2,
        digit_value(out) == (5 * digit_value(ch) + cin) % 10,
    ensures
        digits_value(r.push(out)) == 5 * digits_value(pre.push(ch)) + cin,
{
    lemma_digits_push(r, out);
    lemma_digits_push(pre, ch);
}

/// The digits of five times the number `c` writes. A digit's carry into
/// the place before it is half the digit, whatever carry it takes in.
fn times_five(c: &Vec<char>) -> (r: Vec<char>)
    requires
        all_digits(c@),
    ensures
        all_digits(r@),
        digits_value(r@) == 5 * digits_value(c@),
{
    let n = c.len();
    let mut r: Vec<char> = Vec::new();
    if n == 0 {
        assert(digits_value(r@) == 0);
        return r;
    }
    assert(is_digit(c@[0]));
    let h0 = (c[0] as u32 - 48) / 2;
    let first = digit_char_exec(h0 as u64);
    proof {
        lemma_digit_char(h0 as nat);
    }
    r.push(first);
    proof {
        lemma_single_digit(first);
        assert(r@ =~= seq![first]);
    }
    assert(c@.take(0) =~= Seq::<char>::empty());
    let mut i: usize = 0;
    while i < n
        invariant
            i <= n,
            n == c@.len(),
            all_digits(c@),
            all_digits(r@),
            digits_value(r@) == 5 * digits_value(c@.take(i as int)) + (if i < n {
                digit_value(c@[i as int]) / 2
            } else {
                0
            }),
        decreases n - i,
    {
        let ch = c[i];
        assert(is_digit(ch));
        let d = ch as u32 - 48;
        let cin: u32 = if i + 1 < n {
            assert(is_digit(c@[i + 1]));
            (c[i + 1] as u32 - 48) / 2
        } else {
            0
        };
        let nd = (5 * d + cin) % 10;
        let out = digit_char_exec(nd as u64);
        proof {
            lemma_digit_char(nd as nat);
            lemma_five_step(c@.take(i as int), ch, r@, out, cin as nat);
            assert(c@.take(i as int).push(ch) =~= c@.take(i + 1));
        }
        let ghost before = r@;
        r.push(out);
        assert forall|k: int| 0 <= k < r@.len() implies #[trigger] is_digit(r@[k]) by {
            if k < before.len() {
                assert(r@[k] == before[k]);
            }
        }
        i = i + 1;
    }
    assert(c@.take(n as int) =~= c@);
    r
}

/// Powers of five are positive.
proof fn lemma_five_pow_pos(e: nat)
    ensures
        five_pow(e) >= 1,
    decreases e,
{
    if e > 0 {
        lemma_five_pow_pos((e - 1) as nat);
    }
}

/// `5^e * 2^e` is `10^e`.
proof fn lemma_five_two(e: nat)
    ensures
        five_pow(e) as int * vstd::arithmetic::power2::pow2(e) as int == ten_pow(e) as int,
    decreases e,
{
    vstd::arithmetic::power2::lemma2_to64();
    if e > 0 {
        lemma_five_two((e - 1) as nat);
        vstd::arithmetic::power2::lemma_pow2_unfold(e);
        let a = five_pow((e - 1) as nat) as int;
        let b = vstd::arithmetic::power2::pow2((e - 1) as nat) as int;
        assert((5 * a) * (2 * b) == 10 * (a * b)) by (nonlinear_arith);
        assert(five_pow(e) as int == 5 * a);
        assert(vstd::arithmetic::power2::pow2(e) as int == 2 * b);
        assert(ten_pow(e) as int == 10 * (a * b));
    } else {
        assert(five_pow(0) == 1 && ten_pow(0) == 1);
        let one = vstd::arithmetic::power2::pow2(0) as int;
        assert(one == 1);
        assert(1 * one == 1);
    }
}

/// The digits of the number `c` writes times `5^e`.
fn times_five_pow(c: &Vec<char>, e: u64) -> (r: Vec<char>)
    requires
        all_digits(c@),
    ensures
        all_digits(r@),
        digits_value(r@) as int == digits_value(c@) as int * five_pow(e as nat) as int,
{
    let mut r = c.clone();
    assert(r@ =~= c@);
    proof {
        let v = digits_value(c@) as int;
        assert(five_pow(0) == 1);
        assert(v * 1 == v);
    }
    let mut i: u64 = 0;
    while i < e
        invariant
            i <= e,
            all_digits(r@),
            digits_value(r@) as int == digits_value(c@) as int * five_pow(i as nat) as int,
        decreases e - i,
    {
        r = times_five(&r);
        proof {
            let v = digits_value(c@) as int;
            let q = five_pow(i as nat) as int;
            assert(five_pow((i + 1) as nat) == 5 * five_pow(i as nat));
            assert(5 * (v * q) == v * (5 * q)) by (nonlinear_arith);
        }
        i = i + 1;
    }
    r
}

/// The number of binary digits of the number `c` writes, found by halving
/// it down to zero.
fn bit_len_digits(c: &Vec<char>) -> (r: u64)
    requires
        all_digits(c@),
        digits_value(c@) < vstd::arithmetic::power2::pow2(2048),
    ensures
        r == bit_len(digits_value(c@)),
{
    proof {
        lemma_bit_len_bound(digits_value(c@), 2048);
    }
    let mut cur = strip_zeros(c);
    let mut b: u64 = 0;
    while cur.len() > 1 || cur[0] != '0'
        invariant
            all_digits(cur@),
            canonical(cur@),
            b + bit_len(digits_value(cur@)) == bit_len(digits_value(c@)),
            bit_len(digits_value(c@)) <= 2048,
        decreases digits_value(cur@),
    {
        proof {
            lemma_digits_bounds(cur@);
            if cur@.len() == 1 {
                lemma_single_digit(cur@[0]);
                assert(cur@ =~= seq![cur@[0]]);
                lemma_zero_code(cur@[0]);
                assert(cur@[0] as u32 != 48);
            }
            lemma_ten_pow_grows(0, (cur@.len() - 1) as nat);
        }
        let ghost v = digits_value(cur@);
        assert(v > 0);
        let five = times_five(&cur);
        let half = sub_chars(&five, 0, five.len() - 1);
        proof {
            assert(five@.len() >= 1) by {
                if five@.len() == 0 {
                    assert(digits_value(five@) == 0);
                }
            }
            assert(half@ =~= five@.drop_last());
            assert(is_digit(five@.last()));
            assert(digits_value(five@) == digits_value(half@) * 10 + digit_value(five@.last()));
            assert(digits_value(half@) == v / 2);
            assert(all_digits(half@)) by {
                assert forall|i: int| 0 <= i < half@.len() implies #[trigger] is_digit(half@[i]) by {
                    assert(half@[i] == five@[i]);
                }
            }
        }
        cur = strip_zeros(&half);
        b = b + 1;
    }
    proof {
        if cur@.len() == 1 {
            lemma_single_digit(cur@[0]);
            assert(cur@ =~= seq![cur@[0]]);
        }
        assert(digits_value(cur@) == 0);
    }
    b
}

/// Scaling both sides of a division leaves its rounding alone.
proof fn lemma_round_half_even_scaled(a: nat, b: nat, c: nat)
    requires
        b > 0,
        c > 0,
    ensures
        round_half_even(a * c, b * c) == round_half_even(a, b),
{
    let q = a / b;
    let r = a % b;
    assert(a == q * b + r && 0 <= r < b) by {
        vstd::arithmetic::div_mod::lemma_fundamental_div_mod(a as int, b as int);
    }
    assert(a * c == q * (b * c) + r * c && 0 <= r * c < b * c && b * c > 0) by (nonlinear_arith)
        requires
            a == q * b + r,
            0 <= r < b,
            c > 0,
    ;
    vstd::arithmetic::div_mod::lemma_fundamental_div_mod_converse(
        (a * c) as int,
        (b * c) as int,
        q as int,
        (r * c) as int,
    );
    assert((2 * (r * c) > b * c) == (2 * r > b) && (2 * (r * c) == b * c) == (2 * r == b))
        by (nonlinear_arith)
        requires
            c > 0,
    ;
}

/// A number that is not zero is at least two to the power of one less
/// than its count of binary digits.
proof fn lemma_bit_len_lower(x: nat)
    requires
        x > 0,
    ensures
        vstd::arithmetic::power2::pow2((bit_len(x) - 1) as nat) <= x,
    decreases x,
{
    vstd::arithmetic::power2::lemma2_to64();
    if x >= 2 {
        lemma_bit_len_lower(x / 2);
        vstd::arithmetic::power2::lemma_pow2_unfold((bit_len(x) - 1) as nat);
    } else {
        assert(bit_len(x) == 1) by {
            assert(bit_len(0) == 0);
        }
    }
}

/// `huge_tenths(whole, frac)`, as digits without leading zeros.
fn huge_tenths_exec(whole: &Vec<char>, frac: &Vec<char>) -> (r: Vec<char>)
    requires
        all_digits(whole@),
        all_digits(frac@),
        digits_value(whole@) >= 9007199254740992,
        digits_value(whole@) < vstd::arithmetic::power2::pow2(1024),
    ensures
        all_digits(r@),
        canonical(r@),
        digits_value(r@) == huge_tenths(whole@, frac@),
{
    let ghost w = digits_value(whole@);
    proof {
        vstd::arithmetic::power2::lemma2_to64();
        vstd::arithmetic::power2::lemma2_to64_rest();
        vstd::arithmetic::power2::lemma_pow2_strictly_increases(1024, 2048);
        lemma_bit_len_bound(w, 1024);
        lemma_below_pow2_bit_len(w);
        lemma_bit_len_lower(w);
        if bit_len(w) <= 53 {
            if bit_len(w) < 53 {
                vstd::arithmetic::power2::lemma_pow2_strictly_increases(bit_len(w), 53);
            }
        }
    }
    let b = bit_len_digits(whole);
    let e: u64 = b - 53;
    let wf = concat(whole, frac);
    assert(all_digits(wf@)) by {
        assert forall|i: int| 0 <= i < wf@.len() implies #[trigger] is_digit(wf@[i]) by {
            if i < whole@.len() {
                assert(wf@[i] == whole@[i]);
            } else {
                assert(wf@[i] == frac@[i - whole@.len()]);
            }
        }
    }
    let n5 = times_five_pow(&wf, e);
    let ghost q = frac@.len();
    let ghost n = digits_value(wf@) as int;
    let ghost fv = digits_value(frac@) as int;
    let ghost tq = ten_pow(q) as int;
    let ghost te = ten_pow(e as nat) as int;
    let ghost tqe = ten_pow(q + e as nat) as int;
    let ghost f5 = five_pow(e as nat) as int;
    let ghost pe = vstd::arithmetic::power2::pow2(e as nat) as int;
    let ghost pb = vstd::arithmetic::power2::pow2(b as nat) as int;
    let ghost plo = vstd::arithmetic::power2::pow2((b - 1) as nat) as int;
    let ghost p52 = vstd::arithmetic::power2::pow2(52) as int;
    let ghost p53 = vstd::arithmetic::power2::pow2(53) as int;
    proof {
        lemma_concat_value(whole@, frac@);
        lemma_digits_bounds(frac@);
        lemma_digits_bounds(n5@);
        lemma_five_two(e as nat);
        lemma_ten_pow_adds(q, e as nat);
        lemma_ten_pow_grows(0, q);
        vstd::arithmetic::power2::lemma_pow2_adds(52, e as nat);
        vstd::arithmetic::power2::lemma_pow2_adds(53, e as nat);
        vstd::arithmetic::power2::lemma_pow2_pos(e as nat);
        assert((b - 1) as nat == 52 + e as nat);
        assert(b as nat == 53 + e as nat);
        lemma_five_pow_pos(e as nat);
        assert(n == w * tq + fv);
        assert(f5 * pe == te);
        assert(tqe == tq * te);
        // bounds on n * 5^e against 10^(q + e)
        assert(n * f5 >= p52 * tqe && n * f5 < p53 * tqe) by (nonlinear_arith)
            requires
                n == w * tq + fv,
                0 <= fv < tq,
                plo <= w,
                w + 1 <= pb,
                plo == p52 * pe,
                pb == p53 * pe,
                f5 * pe == te,
                tqe == tq * te,
                f5 >= 1,
                tq >= 1,
        ;
        if n5@.len() <= q + e {
            lemma_ten_pow_grows(n5@.len(), (q + e) as nat);
        }
    }
    let cut = n5.len() - frac.len() - e as usize;
    let a = sub_chars(&n5, 0, cut);
    let rest = sub_chars(&n5, cut, n5.len());
    let ghost va = digits_value(a@) as int;
    let ghost vr = digits_value(rest@) as int;
    proof {
        assert(n5@ =~= a@ + rest@);
        assert(all_digits(a@) && all_digits(rest@)) by {
            assert forall|i: int| 0 <= i < a@.len() implies #[trigger] is_digit(a@[i]) by {
                assert(a@[i] == n5@[i]);
            }
            assert forall|i: int| 0 <= i < rest@.len() implies #[trigger] is_digit(rest@[i]) by {
                assert(rest@[i] == n5@[i + cut]);
            }
        }
        assert(rest@.len() == q + e);
        lemma_concat_value(a@, rest@);
        lemma_digits_bounds(rest@);
        vstd::arithmetic::div_mod::lemma_fundamental_div_mod_converse(n * f5, tqe, va, vr);
        assert(va < p53 && va >= p52) by (nonlinear_arith)
            requires
                va * tqe + vr == n * f5,
                0 <= vr < tqe,
                n * f5 < p53 * tqe,
                n * f5 >= p52 * tqe,
                tqe >= 1,
        ;
    }
    let (_, fl_read) = read_digits(&a, 0, a.len(), 9007199254740991);
    assert(a@.subrange(0, a@.len() as int) =~= a@);
    let fl: u64 = match fl_read {
        Some(v) => v as u64,
        None => {
            assert(false);
            0
        },
    };
    let twice = double_digits(&strip_zeros(&rest));
    let c = compare_digits(&twice, &one_then_zeros(rest.len()));
    let m: u64 = if c == 1 || (c == 0 && fl % 2 == 1) {
        fl + 1
    } else {
        fl
    };
    proof {
        assert(m as nat == round_half_even((n * f5) as nat, tqe as nat));
        assert(tq * pe >= 1) by (nonlinear_arith)
            requires
                tq >= 1,
                pe >= 1,
        ;
        lemma_round_half_even_scaled(n as nat, (tq * pe) as nat, f5 as nat);
        assert((tq * pe) * f5 == tqe) by (nonlinear_arith)
            requires
                f5 * pe == te,
                tqe == tq * te,
        ;
    }
    let mut md: Vec<char> = Vec::new();
    push_decimal(&mut md, m);
    proof {
        assert(md@ =~= decimal(m as nat));
        lemma_decimal(m as nat);
        lemma_decimal_canonical(m as nat);
    }
    let mut r = times_pow2(&md, e);
    proof {
        lemma_digits_push(r@, '0');
        let x = m as int;
        assert(10 * x * pe == (x * pe) * 10) by (nonlinear_arith);
        if r@.len() == 1 {
            lemma_single_digit(r@[0]);
            assert(r@ =~= seq![r@[0]]);
            assert(x >= 1);
            assert(x * pe >= 1) by (nonlinear_arith)
                requires
                    x >= 1,
                    pe >= 1,
            ;
        }
    }
    let ghost before = r@;
    r.push('0');
    proof {
        assert forall|i: int| 0 <= i < r@.len() implies #[trigger] is_digit(r@[i]) by {
            if i < before.len() {
                assert(r@[i] == before[i]);
            }
        }
        assert(r@[0] == before[0]);
    }
    r
}

/// The digits, without leading zeros, of the number of tenths that
/// `whole.frac` rounds to.
fn rounded_digits(whole: &Vec<char>, frac: &Vec<char>) -> (r: Vec<char>)
    requires
        all_digits(whole@),
        all_digits(frac@),
        digits_value(whole@) < overflow_threshold(),
    ensures
        all_digits(r@),
        canonical(r@),
        digits_value(r@) == rounded_tenths(whole@, frac@),
{
    let (_, whole_read) = read_digits(whole, 0, whole.len(), 9007199254740991);
    assert(whole@.subrange(0, whole@.len() as int) =~= whole@);
    if let Some(wv) = whole_read {
        if wv >= 281474976710656 {
            let tt = upper_tenths_exec(whole, frac, wv as u64);
            let mut r: Vec<char> = Vec::new();
            push_decimal(&mut r, tt);
            proof {
                lemma_decimal(tt as nat);
                lemma_decimal_canonical(tt as nat);
                assert(r@ =~= decimal(tt as nat));
            }
            return r;
        }
    } else {
        proof {
            lemma_threshold_bounds();
        }
        return huge_tenths_exec(whole, frac);
    }
    let n = whole.len();
    let mut k: usize = 0;
    while k < n && whole[k] as u32 == 48
        invariant
            k <= n,
            n == whole@.len(),
            forall|j: int| 0 <= j < k ==> whole@[j] as u32 == 48,
        decreases n - k,
    {
        k = k + 1;
    }
    proof {
        lemma_leading_zeros(whole@, k as int);
    }
    let mut core = sub_chars(whole, k, n);
    assert(core@ =~= whole@.skip(k as int));
    let first: char = if frac.len() > 0 {
        frac[0]
    } else {
        '0'
    };
    let ghost d1 = tenths_digit(frac@);
    assert(is_digit(first) && digit_value(first) == d1);
    let ghost t = digits_value(whole@) * 10 + d1;
    proof {
        lemma_digits_push(core@, first);
    }
    let ghost pre = core@;
    core.push(first);
    assert(digits_value(core@) == t);
    assert(all_digits(core@)) by {
        assert forall|i: int| 0 <= i < core@.len() implies #[trigger] is_digit(core@[i]) by {
            if i < pre.len() {
                assert(core@[i] == whole@[k + i]);
            }
        }
    }
    assert(canonical(core@)) by {
        if pre.len() > 0 {
            assert(core@[0] == whole@[k as int]);
        }
    }
    let up = rounds_up_exec(whole, frac, &core);
    if up {
        proof {
            lemma_increment(core@);
        }
        core = increment(&core);
    }
    core
}

/// Digits without leading zeros, read as tenths: all but the last digit
/// (or `0` where there is one digit) write the whole part, and the last
/// digit the tenths.
proof fn lemma_tenths_split(core: Seq<char>)
    requires
        all_digits(core),
        canonical(core),
    ensures
        core.len() == 1 ==> decimal(digits_value(core) / 10) == seq!['0'] && digit_char(
            digits_value(core) % 10,
        ) == core[0],
        core.len() > 1 ==> decimal(digits_value(core) / 10) == core.drop_last() && digit_char(
            digits_value(core) % 10,
        ) == core.last(),
{
    let big = digits_value(core);
    if core.len() == 1 {
        lemma_single_digit(core[0]);
        assert(core =~= seq![core[0]]);
        lemma_digit_round_trip(core[0]);
        assert(is_digit(core[0]));
        assert(big / 10 == 0);
        assert(decimal(0) == seq![digit_char(0)]);
        lemma_digit_char(0);
    } else {
        lemma_canonical_decimal(core);
        let p = core.drop_last();
        assert(p[0] == core[0]);
        assert(all_digits(p)) by {
            assert forall|j: int| 0 <= j < p.len() implies #[trigger] is_digit(p[j]) by {
                assert(p[j] == core[j]);
            }
        }
        lemma_positive(p);
        assert(core =~= p.push(core.last()));
        lemma_digits_push(p, core.last());
        assert(big >= 10);
        assert(decimal(big) == decimal(big / 10).push(digit_char(big % 10)));
    }
}

/// `sign`, then the number of tenths that `core` writes, with a point
/// before its last digit.
fn write_tenths(negative: bool, core: &Vec<char>) -> (r: Vec<char>)
    requires
        all_digits(core@),
        canonical(core@),
    ensures
        r@ == {
            let big = digits_value(core@);
            let body = decimal(big / 10).push('.').push(digit_char(big % 10));
            if negative {
                seq!['-'] + body
            } else {
                body
            }
        },
{
    let ghost big = digits_value(core@);
    proof {
        lemma_tenths_split(core@);
    }
    let m = core.len();
    let mut r: Vec<char> = Vec::new();
    if negative {
        r.push('-');
    }
    let ghost sign = r@;
    if m == 1 {
        r.push('0');
    } else {
        let head = sub_chars(core, 0, m - 1);
        let mut i: usize = 0;
        while i < head.len()
            invariant
                i <= head@.len(),
                r@ == sign + head@.take(i as int),
            decreases head@.len() - i,
        {
            r.push(head[i]);
            assert(head@.take(i as int).push(head@[i as int]) =~= head@.take(i + 1));
            i = i + 1;
        }
        assert(head@.take(head@.len() as int) =~= head@);
        assert(head@ =~= core@.drop_last());
    }
    r.push('.');
    r.push(core[m - 1]);
    let ghost body = decimal(big / 10).push('.').push(digit_char(big % 10));
    if negative {
        assert(r@ =~= seq!['-'] + body);
    } else {
        assert(r@ =~= body);
    }
    r
}

/// Ten to the power `n`.
pub open spec fn ten_pow(n: nat) -> nat
    decreases n,
{
    if n == 0 {
        1
    } else {
        10 * ten_pow((n - 1) as nat)
    }
}

/// Powers of ten grow with the exponent.
proof fn lemma_ten_pow_grows(a: nat, b: nat)
    requires
        a <= b,
    ensures
        ten_pow(a) <= ten_pow(b),
    decreases b,
{
    if a < b {
        lemma_ten_pow_grows(a, (b - 1) as nat);
    }
}

/// Digits write a number below ten to the power of their count, and, where
/// the first is not `0`, at least ten to the power of one less.
proof fn lemma_digits_bounds(s: Seq<char>)
    requires
        all_digits(s),
    ensures
        digits_value(s) < ten_pow(s.len()),
        s.len() > 0 && s[0] as u32 != 48 ==> ten_pow((s.len() - 1) as nat) <= digits_value(s),
    decreases s.len(),
{
    if s.len() > 0 {
        assert(digits_value(s) == digits_value(s.drop_last()) * 10 + digit_value(s.last()));
        let p = s.drop_last();
        assert(all_digits(p)) by {
            assert forall|i: int| 0 <= i < p.len() implies #[trigger] is_digit(p[i]) by {
                assert(p[i] == s[i]);
            }
        }
        lemma_digits_bounds(p);
        assert(is_digit(s.last()));
        if s.len() > 1 {
            assert(p[0] == s[0]);
            assert(ten_pow((s.len() - 1) as nat) == 10 * ten_pow((p.len() - 1) as nat));
        } else {
            assert(p =~= Seq::<char>::empty());
            assert(digits_value(p) == 0);
            assert(s.last() == s[0]);
        }
        assert(ten_pow(s.len()) == 10 * ten_pow(p.len()));
    }
}

/// Of two digit strings of one length, the one with the smaller digit at
/// the first place where they differ writes the smaller number.
proof fn lemma_first_difference(a: Seq<char>, b: Seq<char>, i: int)
    requires
        all_digits(a),
        all_digits(b),
        a.len() == b.len(),
        0 <= i < a.len(),
        forall|k: int| 0 <= k < i ==> digit_value(a[k]) == digit_value(b[k]),
        digit_value(a[i]) < digit_value(b[i]),
    ensures
        digits_value(a) < digits_value(b),
    decreases a.len(),
{
    let pa = a.drop_last();
    let pb = b.drop_last();
    assert(is_digit(a.last()) && is_digit(b.last()));
    if i == a.len() - 1 {
        lemma_same_digits(pa, pb);
    } else {
        assert(all_digits(pa) && all_digits(pb)) by {
            assert forall|k: int| 0 <= k < pa.len() implies #[trigger] is_digit(pa[k]) by {
                assert(pa[k] == a[k]);
            }
            assert forall|k: int| 0 <= k < pb.len() implies #[trigger] is_digit(pb[k]) by {
                assert(pb[k] == b[k]);
            }
        }
        assert(pa[i] == a[i] && pb[i] == b[i]);
        lemma_first_difference(pa, pb, i);
    }
}

/// Digit strings with the same digit at every place write the same number.
proof fn lemma_same_digits(a: Seq<char>, b: Seq<char>)
    requires
        a.len() == b.len(),
        forall|k: int| 0 <= k < a.len() ==> digit_value(a[k]) == digit_value(b[k]),
    ensures
        digits_value(a) == digits_value(b),
    decreases a.len(),
{
    if a.len() > 0 {
        let pa = a.drop_last();
        let pb = b.drop_last();
        assert forall|k: int| 0 <= k < pa.len() implies digit_value(pa[k]) == digit_value(pb[k]) by {
            assert(pa[k] == a[k] && pb[k] == b[k]);
        }
        lemma_same_digits(pa, pb);
        assert(digit_value(a.last()) == digit_value(b.last()));
    }
}

/// Whether the number that `a` writes is at least the one that `b`
/// writes, for digit strings of one length.
fn at_least_same_len(a: &Vec<char>, b: &Vec<char>) -> (r: bool)
    requires
        all_digits(a@),
        all_digits(b@),
        a@.len() == b@.len(),
    ensures
        r == (digits_value(a@) >= digits_value(b@)),
{
    let n = a.len();
    let mut i: usize = 0;
    while i < n
        invariant
            i <= n,
            n == a@.len(),
            n == b@.len(),
            all_digits(a@),
            all_digits(b@),
            forall|k: int| 0 <= k < i ==> digit_value(a@[k]) == digit_value(b@[k]),
        decreases n - i,
    {
        let x = a[i] as u32;
        let y = b[i] as u32;
        assert(is_digit(a@[i as int]) && is_digit(b@[i as int]));
        if x != y {
            proof {
                assert(is_digit(a@[i as int]) && is_digit(b@[i as int]));
                if x < y {
                    lemma_first_difference(a@, b@, i as int);
                } else {
                    lemma_first_difference(b@, a@, i as int);
                }
            }
            return x > y;
        }
        i = i + 1;
    }
    proof {
        lemma_same_digits(a@, b@);
    }
    true
}

/// The decimal form of a number has no leading zeros.
proof fn lemma_decimal_canonical(n: nat)
    ensures
        canonical(decimal(n)),
        n > 0 ==> decimal(n)[0] as u32 != 48,
    decreases n,
{
    if n >= 10 {
        lemma_decimal_canonical(n / 10);
        lemma_decimal(n / 10);
        assert(decimal(n)[0] == decimal(n / 10)[0]);
    } else {
        lemma_digit_char(n);
    }
}

/// One place of doubling: where `r` writes twice `pre` plus the carry out
/// of the digit `ch`, appending the last digit of twice `ch` plus the carry
/// `cin` from the next place gives twice `pre` and `ch`, plus `cin`.
proof fn lemma_double_step(pre: Seq<char>, ch: char, r: Seq<char>, out: char, cin: nat)
    requires
        is_digit(ch),
        cin <= 1,
        digits_value(r) == 2 * digits_value(pre) + (if ch as u32 >= 53 { 1int } else { 0int }),
        digit_value(out) == (2 * digit_value(ch) + cin) % 10,
    ensures
        digits_value(r.push(out)) == 2 * digits_value(pre.push(ch)) + cin,
{
    lemma_digits_push(r, out);
    lemma_digits_push(pre, ch);
}

/// The digits, without leading zeros, of twice the number `c` writes. A
/// digit's carry into the place before it is one exactly where the digit is
/// five or more, whatever carry it takes in itself.
fn double_digits(c: &Vec<char>) -> (r: Vec<char>)
    requires
        all_digits(c@),
        canonical(c@),
    ensures
        all_digits(r@),
        canonical(r@),
        digits_value(r@) == 2 * digits_value(c@),
{
    let n = c.len();
    let big_first = c[0] as u32 >= 53;
    let mut r: Vec<char> = Vec::new();
    if big_first {
        r.push('1');
        proof {
            lemma_single_digit('1');
            assert(r@ =~= seq!['1']);
        }
    }
    assert(c@.take(0) =~= Seq::<char>::empty());
    let mut i: usize = 0;
    while i < n
        invariant
            i <= n,
            n == c@.len(),
            n >= 1,
            all_digits(c@),
            canonical(c@),
            big_first == (c@[0] as u32 >= 53),
            all_digits(r@),
            r@.len() == i + (if big_first { 1int } else { 0int }),
            big_first ==> r@[0] == '1',
            !big_first && i > 0 && n > 1 ==> r@[0] as u32 != 48,
            digits_value(r@) == 2 * digits_value(c@.take(i as int)) + (if i < n && c@[i as int]
                as u32 >= 53 {
                1int
            } else {
                0int
            }),
        decreases n - i,
    {
        let ch = c[i];
        assert(is_digit(ch));
        let d = ch as u32 - 48;
        let carry: u32 = if i + 1 < n && c[i + 1] as u32 >= 53 {
            1
        } else {
            0
        };
        let nd = (2 * d + carry) % 10;
        let out = digit_char_exec(nd as u64);
        proof {
            lemma_digit_char(nd as nat);
            lemma_double_step(c@.take(i as int), ch, r@, out, carry as nat);
            assert(c@.take(i as int).push(ch) =~= c@.take(i + 1));
            if i == 0 && n > 1 && !big_first {
                assert(c@[0] as u32 != 48);
                assert(1 <= d <= 4);
                assert(2 <= nd <= 9);
                assert(out as u32 != 48);
            }
        }
        let ghost before = r@;
        r.push(out);
        assert forall|k: int| 0 <= k < r@.len() implies #[trigger] is_digit(r@[k]) by {
            if k < before.len() {
                assert(r@[k] == before[k]);
            }
        }
        i = i + 1;
    }
    assert(c@.take(n as int) =~= c@);
    r
}

/// `(2^54 - 1) * 2^970`, which is `2^1024 - 2^970`: half way between the
/// greatest finite `f64` and `2^1024`. From here on `f64::from_str` reads
/// a number as infinity.
pub open spec fn overflow_threshold() -> nat {
    (vstd::arithmetic::power2::pow2(54) - 1) as nat * vstd::arithmetic::power2::pow2(970)
}

/// The overflow threshold is above zero.
proof fn lemma_threshold_positive()
    ensures
        overflow_threshold() > 0,
{
    vstd::arithmetic::power2::lemma2_to64_rest();
    vstd::arithmetic::power2::lemma_pow2_pos(970);
    let a = (vstd::arithmetic::power2::pow2(54) - 1) as nat;
    let b = vstd::arithmetic::power2::pow2(970);
    assert(a * b > 0) by (nonlinear_arith)
        requires
            a >= 1,
            b > 0,
    ;
}

/// The digits of `overflow_threshold()`, built by doubling `2^54 - 1`.
fn overflow_digits() -> (r: Vec<char>)
    ensures
        all_digits(r@),
        canonical(r@),
        r@.len() > 0,
        r@[0] as u32 != 48,
        digits_value(r@) == overflow_threshold(),
{
    let mut r: Vec<char> = Vec::new();
    push_decimal(&mut r, 18014398509481983);
    proof {
        lemma_decimal(18014398509481983);
        lemma_decimal_canonical(18014398509481983);
        assert(r@ =~= decimal(18014398509481983));
        vstd::arithmetic::power2::lemma2_to64_rest();
        vstd::arithmetic::power2::lemma2_to64();
    }
    let mut i: u64 = 0;
    while i < 970
        invariant
            i <= 970,
            all_digits(r@),
            canonical(r@),
            r@.len() > 0,
            r@[0] as u32 != 48,
            digits_value(r@) == 18014398509481983 * vstd::arithmetic::power2::pow2(i as nat),
        decreases 970 - i,
    {
        r = double_digits(&r);
        proof {
            vstd::arithmetic::power2::lemma_pow2_unfold((i + 1) as nat);
            vstd::arithmetic::power2::lemma_pow2_pos((i + 1) as nat);
            let v = digits_value(r@);
            if r@.len() == 1 {
                lemma_single_digit(r@[0]);
                assert(r@ =~= seq![r@[0]]);
            }
        }
        i = i + 1;
    }
    proof {
        vstd::arithmetic::power2::lemma2_to64_rest();
    }
    r
}

/// The sign of `x - y`: `-1`, `0` or `1`.
pub open spec fn sign_of(x: int, y: int) -> int {
    if x < y {
        -1
    } else if x == y {
        0
    } else {
        1
    }
}

/// `s` without its leading zeros, keeping one digit where all are zeros.
fn strip_zeros(s: &Vec<char>) -> (r: Vec<char>)
    requires
        all_digits(s@),
    ensures
        all_digits(r@),
        canonical(r@),
        digits_value(r@) == digits_value(s@),
{
    let n = s.len();
    if n == 0 {
        let r = vec!['0'];
        proof {
            lemma_single_digit('0');
            assert(r@ =~= seq!['0']);
        }
        return r;
    }
    let mut k: usize = 0;
    while k + 1 < n && s[k] as u32 == 48
        invariant
            k < n,
            n == s@.len(),
            forall|j: int| 0 <= j < k ==> s@[j] as u32 == 48,
        decreases n - k,
    {
        k = k + 1;
    }
    proof {
        lemma_leading_zeros(s@, k as int);
    }
    let r = sub_chars(s, k, n);
    assert(r@ =~= s@.skip(k as int));
    assert(all_digits(r@)) by {
        assert forall|i: int| 0 <= i < r@.len() implies #[trigger] is_digit(r@[i]) by {
            assert(r@[i] == s@[i + k]);
        }
    }
    r
}

/// The digits of `c` times `2^j`.
fn times_pow2(c: &Vec<char>, j: u64) -> (r: Vec<char>)
    requires
        all_digits(c@),
        canonical(c@),
    ensures
        all_digits(r@),
        canonical(r@),
        digits_value(r@) == digits_value(c@) * vstd::arithmetic::power2::pow2(j as nat),
{
    let mut r = c.clone();
    assert(r@ =~= c@);
    proof {
        vstd::arithmetic::power2::lemma2_to64();
    }
    let mut i: u64 = 0;
    while i < j
        invariant
            i <= j,
            all_digits(r@),
            canonical(r@),
            digits_value(r@) == digits_value(c@) * vstd::arithmetic::power2::pow2(i as nat),
        decreases j - i,
    {
        let ghost before = digits_value(r@);
        r = double_digits(&r);
        proof {
            vstd::arithmetic::power2::lemma_pow2_unfold((i + 1) as nat);
            let v = digits_value(c@);
            let q = vstd::arithmetic::power2::pow2(i as nat);
            assert(v * (2 * q) == 2 * (v * q)) by (nonlinear_arith);
        }
        i = i + 1;
    }
    r
}

/// Compares the numbers that `a` and `b` write: the sign of their
/// difference.
fn compare_digits(a: &Vec<char>, b: &Vec<char>) -> (r: i8)
    requires
        all_digits(a@),
        canonical(a@),
        all_digits(b@),
        canonical(b@),
    ensures
        r as int == sign_of(digits_value(a@) as int, digits_value(b@) as int),
{
    proof {
        lemma_digits_bounds(a@);
        lemma_digits_bounds(b@);
    }
    if a.len() < b.len() {
        proof {
            lemma_ten_pow_grows(a@.len(), (b@.len() - 1) as nat);
        }
        return -1;
    }
    if b.len() < a.len() {
        proof {
            lemma_ten_pow_grows(b@.len(), (a@.len() - 1) as nat);
        }
        return 1;
    }
    if at_least_same_len(a, b) {
        if at_least_same_len(b, a) {
            0
        } else {
            1
        }
    } else {
        -1
    }
}

/// A power of two from `2^1` on is not a multiple of five.
proof fn lemma_pow2_not_fives(j: nat)
    ensures
        vstd::arithmetic::power2::pow2(j) % 5 != 0,
    decreases j,
{
    vstd::arithmetic::power2::lemma2_to64();
    if j > 0 {
        lemma_pow2_not_fives((j - 1) as nat);
        vstd::arithmetic::power2::lemma_pow2_unfold(j);
        let q = vstd::arithmetic::power2::pow2((j - 1) as nat);
        assert((2 * q) % 5 != 0) by (nonlinear_arith)
            requires
                q % 5 != 0,
        ;
    }
}

/// `s` followed by `m` zeros writes `s` times `10^m`.
proof fn lemma_append_zeros(s: Seq<char>, m: nat)
    ensures
        digits_value(s + zeros(m)) == digits_value(s) as int * ten_pow(m) as int,
    decreases m,
{
    if m > 0 {
        lemma_append_zeros(s, (m - 1) as nat);
        let t = s + zeros(m);
        assert(t.drop_last() =~= s + zeros((m - 1) as nat));
        assert(t.last() == '0');
        assert(digits_value(t) == digits_value(t.drop_last()) * 10 + digit_value(t.last()));
        assert(ten_pow(m) == 10 * ten_pow((m - 1) as nat));
        let v: int = digits_value(s) as int;
        let q: int = ten_pow((m - 1) as nat) as int;
        assert(digit_value('0') == 0);
        assert(digits_value(t) == v * q * 10);
        assert(v * q * 10 == v * (10 * q)) by (nonlinear_arith);
        assert(ten_pow(m) as int == 10 * q);
        assert(digits_value(s + zeros(m)) == digits_value(s) as int * ten_pow(m) as int);
    } else {
        assert(s + zeros(0) =~= s);
        assert(ten_pow(0) == 1);
        assert(digits_value(s + zeros(m)) == digits_value(s));
        assert(digits_value(s + zeros(m)) == digits_value(s) as int * ten_pow(m) as int);
    }
}

/// The digits of `2^j - 1` followed by `m` zeros, for `j` at least one.
fn pow2_less_one_shifted(j: u64, m: usize) -> (r: Vec<char>)
    requires
        j >= 1,
    ensures
        all_digits(r@),
        canonical(r@),
        digits_value(r@) == (vstd::arithmetic::power2::pow2(j as nat) - 1) * ten_pow(m as nat),
{
    let one = vec!['1'];
    proof {
        lemma_single_digit('1');
        assert(one@ =~= seq!['1']);
    }
    let mut p = times_pow2(&one, j);
    let n = p.len();
    let last = p[n - 1];
    proof {
        lemma_pow2_not_fives(j as nat);
        vstd::arithmetic::power2::lemma_pow2_pos(j as nat);
        let q = p@.drop_last();
        assert(p@ =~= q.push(last));
        lemma_digits_push(q, last);
        assert(is_digit(last));
        if digit_value(last) == 0 {
            let a = digits_value(q);
            assert((a * 10) % 5 == 0) by (nonlinear_arith);
        }
    }
    let lower = digit_char_exec((last as u32 - 48 - 1) as u64);
    proof {
        lemma_digit_char((digit_value(last) - 1) as nat);
    }
    let ghost q = p@.drop_last();
    p.set(n - 1, lower);
    proof {
        assert(p@ =~= q.push(lower));
        lemma_digits_push(q, lower);
        assert forall|i: int| 0 <= i < p@.len() implies #[trigger] is_digit(p@[i]) by {
            if i < n - 1 {
                assert(p@[i] == q[i]);
            }
        }
        vstd::arithmetic::power2::lemma_pow2_unfold(j as nat);
        vstd::arithmetic::power2::lemma_pow2_pos((j - 1) as nat);
        if n > 1 {
            assert(p@[0] == q[0]);
        } else {
            lemma_single_digit(p@[0]);
            assert(p@ =~= seq![p@[0]]);
            assert(digit_value(p@[0]) >= 1);
        }
        assert(p@[0] as u32 != 48);
    }
    let r = concat(&p, &zero_digits(m));
    proof {
        lemma_append_zeros(p@, m as nat);
        assert forall|i: int| 0 <= i < r@.len() implies #[trigger] is_digit(r@[i]) by {
            if i < p@.len() {
                assert(r@[i] == p@[i]);
            } else {
                assert(r@[i] == zeros(m as nat)[i - p@.len()]);
            }
        }
        if r@.len() > 1 {
            assert(r@[0] == p@[0]);
            if p@.len() == 1 {
                lemma_single_digit(p@[0]);
                assert(p@ =~= seq![p@[0]]);
            }
        }
    }
    r
}

/// A number with fewer than `k` binary digits has at most `k`.
proof fn lemma_bit_len_bound(x: nat, k: nat)
    requires
        x < vstd::arithmetic::power2::pow2(k),
    ensures
        bit_len(x) <= k,
    decreases k,
{
    vstd::arithmetic::power2::lemma2_to64();
    if x > 0 && k > 0 {
        vstd::arithmetic::power2::lemma_pow2_unfold(k);
        lemma_bit_len_bound(x / 2, (k - 1) as nat);
    }
}

/// The number of binary digits of `n`.
fn bit_len_exec(n: u32) -> (r: u64)
    ensures
        r == bit_len(n as nat),
        r <= 32,
{
    proof {
        vstd::arithmetic::power2::lemma2_to64();
        lemma_bit_len_bound(n as nat, 32);
    }
    let mut x = n;
    let mut b: u64 = 0;
    while x > 0
        invariant
            b + bit_len(x as nat) == bit_len(n as nat),
            bit_len(n as nat) <= 32,
        decreases x,
    {
        x = x / 2;
        b = b + 1;
    }
    b
}

/// `half_gap_above(limit)`.
fn half_gap_above_exec(limit: u32) -> (r: u64)
    ensures
        r == half_gap_above(limit as nat),
{
    if limit == 0 {
        1075
    } else {
        54 - bit_len_exec(limit)
    }
}

/// `half_gap_below(limit)`, for a positive `limit`.
fn half_gap_below_exec(limit: u32) -> (r: u64)
    requires
        limit > 0,
    ensures
        r == half_gap_below(limit as nat),
        r >= 1,
{
    let b = bit_len_exec(limit);
    assert(b >= 1);
    proof {
        vstd::arithmetic::power2::lemma2_to64();
    }
    let mut q: u64 = 1;
    let mut i: u64 = 0;
    while i + 1 < b
        invariant
            i + 1 <= b,
            b <= 32,
            q == vstd::arithmetic::power2::pow2(i as nat),
        decreases b - i,
    {
        proof {
            vstd::arithmetic::power2::lemma2_to64();
            vstd::arithmetic::power2::lemma_pow2_unfold((i + 1) as nat);
            vstd::arithmetic::power2::lemma_pow2_strictly_increases((i + 1) as nat, 32);
        }
        q = 2 * q;
        i = i + 1;
    }
    if q == limit as u64 {
        55 - b
    } else {
        54 - b
    }
}

/// The digit `1` followed by `m` zeros, which writes `10^m`.
fn one_then_zeros(m: usize) -> (r: Vec<char>)
    ensures
        all_digits(r@),
        canonical(r@),
        digits_value(r@) == ten_pow(m as nat),
{
    let one = vec!['1'];
    proof {
        lemma_single_digit('1');
        assert(one@ =~= seq!['1']);
    }
    let r = concat(&one, &zero_digits(m));
    proof {
        lemma_append_zeros(one@, m as nat);
        assert forall|i: int| 0 <= i < r@.len() implies #[trigger] is_digit(r@[i]) by {
            if i > 0 {
                assert(r@[i] == zeros(m as nat)[i - 1]);
            }
        }
        assert(r@[0] == '1');
    }
    r
}

/// `frac_against(f, j)`.
fn frac_vs_pow2(f: &Vec<char>, j: u64) -> (r: i8)
    requires
        all_digits(f@),
    ensures
        r as int == frac_against(f@, j as nat),
{
    let a = times_pow2(&strip_zeros(f), j);
    let b = one_then_zeros(f.len());
    compare_digits(&a, &b)
}

/// `frac_against_rest(f, j)`, for `j` at least one.
fn frac_vs_rest(f: &Vec<char>, j: u64) -> (r: i8)
    requires
        all_digits(f@),
        j >= 1,
    ensures
        r as int == frac_against_rest(f@, j as nat),
{
    let a = times_pow2(&strip_zeros(f), j);
    let b = pow2_less_one_shifted(j, f.len());
    compare_digits(&a, &b)
}

/// What kind of number a text reads as.
#[derive(Clone, Copy, PartialEq, Eq, Structural, Debug)]
pub enum NumberKind {
    Finite,
    Infinite,
    NotANumber,
}

/// A number as `f64::from_str` reads it from text, before any rounding:
/// its kind, its sign, and for a finite number the digits of the mantissa
/// with the place of the decimal point among them once the exponent is
/// applied.
pub struct Reading {
    kind: NumberKind,
    negative: bool,
    digits: Vec<char>,
    whole_len: usize,
    exp_negative: bool,
    exp_digits: Vec<char>,
}

/// The value of an exponent: its digits, negated where it is negative.
pub open spec fn exponent_value(negative: bool, digits: Seq<char>) -> int {
    if negative {
        -digits_value(digits)
    } else {
        digits_value(digits) as int
    }
}

impl View for Reading {
    type V = (NumberKind, bool, Seq<char>, int);

    closed spec fn view(&self) -> (NumberKind, bool, Seq<char>, int) {
        (
            self.kind,
            self.negative,
            self.digits@,
            self.whole_len + exponent_value(self.exp_negative, self.exp_digits@),
        )
    }
}

impl Reading {
    /// The digits are digits, and a number that is not finite has none.
    #[verifier::type_invariant]
    closed spec fn well_formed(self) -> bool {
        &&& all_digits(self.digits@)
        &&& all_digits(self.exp_digits@)
        &&& self.whole_len <= self.digits@.len()
        &&& self.kind != NumberKind::Finite ==> self.digits@.len() == 0 && self.whole_len == 0
            && self.exp_digits@.len() == 0
    }
}

/// `i` is the position of the first exponent mark (`e` or `E`) in `s`.
pub open spec fn first_exp_at(s: Seq<char>, i: int) -> bool {
    &&& 0 <= i < s.len()
    &&& (s[i] == 'e' || s[i] == 'E')
    &&& forall|k: int| 0 <= k < i ==> s[k] != 'e' && s[k] != 'E'
}

/// `s` cut at its first exponent mark, or `None` where it has none.
pub open spec fn split_exp(s: Seq<char>) -> Option<(Seq<char>, Seq<char>)> {
    if exists|i: int| first_exp_at(s, i) {
        let i = choose|i: int| first_exp_at(s, i);
        Some((s.take(i), s.skip(i + 1)))
    } else {
        None
    }
}

/// The exponent that `s` writes: an optional sign and one or more digits.
pub open spec fn parse_exponent(s: Seq<char>) -> Option<int> {
    let (neg, d) = sign_and_body(s);
    if d.len() > 0 && all_digits(d) {
        Some(exponent_value(neg, d))
    } else {
        None
    }
}

/// What `f64::from_str` reads from `s`, before rounding: an optional sign,
/// then `inf`, `infinity` or `nan` in any case, or digits with an optional
/// point (at least one digit in all) and an optional exponent (`e` or `E`,
/// an optional sign, digits); `None` for anything else. A finite number is
/// given by its mantissa digits and the place of the point among them.
pub open spec fn parse_reading_spec(s: Seq<char>) -> Option<(NumberKind, bool, Seq<char>, int)> {
    let (neg, body) = sign_and_body(s);
    if eq_ignore_ascii_case(body, "inf"@) || eq_ignore_ascii_case(body, "infinity"@) {
        Some((NumberKind::Infinite, neg, Seq::<char>::empty(), 0))
    } else if eq_ignore_ascii_case(body, "nan"@) {
        Some((NumberKind::NotANumber, neg, Seq::<char>::empty(), 0))
    } else {
        let (mant, exp) = match split_exp(body) {
            Some((m, e)) => (m, parse_exponent(e)),
            None => (body, Some(0int)),
        };
        let (whole, frac) = match split_once(mant, '.') {
            Some((w, f)) => (w, f),
            None => (mant, Seq::<char>::empty()),
        };
        if all_digits(whole) && all_digits(frac) && whole.len() + frac.len() >= 1 && exp is Some {
            Some((NumberKind::Finite, neg, whole + frac, whole.len() + exp->0))
        } else {
            None
        }
    }
}

/// The digits before the point of the number whose mantissa digits are
/// `d` with the point at `p`.
pub open spec fn int_digits(d: Seq<char>, p: int) -> Seq<char> {
    if p <= 0 {
        Seq::<char>::empty()
    } else if p <= d.len() {
        d.take(p)
    } else {
        d + zeros((p - d.len()) as nat)
    }
}

/// The digits after the point of the number whose mantissa digits are `d`
/// with the point at `p`.
pub open spec fn frac_digits(d: Seq<char>, p: int) -> Seq<char> {
    if p <= 0 {
        zeros((-p) as nat) + d
    } else if p <= d.len() {
        d.skip(p)
    } else {
        Seq::<char>::empty()
    }
}

/// The number with mantissa digits `d` and the point at `p` reaches
/// `overflow_threshold()`, so that an `f64` holds it as infinity.
pub open spec fn too_large(d: Seq<char>, p: int) -> bool {
    digits_value(int_digits(d, p)) >= overflow_threshold()
}

/// The number `r` read, held as the nearest `f64`, is greater than the whole
/// number `limit` (below `2^32`): never for `NaN`, always for positive
/// infinity.
pub open spec fn value_above(r: (NumberKind, bool, Seq<char>, int), limit: nat) -> bool {
    match r.0 {
        NumberKind::NotANumber => false,
        NumberKind::Infinite => !r.1,
        NumberKind::Finite => if too_large(r.2, r.3) {
            !r.1
        } else {
            digits_above((r.1, int_digits(r.2, r.3), frac_digits(r.2, r.3)), limit)
        },
    }
}

/// The number `r` read, held as the nearest `f64`, is less than the whole
/// number `limit` (below `2^32`): never for `NaN`, always for negative
/// infinity.
pub open spec fn value_below(r: (NumberKind, bool, Seq<char>, int), limit: nat) -> bool {
    match r.0 {
        NumberKind::NotANumber => false,
        NumberKind::Infinite => r.1,
        NumberKind::Finite => if too_large(r.2, r.3) {
            r.1
        } else {
            digits_below((r.1, int_digits(r.2, r.3), frac_digits(r.2, r.3)), limit)
        },
    }
}

/// The sign as `{:.1}` writes it.
pub open spec fn sign_text(negative: bool) -> Seq<char> {
    if negative {
        seq!['-']
    } else {
        Seq::<char>::empty()
    }
}

/// The number `r` as `{:.1}` writes it: `NaN`, `inf` or `-inf`, or the
/// value rounded to one decimal place.
pub open spec fn format_size_spec(r: (NumberKind, bool, Seq<char>, int)) -> Seq<char> {
    match r.0 {
        NumberKind::NotANumber => "NaN"@,
        NumberKind::Infinite => sign_text(r.1) + "inf"@,
        NumberKind::Finite => if too_large(r.2, r.3) {
            sign_text(r.1) + "inf"@
        } else {
            format_digits_spec((r.1, int_digits(r.2, r.3), frac_digits(r.2, r.3)))
        },
    }
}

/// A number so small that an `f64` holds it as zero: no whole part, and
/// zeros in the first 540 places after the point.
pub open spec fn tiny(w: Seq<char>, f: Seq<char>) -> bool {
    &&& digits_value(w) == 0
    &&& !has_nonzero(w)
    &&& all_digits(f)
    &&& forall|i: int| 0 <= i < f.len() && i < 540 ==> #[trigger] f[i] == '0'
}

/// `2^(4k)` is at most `10^(2k)`, as `16` is less than `100`.
proof fn lemma_pow2_below_ten_pow(k: nat)
    ensures
        vstd::arithmetic::power2::pow2(4 * k) <= ten_pow(2 * k),
    decreases k,
{
    vstd::arithmetic::power2::lemma2_to64();
    if k > 0 {
        lemma_pow2_below_ten_pow((k - 1) as nat);
        vstd::arithmetic::power2::lemma_pow2_adds((4 * (k - 1)) as nat, 4);
        assert(4 * k == 4 * (k - 1) + 4);
        assert(ten_pow(2 * k) == 100 * ten_pow((2 * (k - 1)) as nat)) by {
            assert(ten_pow(2 * k) == 10 * ten_pow((2 * k - 1) as nat));
            assert(ten_pow((2 * k - 1) as nat) == 10 * ten_pow((2 * k - 2) as nat));
        }
        let a = vstd::arithmetic::power2::pow2((4 * (k - 1)) as nat);
        let b = ten_pow((2 * (k - 1)) as nat);
        assert(a * 16 <= 100 * b) by (nonlinear_arith)
            requires
                a <= b,
        ;
    }
}

/// `10^(a + b)` is `10^a * 10^b`.
proof fn lemma_ten_pow_adds(a: nat, b: nat)
    ensures
        ten_pow(a + b) as int == (ten_pow(a) as int) * (ten_pow(b) as int),
    decreases b,
{
    if b > 0 {
        lemma_ten_pow_adds(a, (b - 1) as nat);
        assert(ten_pow(a + b) == 10 * ten_pow((a + b - 1) as nat));
        let x = ten_pow(a) as int;
        let y = ten_pow((b - 1) as nat) as int;
        assert(10 * (x * y) == x * (10 * y)) by (nonlinear_arith);
        assert(ten_pow(b) as int == 10 * y);
    } else {
        assert(ten_pow(0) == 1);
    }
}

/// A fraction whose first 540 digits are zeros is below `10^-540`.
proof fn lemma_tiny_frac(f: Seq<char>)
    requires
        all_digits(f),
        forall|i: int| 0 <= i < f.len() && i < 540 ==> #[trigger] f[i] == '0',
    ensures
        (digits_value(f) as int) * (ten_pow(540) as int) < (ten_pow(f.len()) as int),
{
    lemma_ten_pow_grows(0, f.len());
    lemma_ten_pow_grows(0, 540);
    if f.len() <= 540 {
        assert forall|i: int| 0 <= i < f.len() implies f[i] == '0' by {}
        lemma_zero_chars(f);
    } else {
        assert forall|j: int| 0 <= j < 540 implies f[j] as u32 == 48 by {
            assert(f[j] == '0');
        }
        lemma_leading_zeros(f, 540);
        let g = f.skip(540);
        assert(all_digits(g)) by {
            assert forall|i: int| 0 <= i < g.len() implies #[trigger] is_digit(g[i]) by {
                assert(g[i] == f[i + 540]);
            }
        }
        lemma_digits_bounds(g);
        lemma_ten_pow_adds(540, g.len());
        assert(f.len() == 540 + g.len());
        let v = digits_value(g) as int;
        let t = ten_pow(540) as int;
        let u = ten_pow(g.len()) as int;
        assert(v * t < u * t) by (nonlinear_arith)
            requires
                v < u,
                t > 0,
        ;
        assert(t * u == u * t) by (nonlinear_arith);
    }
}

/// What a tiny number gives: above no limit, below every positive limit,
/// and written as zero.
proof fn lemma_tiny(neg: bool, w: Seq<char>, f: Seq<char>, limit: nat)
    requires
        tiny(w, f),
    ensures
        !digits_above((neg, w, f), limit),
        digits_below((neg, w, f), limit) == (limit > 0),
        format_digits_spec((neg, w, f)) == sign_text(neg) + "0.0"@,
{
    reveal_strlit("0.0");
    lemma_digit_char(0);
    vstd::arithmetic::power2::lemma2_to64();
    vstd::arithmetic::power2::lemma2_to64_rest();
    lemma_tiny_frac(f);
    lemma_pow2_below_ten_pow(270);
    vstd::arithmetic::power2::lemma_pow2_strictly_increases(1075, 1080);
    vstd::arithmetic::power2::lemma_pow2_strictly_increases(54, 1080);
    assert(4 * 270 == 1080 && 2 * 270 == 540);
    let fv = digits_value(f) as int;
    let t = ten_pow(540) as int;
    let m = ten_pow(f.len()) as int;
    let big = vstd::arithmetic::power2::pow2(1075) as int;
    let small = vstd::arithmetic::power2::pow2(54) as int;
    assert(fv * big < m) by (nonlinear_arith)
        requires
            fv * t < m,
            0 <= big <= t,
            fv >= 0,
    ;
    assert(frac_against(f, 1075) == -1);
    if limit == 1 {
        assert(bit_len(1) == 1) by {
            assert(bit_len(0) == 0);
        }
        assert(half_gap_below(1) == 54);
        assert(fv * small < (small - 1) * m) by (nonlinear_arith)
            requires
                fv * t < m,
                2 <= small <= t,
                fv >= 0,
        ;
    }
    assert(f.len() == 0 || f[0] == '0');
    assert(tenths_digit(f) == 0);
    lemma_mantissa_shift(1);
    let sh = mantissa_shift(1);
    let v = vstd::arithmetic::power2::pow2(sh) as int;
    let mm = v / 20;
    assert(1 * vstd::arithmetic::power2::pow2(sh) == vstd::arithmetic::power2::pow2(sh));
    lemma_concat_value(w, f);
    assert(digits_value(w + f) == digits_value(f));
    vstd::arithmetic::power2::lemma_pow2_strictly_increases(sh + 1, 1080);
    let pp = vstd::arithmetic::power2::pow2(sh + 1) as int;
    assert(fv * pp < m) by (nonlinear_arith)
        requires
            fv * t < m,
            0 <= pp <= t,
            fv >= 0,
    ;
    assert(mm >= 1);
    assert(m <= (2 * mm - 1) * m && m <= (2 * mm + 1) * m) by (nonlinear_arith)
        requires
            mm >= 1,
            m >= 0,
    ;
    assert(against_binary(w, f, sh + 1, (2 * mm + 1) as int) == -1);
    assert(against_binary(w, f, sh + 1, 2 * mm - 1) == -1);
    assert(!rounds_up(w, f));
    assert(rounded_tenths(w, f) == 0);
    assert(decimal(0) == seq![digit_char(0)]);
    assert(format_digits_spec((neg, w, f)) =~= sign_text(neg) + "0.0"@);
}

/// A reading settled into what decides its comparisons and its text.
enum Settled {
    NotANumber,
    Infinite(bool),
    Tiny(bool),
    Digits(bool, Vec<char>, Vec<char>),
}

/// `s` stands for the reading `r`.
spec fn settles(s: Settled, r: (NumberKind, bool, Seq<char>, int)) -> bool {
    match s {
        Settled::NotANumber => r.0 == NumberKind::NotANumber,
        Settled::Infinite(neg) => r.1 == neg && (r.0 == NumberKind::Infinite || (r.0
            == NumberKind::Finite && too_large(r.2, r.3))),
        Settled::Tiny(neg) => r.0 == NumberKind::Finite && !too_large(r.2, r.3) && r.1 == neg
            && tiny(int_digits(r.2, r.3), frac_digits(r.2, r.3)),
        Settled::Digits(neg, w, f) => r.0 == NumberKind::Finite && !too_large(r.2, r.3) && r.1
            == neg && w@ == int_digits(r.2, r.3) && f@ == frac_digits(r.2, r.3) && all_digits(w@)
            && all_digits(f@) && (has_nonzero(w@) || has_nonzero(f@)),
    }
}

/// The character with code 48 is `0`.
proof fn lemma_zero_code(c: char)
    ensures
        c as u32 == 48 ==> c == '0',
{
}

/// The whole part of the number with mantissa digits `d` and the point at
/// `p`, where `d` has `lz` zeros and then another digit: zero where the
/// point comes before that digit, and otherwise a number of `p - lz`
/// digits that does not begin with zero.
proof fn lemma_whole_part(d: Seq<char>, p: int, lz: int)
    requires
        all_digits(d),
        0 <= lz < d.len(),
        forall|k: int| 0 <= k < lz ==> d[k] == '0',
        d[lz] != '0',
    ensures
        p <= lz ==> digits_value(int_digits(d, p)) == 0,
        p > lz ==> ten_pow((p - lz - 1) as nat) <= digits_value(int_digits(d, p)) < ten_pow(
            (p - lz) as nat,
        ),
{
    let w = int_digits(d, p);
    lemma_placed_digits(d, p);
    if p <= lz {
        assert forall|i: int| 0 <= i < w.len() implies w[i] == '0' by {
            assert(w[i] == d[i]);
        }
        lemma_zero_chars(w);
    } else {
        assert(w.len() == p);
        assert forall|j: int| 0 <= j < lz implies w[j] as u32 == 48 by {
            assert(w[j] == d[j]);
        }
        lemma_leading_zeros(w, lz);
        let ws = w.skip(lz);
        assert(ws[0] == d[lz]);
        let c = d[lz];
        assert(c != '0');
        assert(c as u32 != 48) by {
            lemma_zero_code(c);
        }
        assert(all_digits(ws)) by {
            assert forall|i: int| 0 <= i < ws.len() implies #[trigger] is_digit(ws[i]) by {
                assert(ws[i] == w[i + lz]);
            }
        }
        assert(ws[0] as u32 != 48);
        assert(ws.len() == p - lz);
        lemma_digits_bounds(ws);
    }
}

/// Where the whole part has `p - lz` digits after its leading zeros and
/// the threshold lies between `10^a` and `10^b`: more than `b` digits
/// reach the threshold, at most `a` stay below it.
proof fn lemma_overflow_by_length(d: Seq<char>, p: int, lz: int, a: nat, b: nat)
    requires
        all_digits(d),
        0 <= lz < d.len(),
        forall|k: int| 0 <= k < lz ==> d[k] == '0',
        d[lz] != '0',
        ten_pow(a) <= overflow_threshold() < ten_pow(b),
    ensures
        p - lz > b ==> too_large(d, p),
        p - lz <= a ==> !too_large(d, p),
{
    lemma_whole_part(d, p, lz);
    lemma_ten_pow_grows(0, a);
    if p - lz > b {
        lemma_ten_pow_grows(b, (p - lz - 1) as nat);
    }
    if p - lz <= a && p > lz {
        lemma_ten_pow_grows((p - lz) as nat, a);
    }
}

/// `10^(3k)` is at most `2^(10k)`, as `1000` is less than `1024`.
proof fn lemma_ten_pow_below_pow2(k: nat)
    ensures
        ten_pow(3 * k) <= vstd::arithmetic::power2::pow2(10 * k),
    decreases k,
{
    vstd::arithmetic::power2::lemma2_to64();
    if k > 0 {
        lemma_ten_pow_below_pow2((k - 1) as nat);
        vstd::arithmetic::power2::lemma_pow2_adds((10 * (k - 1)) as nat, 10);
        assert(10 * k == 10 * (k - 1) + 10);
        assert(ten_pow(3 * k) == 1000 * ten_pow((3 * (k - 1)) as nat)) by {
            assert(ten_pow(3 * k) == 10 * ten_pow((3 * k - 1) as nat));
            assert(ten_pow((3 * k - 1) as nat) == 10 * ten_pow((3 * k - 2) as nat));
            assert(ten_pow((3 * k - 2) as nat) == 10 * ten_pow((3 * k - 3) as nat));
        }
        let x = ten_pow((3 * (k - 1)) as nat);
        let y = vstd::arithmetic::power2::pow2((10 * (k - 1)) as nat);
        assert(1000 * x <= y * 1024) by (nonlinear_arith)
            requires
                x <= y,
        ;
    }
}

/// The overflow threshold lies between `10^288` and `10^512`.
proof fn lemma_threshold_bounds()
    ensures
        ten_pow(288) <= overflow_threshold() < ten_pow(512),
        overflow_threshold() < vstd::arithmetic::power2::pow2(1024),
{
    vstd::arithmetic::power2::lemma2_to64_rest();
    lemma_ten_pow_below_pow2(96);
    lemma_pow2_below_ten_pow(256);
    vstd::arithmetic::power2::lemma_pow2_strictly_increases(960, 970);
    vstd::arithmetic::power2::lemma_pow2_adds(54, 970);
    assert(3 * 96 == 288 && 10 * 96 == 960 && 4 * 256 == 1024 && 2 * 256 == 512);
    let a = vstd::arithmetic::power2::pow2(54) as int;
    let b = vstd::arithmetic::power2::pow2(970) as int;
    assert((a - 1) * b >= b && (a - 1) * b < a * b) by (nonlinear_arith)
        requires
            a >= 2,
            b >= 1,
    ;
}

/// The digits of a mantissa, placed about the point, are digits.
proof fn lemma_placed_digits(d: Seq<char>, p: int)
    requires
        all_digits(d),
    ensures
        all_digits(int_digits(d, p)),
        all_digits(frac_digits(d, p)),
{
    let w = int_digits(d, p);
    let f = frac_digits(d, p);
    assert forall|i: int| 0 <= i < w.len() implies #[trigger] is_digit(w[i]) by {
        if p > d.len() && i >= d.len() {
            assert(w[i] == '0');
        } else {
            assert(w[i] == d[i]);
        }
    }
    assert forall|i: int| 0 <= i < f.len() implies #[trigger] is_digit(f[i]) by {
        if p <= 0 {
            if i < -p {
                assert(f[i] == '0');
            } else {
                assert(f[i] == d[i + p]);
            }
        } else {
            assert(f[i] == d[i + p]);
        }
    }
}

/// `n` zero digits, as a vector.
fn zero_digits(n: usize) -> (r: Vec<char>)
    ensures
        r@ == zeros(n as nat),
{
    let mut r: Vec<char> = Vec::new();
    let mut i: usize = 0;
    while i < n
        invariant
            i <= n,
            r@ == zeros(i as nat),
        decreases n - i,
    {
        r.push('0');
        assert(zeros(i as nat).push('0') =~= zeros((i + 1) as nat));
        i = i + 1;
    }
    r
}

/// `a` followed by `b`.
fn concat(a: &Vec<char>, b: &Vec<char>) -> (r: Vec<char>)
    ensures
        r@ == a@ + b@,
{
    let mut r = a.clone();
    assert(r@ =~= a@);
    let mut i: usize = 0;
    while i < b.len()
        invariant
            i <= b@.len(),
            r@ == a@ + b@.take(i as int),
        decreases b@.len() - i,
    {
        r.push(b[i]);
        assert(a@ + b@.take(i as int) + seq![b@[i as int]] =~= a@ + b@.take(i + 1));
        i = i + 1;
    }
    assert(b@.take(b@.len() as int) =~= b@);
    r
}

impl Reading {
    /// The whole number `n`.
    pub fn from_whole(n: u64) -> (r: Reading)
        ensures
            r@ == (NumberKind::Finite, false, decimal(n as nat), decimal(n as nat).len() as int),
    {
        let mut digits: Vec<char> = Vec::new();
        push_decimal(&mut digits, n);
        proof {
            lemma_decimal(n as nat);
            assert(digits@ =~= decimal(n as nat));
            assert(digits_value(Seq::<char>::empty()) == 0);
        }
        let whole_len = digits.len();
        Reading {
            kind: NumberKind::Finite,
            negative: false,
            digits,
            whole_len,
            exp_negative: false,
            exp_digits: Vec::new(),
        }
    }

    /// What decides the reading's comparisons and text.
    #[verifier::rlimit(60)]
    fn settle(&self) -> (r: Settled)
        ensures
            settles(r, self@),
    {
        proof {
            use_type_invariant(self);
        }
        let neg = self.negative;
        match self.kind {
            NumberKind::NotANumber => return Settled::NotANumber,
            NumberKind::Infinite => return Settled::Infinite(neg),
            NumberKind::Finite => {},
        }
        let d = &self.digits;
        let ghost ds = d@;
        let ghost p = self@.3;
        let n = d.len();
        let mut lz: usize = 0;
        while lz < n && d[lz] == '0'
            invariant
                lz <= n,
                n == d@.len(),
                forall|k: int| 0 <= k < lz ==> d@[k] == '0',
            decreases n - lz,
        {
            lz = lz + 1;
        }
        proof {
            lemma_placed_digits(ds, p);
        }
        if lz == n {
            proof {
                let w = int_digits(ds, p);
                let f = frac_digits(ds, p);
                assert(!has_nonzero(ds));
                assert forall|i: int| 0 <= i < w.len() implies w[i] == '0' by {
                    if p > ds.len() && i >= ds.len() {
                    } else {
                        assert(w[i] == ds[i]);
                    }
                }
                lemma_zero_chars(w);
                assert forall|i: int| 0 <= i < f.len() implies f[i] == '0' by {
                    if p <= 0 {
                        if i >= -p {
                            assert(f[i] == ds[i + p]);
                        }
                    } else {
                        assert(f[i] == ds[i + p]);
                    }
                }
                assert(!has_nonzero(f));
                lemma_threshold_positive();
            }
            return Settled::Tiny(neg);
        }
        assert(has_nonzero(ds)) by {
            assert(ds[lz as int] != '0');
        }
        proof {
            lemma_threshold_bounds();
            lemma_overflow_by_length(ds, p, lz as int, 288, 512);
        }
        let (_, e) = read_digits(&self.exp_digits, 0, self.exp_digits.len(), 0x10000000000000000000000000);
        assert(self.exp_digits@.subrange(0, self.exp_digits@.len() as int) =~= self.exp_digits@);
        let p_exec: i128 = match e {
            None => {
                if self.exp_negative {
                    proof {
                        lemma_tiny_digits(ds, p);
                    }
                    return Settled::Tiny(neg);
                } else {
                    return Settled::Infinite(neg);
                }
            },
            Some(v) => {
                if self.exp_negative {
                    self.whole_len as i128 - v as i128
                } else {
                    self.whole_len as i128 + v as i128
                }
            },
        };
        assert(p_exec == p);
        if p_exec - lz as i128 > 512 {
            return Settled::Infinite(neg);
        }
        if p_exec <= -540 {
            proof {
                lemma_tiny_digits(ds, p);
            }
            return Settled::Tiny(neg);
        }
        let w: Vec<char> = if p_exec <= 0 {
            Vec::new()
        } else if p_exec <= n as i128 {
            sub_chars(d, 0, p_exec as usize)
        } else {
            concat(d, &zero_digits((p_exec - n as i128) as usize))
        };
        let f: Vec<char> = if p_exec <= 0 {
            concat(&zero_digits((0 - p_exec) as usize), d)
        } else if p_exec <= n as i128 {
            sub_chars(d, p_exec as usize, n)
        } else {
            Vec::new()
        };
        assert(w@ =~= int_digits(ds, p));
        assert(f@ =~= frac_digits(ds, p));
        if p_exec - lz as i128 > 288 {
            let t = overflow_digits();
            let tl = t.len();
            proof {
                lemma_digits_bounds(t@);
                lemma_overflow_by_length(ds, p, lz as int, (tl - 1) as nat, tl as nat);
            }
            if p_exec - lz as i128 > tl as i128 {
                return Settled::Infinite(neg);
            }
            if p_exec - lz as i128 == tl as i128 {
                let ws = sub_chars(&w, lz, w.len());
            proof {
                assert(ws@ =~= w@.skip(lz as int));
                assert forall|j: int| 0 <= j < lz implies w@[j] as u32 == 48 by {
                    assert(w@[j] == ds[j]);
                }
                lemma_leading_zeros(w@, lz as int);
                assert(all_digits(ws@)) by {
                    assert forall|i: int| 0 <= i < ws@.len() implies #[trigger] is_digit(ws@[i]) by {
                        assert(ws@[i] == w@[i + lz]);
                    }
                }
            }
                if at_least_same_len(&ws, &t) {
                    return Settled::Infinite(neg);
                }
            }
        }
        assert(has_nonzero(w@) || has_nonzero(f@)) by {
            let k = lz as int;
            if p <= 0 {
                assert(f@[k - p] == ds[k]);
            } else if k < p {
                assert(w@[k] == ds[k]);
            } else {
                assert(f@[k - p] == ds[k]);
            }
        }
        Settled::Digits(neg, w, f)
    }

    /// Whether the number, held as the nearest `f64`, is greater than the
    /// whole number `limit`.
    pub fn above(&self, limit: u32) -> (r: bool)
        ensures
            r == value_above(self@, limit as nat),
    {
        match self.settle() {
            Settled::NotANumber => false,
            Settled::Infinite(neg) => !neg,
            Settled::Tiny(neg) => {
                proof {
                    lemma_tiny(neg, int_digits(self@.2, self@.3), frac_digits(self@.2, self@.3), limit as nat);
                }
                false
            },
            Settled::Digits(neg, w, f) => {
                if neg {
                    return false;
                }
                let (_, v) = read_digits(&w, 0, w.len(), limit as u128);
                assert(w@.subrange(0, w@.len() as int) =~= w@);
                match v {
                    None => true,
                    Some(v) => v == limit as u128 && frac_vs_pow2(&f, half_gap_above_exec(limit))
                        == 1,
                }
            },
        }
    }

    /// Whether the number, held as the nearest `f64`, is less than the
    /// whole number `limit`.
    pub fn below(&self, limit: u32) -> (r: bool)
        ensures
            r == value_below(self@, limit as nat),
    {
        match self.settle() {
            Settled::NotANumber => false,
            Settled::Infinite(neg) => neg,
            Settled::Tiny(neg) => {
                proof {
                    lemma_tiny(neg, int_digits(self@.2, self@.3), frac_digits(self@.2, self@.3), limit as nat);
                }
                limit > 0
            },
            Settled::Digits(neg, w, f) => {
                if neg {
                    if limit > 0 {
                        return true;
                    }
                    let (_, v) = read_digits(&w, 0, w.len(), 0);
                    assert(w@.subrange(0, w@.len() as int) =~= w@);
                    return match v {
                        None => true,
                        Some(_) => frac_vs_pow2(&f, 1075) == 1,
                    };
                }
                if limit == 0 {
                    return false;
                }
                let (_, v) = read_digits(&w, 0, w.len(), limit as u128);
                assert(w@.subrange(0, w@.len() as int) =~= w@);
                match v {
                    None => false,
                    Some(v) => if v + 1 < limit as u128 {
                        true
                    } else if v + 1 == limit as u128 {
                        frac_vs_rest(&f, half_gap_below_exec(limit)) == -1
                    } else {
                        false
                    },
                }
            },
        }
    }

    /// The number as `{:.1}` writes it.
    pub fn format(&self) -> (r: Vec<char>)
        ensures
            r@ == format_size_spec(self@),
    {
        let mut r: Vec<char> = Vec::new();
        match self.settle() {
            Settled::NotANumber => {
                r.push('N');
                r.push('a');
                r.push('N');
                proof {
                    reveal_strlit("NaN");
                }
                assert(r@ =~= "NaN"@);
            },
            Settled::Infinite(neg) => {
                if neg {
                    r.push('-');
                }
                r.push('i');
                r.push('n');
                r.push('f');
                proof {
                    reveal_strlit("inf");
                }
                assert(r@ =~= sign_text(neg) + "inf"@);
            },
            Settled::Tiny(neg) => {
                if neg {
                    r.push('-');
                }
                r.push('0');
                r.push('.');
                r.push('0');
                proof {
                    lemma_tiny(neg, int_digits(self@.2, self@.3), frac_digits(self@.2, self@.3), 0);
                    reveal_strlit("0.0");
                }
                assert(r@ =~= sign_text(neg) + "0.0"@);
            },
            Settled::Digits(neg, w, f) => {
                let core = rounded_digits(&w, &f);
                r = write_tenths(neg, &core);
            },
        }
        r
    }
}

/// Digits that are all the character `0` write zero.
proof fn lemma_zero_chars(s: Seq<char>)
    requires
        forall|i: int| 0 <= i < s.len() ==> s[i] == '0',
    ensures
        digits_value(s) == 0,
{
    lemma_all_zeros(s);
}

/// A mantissa whose point lies at least 540 places before it gives a tiny
/// number.
proof fn lemma_tiny_digits(d: Seq<char>, p: int)
    requires
        p <= -540,
        all_digits(d),
        overflow_threshold() > 0,
    ensures
        tiny(int_digits(d, p), frac_digits(d, p)),
        !too_large(d, p),
{
    let f = frac_digits(d, p);
    assert(digits_value(Seq::<char>::empty()) == 0);
    lemma_placed_digits(d, p);
    assert forall|i: int| 0 <= i < f.len() && i < 540 implies #[trigger] f[i] == '0' by {}
}

/// The exponent mark that `s[lo..]` begins with, at or after `lo`.
fn find_exp(s: &Vec<char>) -> (r: Option<usize>)
    ensures
        match r {
            Some(i) => first_exp_at(s@, i as int),
            None => !exists|i: int| first_exp_at(s@, i),
        },
{
    let n = s.len();
    let mut i: usize = 0;
    while i < n
        invariant
            i <= n,
            n == s@.len(),
            forall|k: int| 0 <= k < i ==> s@[k] != 'e' && s@[k] != 'E',
        decreases n - i,
    {
        if s[i] == 'e' || s[i] == 'E' {
            return Some(i);
        }
        i = i + 1;
    }
    None
}

/// `s` read as `f64::from_str` reads it, before rounding, or `None` where
/// it does not read as a number.
pub fn parse_reading(s: &Vec<char>) -> (r: Option<Reading>)
    ensures
        match (r, parse_reading_spec(s@)) {
            (Some(x), Some(v)) => x@ == v,
            (None, None) => true,
            _ => false,
        },
{
    let n = s.len();
    let (neg, start) = read_sign(s);
    let body = sub_chars(s, start, n);
    assert(sign_and_body(s@) == (neg, body@));
    if eq_ignore_case(&body, "inf") || eq_ignore_case(&body, "infinity") {
        let r = Reading {
            kind: NumberKind::Infinite,
            negative: neg,
            digits: Vec::new(),
            whole_len: 0,
            exp_negative: false,
            exp_digits: Vec::new(),
        };
        assert(digits_value(Seq::<char>::empty()) == 0);
        return Some(r);
    }
    if eq_ignore_case(&body, "nan") {
        let r = Reading {
            kind: NumberKind::NotANumber,
            negative: neg,
            digits: Vec::new(),
            whole_len: 0,
            exp_negative: false,
            exp_digits: Vec::new(),
        };
        assert(digits_value(Seq::<char>::empty()) == 0);
        return Some(r);
    }
    let m = body.len();
    let (mant, exp_neg, exp_digits): (Vec<char>, bool, Vec<char>) = match find_exp(&body) {
        Some(i) => {
            proof {
                let j = choose|j: int| first_exp_at(body@, j);
                assert(j == i) by {
                    if j < i {
                    } else if j > i {
                        assert(body@[i as int] == 'e' || body@[i as int] == 'E');
                    }
                }
            }
            let mant = sub_chars(&body, 0, i);
            let ev = sub_chars(&body, i + 1, m);
            assert(mant@ =~= body@.take(i as int));
            assert(ev@ =~= body@.skip(i + 1));
            let (eneg, estart) = read_sign(&ev);
            let ed = sub_chars(&ev, estart, ev.len());
            let (ok, _) = read_digits(&ed, 0, ed.len(), 0);
            assert(ed@.subrange(0, ed@.len() as int) =~= ed@);
            if ed.len() == 0 || !ok {
                return None;
            }
            (mant, eneg, ed)
        },
        None => {
            assert(digits_value(Seq::<char>::empty()) == 0);
            (body, false, Vec::new())
        },
    };
    let (whole, frac) = match split_once_chars(&mant, '.') {
        Some((w, f)) => (w, f),
        None => (mant, Vec::new()),
    };
    let ghost parts = match split_once(mant@, '.') {
        Some((w, f)) => (w, f),
        None => (mant@, Seq::<char>::empty()),
    };
    assert(parts == (whole@, frac@));
    if whole.len() + frac.len() == 0 {
        return None;
    }
    let (ok_w, _) = read_digits(&whole, 0, whole.len(), 0);
    let (ok_f, _) = read_digits(&frac, 0, frac.len(), 0);
    assert(whole@.subrange(0, whole@.len() as int) =~= whole@);
    assert(frac@.subrange(0, frac@.len() as int) =~= frac@);
    if !ok_w || !ok_f {
        return None;
    }
    let whole_len = whole.len();
    let digits = concat(&whole, &frac);
    assert(all_digits(digits@)) by {
        assert forall|i: int| 0 <= i < digits@.len() implies #[trigger] is_digit(digits@[i]) by {
            if i < whole@.len() {
                assert(digits@[i] == whole@[i]);
            } else {
                assert(digits@[i] == frac@[i - whole@.len()]);
            }
        }
    }
    Some(
        Reading {
            kind: NumberKind::Finite,
            negative: neg,
            digits,
            whole_len,
            exp_negative: exp_neg,
            exp_digits,
        },
    )
}

/// No number is both above and below a limit, and `NaN` is neither.
pub proof fn law_never_above_and_below(r: (NumberKind, bool, Seq<char>, int), limit: nat)
    ensures
        !(value_above(r, limit) && value_below(r, limit)),
        r.0 == NumberKind::NotANumber ==> !value_above(r, limit) && !value_below(r, limit),
{
}

/// A number written with `{:.1}` reads back as itself rounded to tenths:
/// where its written whole part stays below `2^48`, it comes back finite,
/// with its sign, and writes the same text again.
pub proof fn law_format_reads_back(neg: bool, w: Seq<char>, f: Seq<char>)
    requires
        all_digits(w),
        all_digits(f),
        rounded_tenths(w, f) < 2814749767106560,
    ensures
        parse_reading_spec(format_digits_spec((neg, w, f))) matches Some(e) && e.0
            == NumberKind::Finite && e.1 == neg && !too_large(e.2, e.3) && format_digits_spec(
            (e.1, int_digits(e.2, e.3), frac_digits(e.2, e.3)),
        ) == format_digits_spec((neg, w, f)),
{
    let big = rounded_tenths(w, f);
    let q = big / 10;
    let r = big % 10;
    lemma_decimal(q);
    lemma_digit_char(r);
    let dq = decimal(q);
    let body = dq.push('.').push(digit_char(r));
    let s = format_digits_spec((neg, w, f));
    if neg {
        assert(s.skip(1) =~= body);
    } else {
        assert(is_digit(dq[0]));
        assert(s[0] == dq[0]);
    }
    assert(sign_and_body(s) == (neg, body));
    assert(!eq_ignore_ascii_case(body, "inf"@) && !eq_ignore_ascii_case(body, "infinity"@)
        && !eq_ignore_ascii_case(body, "nan"@)) by {
        reveal_strlit("inf");
        reveal_strlit("infinity");
        reveal_strlit("nan");
        assert(is_digit(body[0]));
        if body.len() == 3 {
            assert(ascii_fold(body[0]) != ascii_fold("inf"@[0]));
            assert(ascii_fold(body[0]) != ascii_fold("nan"@[0]));
        }
        if body.len() == 8 {
            assert(ascii_fold(body[0]) != ascii_fold("infinity"@[0]));
        }
    }
    assert(!exists|i: int| first_exp_at(body, i)) by {
        assert forall|i: int| 0 <= i < body.len() implies body[i] != 'e' && body[i] != 'E' by {
            if i < dq.len() {
                assert(is_digit(dq[i]));
                assert(body[i] == dq[i]);
            }
        }
    }
    let i = dq.len() as int;
    assert(first_at(body, '.', i)) by {
        assert forall|k: int| 0 <= k < i implies body[k] != '.' by {
            assert(body[k] == dq[k]);
            assert(is_digit(dq[k]));
        }
    }
    let j = choose|j: int| first_at(body, '.', j);
    assert(j == i) by {
        if j < i {
            assert(body[j] == dq[j]);
            assert(is_digit(dq[j]));
        } else if j > i {
            assert(body[i] == '.');
        }
    }
    assert(body.take(i) =~= dq);
    let fr = seq![digit_char(r)];
    assert(body.skip(i + 1) =~= fr);
    let e = parse_reading_spec(s)->0;
    let ds = dq + fr;
    assert(e.2 == ds);
    assert(e.3 == dq.len());
    assert(int_digits(ds, dq.len() as int) =~= dq);
    assert(frac_digits(ds, dq.len() as int) =~= fr);
    assert(all_digits(fr));
    assert(fr.skip(1) =~= Seq::<char>::empty());
    assert(q * 10 + r == big);
    assert(tenths_digit(fr) == r);
    lemma_whole_tenths_stay(dq, fr, big);
    lemma_threshold_bounds();
    lemma_pow2_below_ten_pow(13);
    vstd::arithmetic::power2::lemma2_to64_rest();
    lemma_ten_pow_grows(26, 288);
    assert(q < 281474976710656);
}

/// The magnitude `w.d`, a whole number of tenths, is written as itself.
proof fn lemma_whole_tenths_stay(w: Seq<char>, f: Seq<char>, t: nat)
    requires
        f.len() == 1,
        all_digits(f),
        digits_value(w) * 10 + tenths_digit(f) == t,
    ensures
        !rounds_up(w, f),
{
    let k = 2 * t + 1;
    assert(f.skip(1) =~= Seq::<char>::empty());
    if k < 5629499534213120 {
        lemma_mantissa_shift(k);
        lemma_concat_value(w, f);
        lemma_single_digit(f[0]);
        assert(f =~= seq![f[0]]);
        assert(ten_pow(1) == 10) by {
            assert(ten_pow(0) == 1);
        }
        assert(digits_value(w + f) == t);
        let sh = mantissa_shift(k);
        vstd::arithmetic::power2::lemma_pow2_unfold(sh + 1);
        let pp = vstd::arithmetic::power2::pow2(sh) as int;
        let v = k * pp;
        let m = v / 20;
        assert(pp > 16) by (nonlinear_arith)
            requires
                k * pp >= 90071992547409920,
                k < 5629499534213120,
                k >= 1,
        ;
        vstd::arithmetic::power2::lemma2_to64();
        if sh < 4 {
            vstd::arithmetic::power2::lemma_pow2_strictly_increases(sh, 4);
        }
        if sh > 5 {
            vstd::arithmetic::power2::lemma_pow2_strictly_increases(5, sh);
        }
        assert(pp >= 32);
        let ti = t as int;
        assert(v == 2 * ti * pp + pp) by (nonlinear_arith)
            requires
                v == k * pp,
                k == 2 * ti + 1,
        ;
        assert(ti * (2 * pp) == 2 * ti * pp) by (nonlinear_arith);
        assert(20 * m <= v < 20 * m + 20);
        assert(against_binary(w, f, sh + 1, (2 * m + 1) as int) == -1);
        assert(against_binary(w, f, sh + 1, 2 * m - 1) == -1);
    }
}

/// A whole number with no digits after the point stays a whole number of
/// tenths when written.
proof fn lemma_whole_stays(w: Seq<char>, n: nat)
    requires
        digits_value(w) == n,
        n < 281474976710656,
    ensures
        !rounds_up(w, Seq::<char>::empty()),
{
    let f = Seq::<char>::empty();
    let t = n * 10;
    let k = 2 * t + 1;
    assert(tenths_digit(f) == 0);
    lemma_mantissa_shift(k);
    lemma_concat_value(w, f);
    assert(ten_pow(0) == 1);
    assert(digits_value(f) == 0);
    assert(digits_value(w + f) == n);
    let sh = mantissa_shift(k);
    vstd::arithmetic::power2::lemma_pow2_unfold(sh + 1);
    let pp = vstd::arithmetic::power2::pow2(sh) as int;
    let v = k * pp;
    let m = v / 20;
    assert(pp > 16) by (nonlinear_arith)
        requires
            k * pp >= 90071992547409920,
            k < 5629499534213120,
            k >= 1,
    ;
    vstd::arithmetic::power2::lemma2_to64();
    if sh < 4 {
        vstd::arithmetic::power2::lemma_pow2_strictly_increases(sh, 4);
    }
    if sh > 5 {
        vstd::arithmetic::power2::lemma_pow2_strictly_increases(5, sh);
    }
    assert(pp >= 32);
    let ni = n as int;
    assert(v == 20 * ni * pp + pp) by (nonlinear_arith)
        requires
            v == k * pp,
            k == 20 * ni + 1,
    ;
    assert(ni * (2 * pp) == 2 * ni * pp) by (nonlinear_arith);
    assert(20 * m <= v < 20 * m + 20);
    let x = ni * pp;
    assert(2 * ni * pp == 2 * x && 20 * ni * pp == 20 * x) by (nonlinear_arith)
        requires
            x == ni * pp,
    ;
    assert(2 * x < 2 * m - 1);
    assert(vstd::arithmetic::power2::pow2(sh + 1) as int == 2 * pp);
    assert(digits_value(w + f) as int * vstd::arithmetic::power2::pow2(sh + 1) as int == 2 * x);
    assert(against_binary(w, f, sh + 1, (2 * m + 1) as int) == -1);
    assert(against_binary(w, f, sh + 1, 2 * m - 1) == -1);
}

/// A whole number `n` compares with a limit as `n` itself does, and, below
/// `2^48`, is written as its digits followed by `.0`.
pub proof fn law_whole_numbers(n: u64, limit: u32)
    ensures
        ({
            let r = (NumberKind::Finite, false, decimal(n as nat), decimal(n as nat).len() as int);
            &&& value_above(r, limit as nat) == (n > limit)
            &&& value_below(r, limit as nat) == (n < limit)
            &&& n < 281474976710656 ==> format_size_spec(r) == decimal(n as nat) + ".0"@
        }),
{
    let d = decimal(n as nat);
    let p = d.len() as int;
    lemma_decimal(n as nat);
    assert(int_digits(d, p) =~= d);
    assert(frac_digits(d, p) =~= Seq::<char>::empty());
    let f = Seq::<char>::empty();
    assert(digits_value(f) == 0);
    assert(ten_pow(0) == 1);
    lemma_threshold_bounds();
    lemma_pow2_below_ten_pow(16);
    vstd::arithmetic::power2::lemma2_to64();
    lemma_ten_pow_grows(32, 288);
    assert(!too_large(d, p));
    assert(frac_against(f, half_gap_above(limit as nat)) == -1);
    assert(frac_against(f, 1075) == -1);
    if limit > 0 {
        lemma_bit_len_bound(limit as nat, 32);
        let j = half_gap_below(limit as nat);
        assert(j >= 1);
        vstd::arithmetic::power2::lemma_pow2_strictly_increases(0, j);
        assert(frac_against_rest(f, j) == -1);
    }
    if n < 281474976710656 {
        lemma_whole_stays(d, n as nat);
        assert(rounded_tenths(d, f) == n * 10);
        lemma_digit_char(0);
        assert((n * 10) as nat / 10 == n && (n * 10) as nat % 10 == 0);
        reveal_strlit(".0");
        assert(format_digits_spec((false, d, f)) =~= d + ".0"@);
    }
}

/// A text that begins with a digit is neither infinity nor `NaN`.
proof fn lemma_digit_start_is_finite(body: Seq<char>)
    requires
        body.len() > 0,
        is_digit(body[0]),
    ensures
        !eq_ignore_ascii_case(body, "inf"@),
        !eq_ignore_ascii_case(body, "infinity"@),
        !eq_ignore_ascii_case(body, "nan"@),
{
    reveal_strlit("inf");
    reveal_strlit("infinity");
    reveal_strlit("nan");
    if body.len() == 3 {
        assert(ascii_fold(body[0]) != ascii_fold("inf"@[0]));
        assert(ascii_fold(body[0]) != ascii_fold("nan"@[0]));
    }
    if body.len() == 8 {
        assert(ascii_fold(body[0]) != ascii_fold("infinity"@[0]));
    }
}

/// Whole numbers read as themselves: the digits of `n`, with an optional
/// `-`, are the finite number `n` (negated), and an exponent `e` followed
/// by the digits of `k` moves the point `k` places to the right.
pub proof fn law_reads_whole_numbers(n: u64, k: u64, neg: bool)
    ensures
        ({
            let d = decimal(n as nat);
            let sign = if neg {
                seq!['-']
            } else {
                Seq::<char>::empty()
            };
            &&& parse_reading_spec(sign + d) == Some(
                (NumberKind::Finite, neg, d, d.len() as int),
            )
            &&& parse_reading_spec(sign + d + seq!['e'] + decimal(k as nat)) == Some(
                (NumberKind::Finite, neg, d, d.len() + k),
            )
        }),
{
    let d = decimal(n as nat);
    let dk = decimal(k as nat);
    lemma_decimal(n as nat);
    lemma_decimal(k as nat);
    let sign = if neg {
        seq!['-']
    } else {
        Seq::<char>::empty()
    };
    let b1 = d;
    let b2 = d + seq!['e'] + dk;
    assert(is_digit(d[0]));
    let s1 = sign + b1;
    let s2 = sign + b2;
    if neg {
        assert(s1.skip(1) =~= b1);
        assert(s2.skip(1) =~= b2);
    } else {
        assert(s1 =~= b1);
        assert(s2 =~= b2);
    }
    assert(sign_and_body(s1) == (neg, b1));
    assert(sign_and_body(s2) == (neg, b2));
    lemma_digit_start_is_finite(b1);
    assert(b2[0] == d[0]);
    lemma_digit_start_is_finite(b2);
    // the plain digits: no exponent mark, no point
    assert(!exists|i: int| first_exp_at(b1, i)) by {
        assert forall|i: int| 0 <= i < b1.len() implies b1[i] != 'e' && b1[i] != 'E' by {
            assert(is_digit(b1[i]));
        }
    }
    assert(!exists|i: int| first_at(b1, '.', i)) by {
        assert forall|i: int| 0 <= i < b1.len() implies b1[i] != '.' by {
            assert(is_digit(b1[i]));
        }
    }
    assert(split_once(b1, '.') is None);
    assert(d + Seq::<char>::empty() =~= d);
    assert(all_digits(Seq::<char>::empty()));
    // with an exponent: the mark is the `e` after the digits
    let i = d.len() as int;
    assert(first_exp_at(b2, i)) by {
        assert forall|j: int| 0 <= j < i implies b2[j] != 'e' && b2[j] != 'E' by {
            assert(b2[j] == d[j]);
            assert(is_digit(d[j]));
        }
    }
    let j = choose|j: int| first_exp_at(b2, j);
    assert(j == i) by {
        if j < i {
            assert(b2[j] == d[j]);
            assert(is_digit(d[j]));
        } else if j > i {
            assert(b2[i] == 'e');
        }
    }
    assert(b2.take(i) =~= d);
    assert(b2.skip(i + 1) =~= dk);
    assert(is_digit(dk[0]));
    assert(sign_and_body(dk) == (false, dk));
    assert(parse_exponent(dk) == Some(k as int));
    assert(split_exp(b1) is None);
    assert(split_exp(b2) == Some((d, dk)));
    assert(parse_reading_spec(s1) == Some((NumberKind::Finite, neg, d + Seq::<char>::empty(), d.len() as int)));
    assert(parse_reading_spec(s2) == Some((NumberKind::Finite, neg, d + Seq::<char>::empty(), d.len() + k)));
    assert(s2 =~= sign + d + seq!['e'] + dk);
}

/// Comparisons keep their order: a number above a limit is above every
/// smaller limit, and one below a limit is below every larger limit.
pub proof fn law_limits_in_order(r: (NumberKind, bool, Seq<char>, int), low: u32, high: u32)
    requires
        low <= high,
    ensures
        value_above(r, high as nat) ==> value_above(r, low as nat),
        value_below(r, low as nat) ==> value_below(r, high as nat),
{
}

} // verus!
