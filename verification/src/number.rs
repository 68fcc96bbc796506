//! Reading and writing whole numbers in decimal, as `i32::from_str` and
//! `{}` treat them, and the digit arithmetic they rest on.

use vstd::prelude::*;

verus! {

/// `c` is one of the ASCII digits `0`..`9`.
pub open spec fn is_digit(c: char) -> bool {
    48 <= c as u32 <= 57
}

/// The value of the digit `c`.
pub open spec fn digit_value(c: char) -> nat {
    (c as u32 - 48) as nat
}

/// Every character of `s` is an ASCII digit.
pub open spec fn all_digits(s: Seq<char>) -> bool {
    forall|i: int| 0 <= i < s.len() ==> #[trigger] is_digit(s[i])
}

/// The number that the digits `s` write in base ten.
pub open spec fn digits_value(s: Seq<char>) -> nat
    decreases s.len(),
{
    if s.len() == 0 {
        0
    } else {
        digits_value(s.drop_last()) * 10 + digit_value(s.last())
    }
}

/// The digit that writes `d`, for `d` below ten.
pub open spec fn digit_char(d: nat) -> char {
    (d + 48) as char
}

/// `n` written in base ten, without leading zeros.
pub open spec fn decimal(n: nat) -> Seq<char>
    decreases n,
{
    if n < 10 {
        seq![digit_char(n)]
    } else {
        decimal(n / 10).push(digit_char(n % 10))
    }
}

/// `s` split into its sign and the rest: a leading `-` or `+` is taken off.
pub open spec fn sign_and_body(s: Seq<char>) -> (bool, Seq<char>) {
    if s.len() > 0 && s[0] == '-' {
        (true, s.skip(1))
    } else if s.len() > 0 && s[0] == '+' {
        (false, s.skip(1))
    } else {
        (false, s)
    }
}

/// What `i32::from_str` gives for `s`: an optional sign, then one or more
/// ASCII digits, whose value fits in an `i32`; `None` for anything else.
pub open spec fn parse_i32_spec(s: Seq<char>) -> Option<i32> {
    let (neg, body) = sign_and_body(s);
    if body.len() > 0 && all_digits(body) {
        let v: int = if neg {
            -digits_value(body)
        } else {
            digits_value(body) as int
        };
        if i32::MIN <= v <= i32::MAX {
            Some(v as i32)
        } else {
            None
        }
    } else {
        None
    }
}

/// `n` as `{}` writes it: a `-` for negative numbers, then the digits.
pub open spec fn format_i32(n: i32) -> Seq<char> {
    if n < 0 {
        seq!['-'] + decimal((-n) as nat)
    } else {
        decimal(n as nat)
    }
}

/// The digit for `d` is a digit and has the value `d`.
pub(crate) proof fn lemma_digit_char(d: nat)
    requires
        d < 10,
    ensures
        is_digit(digit_char(d)),
        digit_value(digit_char(d)) == d,
{
}

/// `decimal(n)` is a non-empty run of digits whose value is `n`.
pub proof fn lemma_decimal(n: nat)
    ensures
        decimal(n).len() > 0,
        all_digits(decimal(n)),
        digits_value(decimal(n)) == n,
    decreases n,
{
    if n < 10 {
        lemma_digit_char(n);
        assert(seq![digit_char(n)].drop_last() =~= Seq::<char>::empty());
        assert(digits_value(Seq::<char>::empty()) == 0);
        assert(digits_value(seq![digit_char(n)]) == digits_value(Seq::<char>::empty()) * 10
            + digit_value(digit_char(n)));
    } else {
        lemma_decimal(n / 10);
        lemma_digit_char(n % 10);
        let d = decimal(n / 10);
        assert(d.push(digit_char(n % 10)).drop_last() =~= d);
        assert(decimal(n) == d.push(digit_char(n % 10)));
        assert(digits_value(decimal(n)) == digits_value(d) * 10 + digit_value(
            digit_char(n % 10),
        ));
        assert((n / 10) * 10 + n % 10 == n);
        assert forall|i: int| 0 <= i < decimal(n).len() implies #[trigger] is_digit(
            decimal(n)[i],
        ) by {
            if i < d.len() {
                assert(decimal(n)[i] == d[i]);
            }
        }
    }
}

/// The digit character for `d`.
pub(crate) fn digit_char_exec(d: u64) -> (c: char)
    requires
        d < 10,
    ensures
        c == digit_char(d as nat),
{
    let r: char = match d {
        0 => '0',
        1 => '1',
        2 => '2',
        3 => '3',
        4 => '4',
        5 => '5',
        6 => '6',
        7 => '7',
        8 => '8',
        _ => '9',
    };
    r
}

/// Appends `n` in base ten to `out`.
pub fn push_decimal(out: &mut Vec<char>, n: u64)
    ensures
        final(out)@ == old(out)@ + decimal(n as nat),
    decreases n,
{
    if n < 10 {
        out.push(digit_char_exec(n));
        assert(old(out)@.push(digit_char(n as nat)) =~= old(out)@ + decimal(n as nat));
    } else {
        push_decimal(out, n / 10);
        out.push(digit_char_exec(n % 10));
        assert(old(out)@ + decimal((n / 10) as nat) + seq![digit_char((n % 10) as nat)] =~= old(
            out,
        )@ + decimal(n as nat));
    }
}

/// `n` written as `{}` writes an `i32`.
pub fn format_i32_chars(n: i32) -> (r: Vec<char>)
    ensures
        r@ == format_i32(n),
{
    let mut r: Vec<char> = Vec::new();
    if n < 0 {
        r.push('-');
        let m: u64 = (-(n as i64)) as u64;
        push_decimal(&mut r, m);
        assert(r@ =~= seq!['-'] + decimal((-n) as nat));
    } else {
        push_decimal(&mut r, n as u64);
        assert(r@ =~= decimal(n as nat));
    }
    r
}

/// One more digit multiplies the value by ten and adds the digit.
pub(crate) proof fn lemma_digits_push(s: Seq<char>, c: char)
    ensures
        digits_value(s.push(c)) == digits_value(s) * 10 + digit_value(c),
{
    assert(s.push(c).drop_last() =~= s);
}

/// Reads the digits `s[lo..hi]`: `Some` of their value where every
/// character there is a digit and the value is at most `cap`.
pub(crate) fn read_digits(s: &Vec<char>, lo: usize, hi: usize, cap: u128) -> (r: (bool, Option<u128>))
    requires
        lo <= hi <= s@.len(),
    ensures
        r.0 == all_digits(s@.subrange(lo as int, hi as int)),
        r.0 ==> match r.1 {
            Some(v) => v == digits_value(s@.subrange(lo as int, hi as int)) && v <= cap,
            None => digits_value(s@.subrange(lo as int, hi as int)) > cap,
        },
{
    let mut acc: u128 = 0;
    let mut big = false;
    let mut i: usize = lo;
    assert(s@.subrange(lo as int, lo as int) =~= Seq::<char>::empty());
    while i < hi
        invariant
            lo <= i <= hi,
            hi <= s@.len(),
            all_digits(s@.subrange(lo as int, i as int)),
            !big ==> acc == digits_value(s@.subrange(lo as int, i as int)) && acc <= cap,
            big ==> digits_value(s@.subrange(lo as int, i as int)) > cap,
        decreases hi - i,
    {
        let c = s[i];
        let u = c as u32;
        let ghost prev = s@.subrange(lo as int, i as int);
        assert(s@.subrange(lo as int, i + 1) =~= prev.push(c));
        if !(48 <= u && u <= 57) {
            assert(!is_digit(s@.subrange(lo as int, hi as int)[i - lo]));
            return (false, None);
        }
        proof {
            lemma_digits_push(prev, c);
        }
        if !big {
            let d = (u - 48) as u128;
            if acc > cap / 10 || (acc == cap / 10 && d > cap % 10) {
                big = true;
                assert(acc * 10 + d > cap) by (nonlinear_arith)
                    requires
                        acc > cap / 10 || (acc == cap / 10 && d > cap % 10),
                ;
            } else {
                assert(acc * 10 + d <= cap) by (nonlinear_arith)
                    requires
                        acc < cap / 10 || (acc == cap / 10 && d <= cap % 10),
                        d <= 9,
                ;
                acc = acc * 10 + d;
            }
        } else {
            assert(digits_value(prev) * 10 + digit_value(c) > cap) by (nonlinear_arith)
                requires
                    digits_value(prev) > cap,
            ;
        }
        i = i + 1;
    }
    if big {
        (true, None)
    } else {
        (true, Some(acc))
    }
}

/// Takes a leading `-` or `+` off `s`: whether it was `-`, and where the
/// rest begins.
pub(crate) fn read_sign(s: &Vec<char>) -> (r: (bool, usize))
    ensures
        r.1 <= s@.len(),
        sign_and_body(s@) == (r.0, s@.subrange(r.1 as int, s@.len() as int)),
{
    let n = s.len();
    if n > 0 && s[0] == '-' {
        assert(s@.skip(1) =~= s@.subrange(1, n as int));
        (true, 1)
    } else if n > 0 && s[0] == '+' {
        assert(s@.skip(1) =~= s@.subrange(1, n as int));
        (false, 1)
    } else {
        assert(s@ =~= s@.subrange(0, n as int));
        (false, 0)
    }
}

/// `s` read as `i32::from_str` reads it.
pub fn parse_i32_chars(s: &Vec<char>) -> (r: Option<i32>)
    ensures
        r == parse_i32_spec(s@),
{
    let n = s.len();
    let (neg, start) = read_sign(s);
    if start == n {
        return None;
    }
    let (ok, v) = read_digits(s, start, n, 2147483648);
    if !ok {
        return None;
    }
    match v {
        None => None,
        Some(v) => {
            if neg {
                Some((-(v as i64)) as i32)
            } else if v <= 2147483647 {
                Some(v as i32)
            } else {
                None
            }
        },
    }
}

/// Whole numbers survive being written and read back: reading what `{}`
/// writes for `n` gives `n`.
pub proof fn law_i32_round_trip(n: i32)
    ensures
        parse_i32_spec(format_i32(n)) == Some(n),
{
    if n < 0 {
        let m = (-n) as nat;
        lemma_decimal(m);
        let s = format_i32(n);
        assert(s.skip(1) =~= decimal(m));
    } else {
        lemma_decimal(n as nat);
        let d = decimal(n as nat);
        assert(is_digit(d[0]));
    }
}

} // verus!
