//! Signed 32-bit integers as decimal text: reading them from a field and
//! writing them into a response.

use vstd::prelude::*;
use vstd::string::StringExecFns;

verus! {

/// Whether `c` is one of the ten ASCII decimal digits.
pub open spec fn is_digit(c: char) -> bool {
    '0' <= c && c <= '9'
}

/// The number that the digit `c` stands for.
pub open spec fn digit_value(c: char) -> nat
    recommends
        is_digit(c),
{
    (c as int - '0' as int) as nat
}

/// The digit that stands for `d`.
pub open spec fn digit_char(d: int) -> char
    recommends
        0 <= d < 10,
{
    seq!['0', '1', '2', '3', '4', '5', '6', '7', '8', '9'][d]
}

/// Whether every character of `s` is a decimal digit.
pub open spec fn all_digits(s: Seq<char>) -> bool {
    forall|i: int| 0 <= i < s.len() ==> is_digit(#[trigger] s[i])
}

/// The number written by the digits `s`, most significant first.
pub open spec fn digits_value(s: Seq<char>) -> nat
    decreases s.len(),
{
    if s.len() == 0 {
        0
    } else {
        digits_value(s.drop_last()) * 10 + digit_value(s.last())
    }
}

/// Whether `s` starts with a plus or minus sign.
pub open spec fn has_sign(s: Seq<char>) -> bool {
    s.len() > 0 && (s[0] == '-' || s[0] == '+')
}

/// The part of `s` after its sign, if it has one.
pub open spec fn unsigned_part(s: Seq<char>) -> Seq<char> {
    if has_sign(s) {
        s.skip(1)
    } else {
        s
    }
}

/// The integer that `s` denotes before any range check: its digits, negated
/// under a leading minus sign.
pub open spec fn signed_value(s: Seq<char>) -> int {
    if s.len() > 0 && s[0] == '-' {
        -(digits_value(unsigned_part(s)) as int)
    } else {
        digits_value(unsigned_part(s)) as int
    }
}

/// The `i32` written by `s`, if `s` is a decimal numeral: an optional sign,
/// then one or more ASCII digits, naming a value from `i32::MIN` to
/// `i32::MAX`. Leading zeros are allowed; anything else is no numeral.
pub open spec fn parse_i32(s: Seq<char>) -> Option<i32> {
    let digits = unsigned_part(s);
    let value = signed_value(s);
    if digits.len() > 0 && all_digits(digits) && i32::MIN <= value <= i32::MAX {
        Some(value as i32)
    } else {
        None
    }
}

/// The decimal digits of `n`, without leading zeros.
pub open spec fn decimal(n: nat) -> Seq<char>
    decreases n,
{
    if n < 10 {
        seq![digit_char(n as int)]
    } else {
        decimal(n / 10).push(digit_char((n % 10) as int))
    }
}

/// The decimal text of `v`: a minus sign for negative numbers, then the
/// digits of the magnitude.
pub open spec fn int_text(v: int) -> Seq<char> {
    if v < 0 {
        seq!['-'] + decimal((-v) as nat)
    } else {
        decimal(v as nat)
    }
}

/// Appending a digit multiplies the value by ten and adds the digit.
proof fn lemma_digits_value_push(s: Seq<char>, c: char)
    ensures
        digits_value(s.push(c)) == digits_value(s) * 10 + digit_value(c),
{
    assert(s.push(c).drop_last() =~= s);
}

/// A run of digits stays a run of digits when one more digit follows.
proof fn lemma_all_digits_push(s: Seq<char>, c: char)
    requires
        all_digits(s),
        is_digit(c),
    ensures
        all_digits(s.push(c)),
{
    assert forall|i: int| 0 <= i < s.push(c).len() implies is_digit(#[trigger] s.push(c)[i]) by {
        if i < s.len() {
            assert(s.push(c)[i] == s[i]);
        }
    }
}

/// Reads `s` as a decimal `i32`.
pub fn parse_decimal(s: &str) -> (r: Option<i32>)
    ensures
        r == parse_i32(s@),
{
    let limit: i64 = 2147483648;
    let mut first: bool = true;
    let mut signed: bool = false;
    let mut negative: bool = false;
    let mut seen_digit: bool = false;
    let mut too_large: bool = false;
    let mut acc: i64 = 0;
    proof {
        assert(s@.take(0) =~= Seq::<char>::empty());
    }
    for c in it: s.chars()
        invariant
            it.seq() == s@,
            limit == 2147483648,
            first == (it.index() == 0),
            signed == has_sign(s@.take(it.index())),
            negative == (it.index() > 0 && s@[0] == '-'),
            seen_digit == (unsigned_part(s@.take(it.index())).len() > 0),
            all_digits(unsigned_part(s@.take(it.index()))),
            0 <= acc <= limit,
            !too_large ==> acc == digits_value(unsigned_part(s@.take(it.index()))),
            too_large ==> digits_value(unsigned_part(s@.take(it.index()))) > limit,
    {
        let ghost i = it.index();
        let ghost prefix = s@.take(i);
        let ghost next = s@.take(i + 1);
        proof {
            assert(next =~= prefix.push(c));
        }
        if first && (c == '-' || c == '+') {
            signed = true;
            negative = c == '-';
            proof {
                assert(unsigned_part(next) =~= Seq::<char>::empty());
            }
        } else if '0' <= c && c <= '9' {
            let digit: i64 = (c as u32 - '0' as u32) as i64;
            proof {
                let old_digits = unsigned_part(prefix);
                assert(unsigned_part(next) =~= old_digits.push(c));
                lemma_digits_value_push(old_digits, c);
                lemma_all_digits_push(old_digits, c);
                assert(digit == digit_value(c));
            }
            if !too_large {
                let grown: i64 = acc * 10 + digit;
                if grown > limit {
                    too_large = true;
                } else {
                    acc = grown;
                }
            }
            seen_digit = true;
        } else {
            proof {
                let digits = unsigned_part(s@);
                let k = if has_sign(s@) { i - 1 } else { i };
                assert(has_sign(s@) == has_sign(prefix) || i == 0);
                assert(0 <= k < digits.len());
                assert(digits[k] == c);
                assert(!is_digit(c));
            }
            return None;
        }
        first = false;
    }
    proof {
        assert(s@.take(s@.len() as int) =~= s@);
    }
    if !seen_digit || too_large {
        return None;
    }
    if negative {
        let value: i64 = -acc;
        Some(value as i32)
    } else if acc == limit {
        None
    } else {
        Some(acc as i32)
    }
}

/// The one-character text of the digit `d`.
fn digit_str(d: u32) -> (r: &'static str)
    requires
        d < 10,
    ensures
        r@ == seq![digit_char(d as int)],
{
    proof {
        reveal_strlit("0");
        reveal_strlit("1");
        reveal_strlit("2");
        reveal_strlit("3");
        reveal_strlit("4");
        reveal_strlit("5");
        reveal_strlit("6");
        reveal_strlit("7");
        reveal_strlit("8");
        reveal_strlit("9");
    }
    let r: &'static str = match d {
        0 => "0",
        1 => "1",
        2 => "2",
        3 => "3",
        4 => "4",
        5 => "5",
        6 => "6",
        7 => "7",
        8 => "8",
        _ => "9",
    };
    assert(r@ =~= seq![digit_char(d as int)]);
    r
}

/// Writes the decimal digits of `n` at the end of `out`.
pub fn append_decimal(out: &mut String, n: u32)
    ensures
        final(out)@ == old(out)@ + decimal(n as nat),
    decreases n,
{
    if n >= 10 {
        append_decimal(out, n / 10);
    }
    out.append(digit_str(n % 10));
    proof {
        if n >= 10 {
            assert(final(out)@ =~= old(out)@ + decimal(n as nat));
        }
    }
}

/// Writes the decimal text of `v` at the end of `out`.
pub fn append_i32(out: &mut String, v: i32)
    ensures
        final(out)@ == old(out)@ + int_text(v as int),
{
    if v < 0 {
        proof {
            reveal_strlit("-");
        }
        out.append("-");
        let magnitude: u32 = if v == i32::MIN {
            2147483648u32
        } else {
            (-v) as u32
        };
        append_decimal(out, magnitude);
        proof {
            assert("-"@ =~= seq!['-']);
            assert(final(out)@ =~= old(out)@ + int_text(v as int));
        }
    } else {
        append_decimal(out, v as u32);
    }
}

/// The digits of a number are digits, there is at least one of them, and
/// they write that number.
pub proof fn lemma_decimal_digits(n: nat)
    ensures
        decimal(n).len() >= 1,
        all_digits(decimal(n)),
        digits_value(decimal(n)) == n,
    decreases n,
{
    if n < 10 {
        let s = decimal(n);
        assert(s.drop_last() =~= Seq::<char>::empty());
        assert(digits_value(s.drop_last()) == 0);
    } else {
        let init = decimal(n / 10);
        let c = digit_char((n % 10) as int);
        lemma_decimal_digits(n / 10);
        lemma_all_digits_push(init, c);
        lemma_digits_value_push(init, c);
    }
}

/// Reading back what was written gives the number back: every `i32`
/// survives the trip through its decimal text.
pub proof fn lemma_parse_int_text(v: i32)
    ensures
        parse_i32(int_text(v as int)) == Some(v),
{
    let s = int_text(v as int);
    if v < 0 {
        let digits = decimal((-v) as nat);
        lemma_decimal_digits((-v) as nat);
        assert(s[0] == '-');
        assert(unsigned_part(s) =~= digits);
    } else {
        lemma_decimal_digits(v as nat);
        assert(is_digit(s[0]));
        assert(unsigned_part(s) =~= s);
    }
}

/// The decimal text of a number holds digits and at most a minus sign, so
/// no tab and no line break.
pub proof fn lemma_int_text_avoids(v: int, c: char)
    requires
        !is_digit(c),
        c != '-',
    ensures
        !int_text(v).contains(c),
{
    let s = int_text(v);
    if s.contains(c) {
        let i = choose|i: int| 0 <= i < s.len() && s[i] == c;
        if v < 0 {
            lemma_decimal_digits((-v) as nat);
            assert(s[i] == decimal((-v) as nat)[i - 1]);
        } else {
            lemma_decimal_digits(v as nat);
        }
    }
}

} // verus!
