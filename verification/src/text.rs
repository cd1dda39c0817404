//! Decimal digits in text: rendering numbers, zero-padding them, parsing
//! them back, and clock-style duration formatting.

use vstd::prelude::*;
use vstd::string::*;

verus! {

/// The decimal digit character for a value below ten.
pub open spec fn spec_digit_char(d: nat) -> char {
    if d == 0 {
        '0'
    } else if d == 1 {
        '1'
    } else if d == 2 {
        '2'
    } else if d == 3 {
        '3'
    } else if d == 4 {
        '4'
    } else if d == 5 {
        '5'
    } else if d == 6 {
        '6'
    } else if d == 7 {
        '7'
    } else if d == 8 {
        '8'
    } else {
        '9'
    }
}

/// Whether a character is a decimal digit.
pub open spec fn spec_is_digit_char(c: char) -> bool {
    c == '0' || c == '1' || c == '2' || c == '3' || c == '4' || c == '5' || c == '6' || c == '7'
        || c == '8' || c == '9'
}

/// The value of a decimal digit character.
pub open spec fn spec_char_digit(c: char) -> nat {
    if c == '1' {
        1
    } else if c == '2' {
        2
    } else if c == '3' {
        3
    } else if c == '4' {
        4
    } else if c == '5' {
        5
    } else if c == '6' {
        6
    } else if c == '7' {
        7
    } else if c == '8' {
        8
    } else if c == '9' {
        9
    } else {
        0
    }
}

/// The decimal rendering of a number, without leading zeros (a lone zero
/// for zero).
pub open spec fn spec_dec_digits(n: nat) -> Seq<char>
    decreases n,
{
    if n < 10 {
        seq![spec_digit_char(n)]
    } else {
        spec_dec_digits(n / 10) + seq![spec_digit_char(n % 10)]
    }
}

/// The number denoted by a sequence of digit characters.
pub open spec fn spec_dec_value(s: Seq<char>) -> nat
    decreases s.len(),
{
    if s.len() == 0 {
        0
    } else {
        spec_dec_value(s.drop_last()) * 10 + spec_char_digit(s.last())
    }
}

/// The decimal rendering padded with leading zeros to at least `width`
/// characters.
pub open spec fn spec_zero_padded(n: nat, width: nat) -> Seq<char> {
    let d = spec_dec_digits(n);
    if d.len() >= width {
        d
    } else {
        Seq::new((width - d.len()) as nat, |i: int| '0') + d
    }
}

/// A one-character string for a digit value.
fn digit_str(d: u64) -> (r: &'static str)
    requires
        d < 10,
    ensures
        r@ == seq![spec_digit_char(d as nat)],
{
    if d == 0 {
        proof {
            reveal_strlit("0");
        }
        "0"
    } else if d == 1 {
        proof {
            reveal_strlit("1");
        }
        "1"
    } else if d == 2 {
        proof {
            reveal_strlit("2");
        }
        "2"
    } else if d == 3 {
        proof {
            reveal_strlit("3");
        }
        "3"
    } else if d == 4 {
        proof {
            reveal_strlit("4");
        }
        "4"
    } else if d == 5 {
        proof {
            reveal_strlit("5");
        }
        "5"
    } else if d == 6 {
        proof {
            reveal_strlit("6");
        }
        "6"
    } else if d == 7 {
        proof {
            reveal_strlit("7");
        }
        "7"
    } else if d == 8 {
        proof {
            reveal_strlit("8");
        }
        "8"
    } else {
        proof {
            reveal_strlit("9");
        }
        "9"
    }
}

/// Appends the decimal rendering of `n` to `out`.
fn push_digits(n: u64, out: &mut String)
    ensures
        final(out)@ == old(out)@ + spec_dec_digits(n as nat),
    decreases n,
{
    if n >= 10 {
        push_digits(n / 10, out);
    }
    out.append(digit_str(n % 10));
    proof {
        if n < 10 {
            assert(old(out)@ + seq![spec_digit_char(n as nat)] == old(out)@ + spec_dec_digits(
                n as nat,
            ));
        } else {
            assert(old(out)@ + spec_dec_digits((n / 10) as nat) + seq![
                spec_digit_char((n % 10) as nat),
            ] =~= old(out)@ + spec_dec_digits(n as nat));
        }
    }
}

/// The decimal rendering of a number.
pub fn u64_to_string(n: u64) -> (r: String)
    ensures
        r@ == spec_dec_digits(n as nat),
{
    let mut r = String::new();
    push_digits(n, &mut r);
    proof {
        assert(Seq::<char>::empty() + spec_dec_digits(n as nat) =~= spec_dec_digits(n as nat));
    }
    r
}

/// Number of characters in the decimal rendering.
fn count_digits(n: u64) -> (r: usize)
    ensures
        r == spec_dec_digits(n as nat).len(),
        1 <= r <= 20,
    decreases n,
{
    if n < 10 {
        1
    } else {
        proof {
            lemma_dec_digits_len_bound(n as nat);
        }
        1 + count_digits(n / 10)
    }
}

/// The decimal rendering of a `u64` never exceeds twenty characters.
proof fn lemma_dec_digits_len_bound(n: nat)
    requires
        n <= u64::MAX,
    ensures
        1 <= spec_dec_digits(n).len() <= 20,
    decreases n,
{
    if n >= 10 {
        lemma_dec_digits_len_bound(n / 10);
        assert(spec_dec_digits(n).len() == spec_dec_digits(n / 10).len() + 1);
        lemma_pow10_twenty();
        lemma_dec_digits_len_grows(n, 20);
    }
}

/// Twenty decimal digits suffice for any `u64` value.
proof fn lemma_pow10_twenty()
    ensures
        pow10(20) > u64::MAX as nat,
{
    assert(pow10(0) == 1);
    assert(pow10(1) == 10);
    assert(pow10(2) == 100);
    assert(pow10(3) == 1000);
    assert(pow10(4) == 10000);
    assert(pow10(5) == 100000);
    assert(pow10(6) == 1000000);
    assert(pow10(7) == 10000000);
    assert(pow10(8) == 100000000);
    assert(pow10(9) == 1000000000);
    assert(pow10(10) == 10000000000);
    assert(pow10(11) == 100000000000);
    assert(pow10(12) == 1000000000000);
    assert(pow10(13) == 10000000000000);
    assert(pow10(14) == 100000000000000);
    assert(pow10(15) == 1000000000000000);
    assert(pow10(16) == 10000000000000000);
    assert(pow10(17) == 100000000000000000);
    assert(pow10(18) == 1000000000000000000);
    assert(pow10(19) == 10000000000000000000);
    assert(pow10(20) == 100000000000000000000);
}

/// A number below `10^k` renders in at most `k` digits (for the widths
/// used here).
proof fn lemma_dec_digits_len_grows(n: nat, k: nat)
    requires
        n < pow10(k),
    ensures
        spec_dec_digits(n).len() <= if k == 0 {
            1
        } else {
            k
        },
    decreases n,
{
    if n >= 10 {
        assert(k >= 2) by {
            if k < 2 {
                reveal_pow10_small(k);
            }
        }
        assert(n / 10 < pow10((k - 1) as nat)) by {
            assert(pow10(k) == 10 * pow10((k - 1) as nat));
            assert(n < 10 * pow10((k - 1) as nat));
            assert(n / 10 < pow10((k - 1) as nat)) by (nonlinear_arith)
                requires
                    n < 10 * pow10((k - 1) as nat),
                    n >= 0,
                    pow10((k - 1) as nat) >= 1,
            ;
            lemma_pow10_pos((k - 1) as nat);
        }
        lemma_dec_digits_len_grows(n / 10, (k - 1) as nat);
    }
}

/// Ten to the `k`.
pub open spec fn pow10(k: nat) -> nat
    decreases k,
{
    if k == 0 {
        1
    } else {
        10 * pow10((k - 1) as nat)
    }
}

proof fn lemma_pow10_pos(k: nat)
    ensures
        pow10(k) >= 1,
    decreases k,
{
    if k > 0 {
        lemma_pow10_pos((k - 1) as nat);
    }
}

proof fn reveal_pow10_small(k: nat)
    requires
        k < 2,
    ensures
        pow10(k) <= 10,
{
    if k == 1 {
        assert(pow10(1) == 10 * pow10(0));
    }
}

/// The decimal rendering of `n`, padded with leading zeros to at least
/// `width` characters.
pub fn zero_pad_u64(n: u64, width: usize) -> (r: String)
    ensures
        r@ == spec_zero_padded(n as nat, width as nat),
{
    let digits = count_digits(n);
    let mut r = String::new();
    let mut pad: usize = 0;
    if digits < width {
        let target = width - digits;
        while pad < target
            invariant
                pad <= target,
                target == width - digits,
                r@ == Seq::new(pad as nat, |i: int| '0'),
            decreases target - pad,
        {
            proof {
                reveal_strlit("0");
            }
            r.append("0");
            pad = pad + 1;
            proof {
                assert(r@ =~= Seq::new(pad as nat, |i: int| '0'));
            }
        }
    }
    push_digits(n, &mut r);
    proof {
        if spec_dec_digits(n as nat).len() >= width as nat {
            assert(r@ =~= spec_zero_padded(n as nat, width as nat));
        } else {
            assert(r@ =~= spec_zero_padded(n as nat, width as nat));
        }
    }
    r
}

/// Any prefix of a digit string denotes at most the whole string's value.
proof fn lemma_dec_value_prefix_le(s: Seq<char>, i: int)
    requires
        0 <= i <= s.len(),
    ensures
        spec_dec_value(s.take(i)) <= spec_dec_value(s),
    decreases s.len() - i,
{
    if i < s.len() {
        let t = s.take(i);
        let t2 = s.take(i + 1);
        assert(t2.drop_last() =~= t);
        assert(spec_dec_value(t2) == spec_dec_value(t) * 10 + spec_char_digit(t2.last()));
        assert(spec_dec_value(t) <= spec_dec_value(t) * 10) by (nonlinear_arith)
            requires
                spec_dec_value(t) >= 0,
        ;
        lemma_dec_value_prefix_le(s, i + 1);
    } else {
        assert(s.take(i) =~= s);
    }
}

/// Parses a string of decimal digits.  Returns the value exactly when the
/// string is non-empty, holds digits only, and the value fits in a `u64`;
/// returns nothing otherwise.
pub fn parse_u64(s: &str) -> (r: Option<u64>)
    ensures
        r is Some <==> (s@.len() > 0 && (forall|i: int|
            0 <= i < s@.len() ==> spec_is_digit_char(s@[i])) && spec_dec_value(s@)
            <= u64::MAX as nat),
        r matches Some(v) ==> v == spec_dec_value(s@),
{
    let n = s.unicode_len();
    if n == 0 {
        return None;
    }
    let mut acc: u64 = 0;
    let mut i: usize = 0;
    while i < n
        invariant
            n == s@.len(),
            0 <= i <= n,
            forall|j: int| 0 <= j < i ==> spec_is_digit_char(s@[j]),
            acc == spec_dec_value(s@.take(i as int)),
        decreases n - i,
    {
        let c = s.get_char(i);
        let d: u64 = match c {
            '0' => 0,
            '1' => 1,
            '2' => 2,
            '3' => 3,
            '4' => 4,
            '5' => 5,
            '6' => 6,
            '7' => 7,
            '8' => 8,
            '9' => 9,
            _ => {
                return None;
            },
        };
        proof {
            assert(spec_is_digit_char(s@[i as int]));
            assert(spec_char_digit(s@[i as int]) == d);
        }
        if acc > (u64::MAX - d) / 10 {
            proof {
                let t2 = s@.take(i + 1);
                assert(t2.drop_last() =~= s@.take(i as int));
                assert(spec_dec_value(t2) == acc * 10 + d);
                assert(acc * 10 + d > u64::MAX) by (nonlinear_arith)
                    requires
                        acc > (u64::MAX - d) / 10,
                        0 <= d < 10,
                        acc <= u64::MAX,
                ;
                lemma_dec_value_prefix_le(s@, i + 1);
            }
            return None;
        }
        proof {
            assert(acc * 10 + d <= u64::MAX) by (nonlinear_arith)
                requires
                    acc <= (u64::MAX - d) / 10,
                    0 <= d < 10,
                    acc >= 0,
            ;
            let t2 = s@.take(i + 1);
            assert(t2.drop_last() =~= s@.take(i as int));
            assert(t2.last() == s@[i as int]);
        }
        acc = acc * 10 + d;
        i = i + 1;
    }
    proof {
        assert(s@.take(n as int) =~= s@);
    }
    Some(acc)
}

/// The clock-style rendering of a duration: `hh:mm:ss` when there are
/// hours, `mm:ss` otherwise, every part two digits or more.
pub open spec fn spec_format_duration(total_seconds: nat) -> Seq<char> {
    let hours = total_seconds / 3600;
    let minutes = (total_seconds % 3600) / 60;
    let seconds = total_seconds % 60;
    if hours > 0 {
        spec_zero_padded(hours, 2) + seq![':'] + spec_zero_padded(minutes, 2) + seq![':']
            + spec_zero_padded(seconds, 2)
    } else {
        spec_zero_padded(minutes, 2) + seq![':'] + spec_zero_padded(seconds, 2)
    }
}

/// Renders a duration in seconds as `hh:mm:ss`, or `mm:ss` below an hour.
pub fn format_duration(total_seconds: u64) -> (r: String)
    ensures
        r@ == spec_format_duration(total_seconds as nat),
{
    let hours = total_seconds / 3600;
    let minutes = (total_seconds % 3600) / 60;
    let seconds = total_seconds % 60;
    proof {
        reveal_strlit(":");
    }
    if hours > 0 {
        let mut r = zero_pad_u64(hours, 2);
        r.append(":");
        let m = zero_pad_u64(minutes, 2);
        r.append(m.as_str());
        r.append(":");
        let sec = zero_pad_u64(seconds, 2);
        r.append(sec.as_str());
        proof {
            assert(r@ =~= spec_format_duration(total_seconds as nat));
        }
        r
    } else {
        let mut r = zero_pad_u64(minutes, 2);
        r.append(":");
        let sec = zero_pad_u64(seconds, 2);
        r.append(sec.as_str());
        proof {
            assert(r@ =~= spec_format_duration(total_seconds as nat));
        }
        r
    }
}

} // verus!
