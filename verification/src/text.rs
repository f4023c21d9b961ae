//! Decimal text: of unsigned integers, for the messages of errors, and of
//! scores, for the explanations of results.

use vstd::prelude::*;
use vstd::string::StringExecFns;
use crate::binary64::hundredths;
use crate::binary64::is_nan;
use crate::binary64::magnitude;
use crate::binary64::nan;
use crate::binary64::ONE;
use crate::binary64::round_to_hundredths;
use crate::binary64::SIGN_BIT;
use crate::binary64::sign_set;

verus! {

/// The character of one decimal digit.
pub open spec fn digit(d: nat) -> char {
    if d == 0 {
        '0'
    } else if d == 1 {
        '1'
    } else if d == 2 {
        '2'
    } else if d == 3 {
        '3'
    } else if d == 4 {
        '4'
    } else if d == 5 {
        '5'
    } else if d == 6 {
        '6'
    } else if d == 7 {
        '7'
    } else if d == 8 {
        '8'
    } else {
        '9'
    }
}

/// The decimal digits of `n`, most significant first, without leading zeros;
/// for 0 the single digit `0`.
pub open spec fn decimal(n: nat) -> Seq<char>
    decreases n,
{
    if n < 10 {
        seq![digit(n)]
    } else {
        decimal(n / 10).push(digit(n % 10))
    }
}

/// The text of one decimal digit.
fn digit_text(d: u64) -> (r: &'static str)
    requires
        d < 10,
    ensures
        r@ == seq![digit(d as nat)],
{
    proof {
        reveal_strlit("0");
        reveal_strlit("1");
        reveal_strlit("2");
        reveal_strlit("3");
        reveal_strlit("4");
        reveal_strlit("5");
        reveal_strlit("6");
        reveal_strlit("7");
        reveal_strlit("8");
        reveal_strlit("9");
    }
    let r = if d == 0 {
        "0"
    } else if d == 1 {
        "1"
    } else if d == 2 {
        "2"
    } else if d == 3 {
        "3"
    } else if d == 4 {
        "4"
    } else if d == 5 {
        "5"
    } else if d == 6 {
        "6"
    } else if d == 7 {
        "7"
    } else if d == 8 {
        "8"
    } else {
        "9"
    };
    assert(r@ =~= seq![digit(d as nat)]);
    r
}

/// Appends the decimal digits of `n` to `text`.
pub fn push_decimal(text: &mut String, n: u64)
    ensures
        final(text)@ == old(text)@ + decimal(n as nat),
    decreases n,
{
    if n >= 10 {
        push_decimal(text, n / 10);
    }
    text.append(digit_text(n % 10));
    assert(text@ =~= old(text)@ + decimal(n as nat));
}

/// A decimal text has at least one digit, and every character of it is a digit.
pub proof fn lemma_decimal_digits(n: nat)
    ensures
        decimal(n).len() >= 1,
        forall|i: int| 0 <= i < decimal(n).len() ==> '0' <= #[trigger] decimal(n)[i] <= '9',
        n > 0 ==> decimal(n)[0] != '0',
    decreases n,
{
    if n >= 10 {
        lemma_decimal_digits(n / 10);
    }
}

/// A number with two decimals, rounded to the nearest hundredth and of two
/// that are equally near to the even one; a sign only where the sign bit is
/// set; `NaN` for a NaN.
pub open spec fn two_decimals(bits: u64) -> Seq<char> {
    if nan(bits) {
        "NaN"@
    } else {
        let h = hundredths(bits);
        let sign = if sign_set(bits) {
            "-"@
        } else {
            Seq::<char>::empty()
        };
        sign + decimal(h / 100) + "."@ + seq![digit(h / 10 % 10), digit(h % 10)]
    }
}

/// Appends a number between -1.0 and 1.0, or a NaN, with two decimals.
pub fn push_two_decimals(text: &mut String, bits: u64)
    requires
        nan(bits) || magnitude(bits) <= ONE,
    ensures
        final(text)@ == old(text)@ + two_decimals(bits),
{
    if is_nan(bits) {
        text.append("NaN");
        return ;
    }
    let h = round_to_hundredths(bits);
    if bits >= SIGN_BIT {
        text.append("-");
    }
    push_decimal(text, h / 100);
    text.append(".");
    text.append(digit_text(h / 10 % 10));
    text.append(digit_text(h % 10));
    proof {
        reveal_strlit("-");
        assert(text@ =~= old(text)@ + two_decimals(bits));
    }
}

} // verus!
