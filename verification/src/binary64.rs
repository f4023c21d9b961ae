//! IEEE 754 binary64 values, carried as their 64-bit encodings.
//!
//! An encoding is a sign bit, an 11-bit exponent field and a 52-bit fraction
//! field. [`value`] places every encoding that is not a NaN on the extended
//! number line, in units of 2^-1074 (the smallest positive value), so that the
//! order of two numbers is the order of two integers.

use vstd::prelude::*;
use vstd::arithmetic::div_mod::lemma_fundamental_div_mod;
use vstd::arithmetic::div_mod::lemma_fundamental_div_mod_converse;
use vstd::arithmetic::mul::lemma_mul_inequality;
use vstd::arithmetic::mul::lemma_mul_is_associative;
use vstd::arithmetic::mul::lemma_mul_is_commutative;
use vstd::arithmetic::mul::lemma_mul_strict_inequality;
use vstd::arithmetic::power2::lemma2_to64;
use vstd::arithmetic::power2::lemma2_to64_rest;
use vstd::arithmetic::power2::lemma_pow2_adds;
use vstd::arithmetic::power2::lemma_pow2_pos;
use vstd::arithmetic::power2::lemma_pow2_strictly_increases;
use vstd::arithmetic::power2::lemma_pow2_unfold;
use vstd::arithmetic::power2::pow2;

verus! {

/// The sign bit alone: the encoding of -0.0.
pub const SIGN_BIT: u64 = 0x8000_0000_0000_0000;

/// The encoding of +infinity: exponent field all ones, fraction zero.
pub const INFINITY: u64 = 0x7FF0_0000_0000_0000;

/// Two to the 52nd: the number of encodings that share an exponent field.
pub const FRACTION_SPAN: u64 = 0x0010_0000_0000_0000;

/// The encoding of 0.0.
pub const ZERO: u64 = 0x0000_0000_0000_0000;

/// The encoding of 0.5.
pub const HALF: u64 = 0x3FE0_0000_0000_0000;

/// The encoding of 1.0.
pub const ONE: u64 = 0x3FF0_0000_0000_0000;

/// The encoding of 2^-52, the distance from 1.0 to the next number: a sum
/// below it is as good as nothing.
pub const EPSILON: u64 = 0x3CB0_0000_0000_0000;

/// The sign bit is set.
pub open spec fn sign_set(bits: u64) -> bool {
    bits >= SIGN_BIT
}

/// The encoding with its sign bit cleared: the encoding of the absolute value.
pub open spec fn magnitude(bits: u64) -> u64 {
    if bits >= SIGN_BIT {
        (bits - SIGN_BIT) as u64
    } else {
        bits
    }
}

/// The encoding is a NaN: exponent field all ones, fraction not zero.
pub open spec fn nan(bits: u64) -> bool {
    magnitude(bits) > INFINITY
}

/// The encoding is +infinity or -infinity.
pub open spec fn infinite(bits: u64) -> bool {
    magnitude(bits) == INFINITY
}

/// The encoding is zero, subnormal or normal.
pub open spec fn finite(bits: u64) -> bool {
    magnitude(bits) < INFINITY
}

/// The exponent field, 0 to 2047.
pub open spec fn exponent_field(bits: u64) -> nat {
    (magnitude(bits) / FRACTION_SPAN) as nat
}

/// The fraction field, below 2^52.
pub open spec fn fraction_field(bits: u64) -> nat {
    (magnitude(bits) % FRACTION_SPAN) as nat
}

/// The integer significand: the fraction, with the hidden bit where the
/// exponent field is not zero.
pub open spec fn significand(bits: u64) -> nat {
    if exponent_field(bits) == 0 {
        fraction_field(bits)
    } else {
        fraction_field(bits) + FRACTION_SPAN as nat
    }
}

/// The power of two by which the significand is scaled, counted from 2^-1074.
pub open spec fn scale(bits: u64) -> nat {
    if exponent_field(bits) == 0 {
        0
    } else {
        (exponent_field(bits) - 1) as nat
    }
}

/// The absolute value in units of 2^-1074. The same formula puts the
/// infinities at 2^2098, above every finite value.
pub open spec fn absolute_value(bits: u64) -> nat {
    significand(bits) * pow2(scale(bits))
}

/// The place of an encoding on the extended number line, in units of 2^-1074.
/// Both zeros are at 0. It has no meaning for a NaN.
pub open spec fn value(bits: u64) -> int {
    if sign_set(bits) {
        -(absolute_value(bits) as int)
    } else {
        absolute_value(bits) as int
    }
}

/// `a < b` as IEEE 754 orders them: false when either is a NaN.
pub open spec fn below(a: u64, b: u64) -> bool {
    !nan(a) && !nan(b) && value(a) < value(b)
}

/// `a <= b` as IEEE 754 orders them: false when either is a NaN.
pub open spec fn at_most(a: u64, b: u64) -> bool {
    !nan(a) && !nan(b) && value(a) <= value(b)
}

/// `a == b` as IEEE 754 compares them: the zeros are equal, a NaN equals nothing.
pub open spec fn same_number(a: u64, b: u64) -> bool {
    !nan(a) && !nan(b) && value(a) == value(b)
}

/// The number lies in the closed interval from 0.0 to 1.0.
pub open spec fn in_unit_interval(bits: u64) -> bool {
    at_most(ZERO, bits) && at_most(bits, ONE)
}

/// The distance between two integers.
pub open spec fn gap(a: int, b: int) -> nat {
    if a < b {
        (b - a) as nat
    } else {
        (a - b) as nat
    }
}

/// The number is not negative and lies no more than half a unit in its last
/// place from the fraction `numerator / denominator`: it encodes the
/// fraction as exactly as an encoding can.
pub open spec fn approximates(bits: u64, numerator: nat, denominator: nat) -> bool {
    &&& bits < INFINITY
    &&& denominator > 0
    &&& 2 * gap(value(bits) * denominator, (numerator * pow2(1074)) as int) <= pow2(scale(bits))
        * denominator
}

/// Among encodings with the sign bit clear, a greater encoding is a greater
/// number.
pub proof fn lemma_magnitude_order(a: u64, b: u64)
    requires
        a < b < SIGN_BIT,
    ensures
        absolute_value(a) < absolute_value(b),
{
    let span = FRACTION_SPAN as int;
    let ea = exponent_field(a);
    let eb = exponent_field(b);
    let fa = fraction_field(a);
    let fb = fraction_field(b);
    assert(a == ea * span + fa && b == eb * span + fb);
    assert(ea <= eb);
    lemma_pow2_pos(scale(a));
    lemma_pow2_pos(scale(b));
    if ea == eb {
        assert(fa < fb);
        lemma_mul_strict_inequality(
            significand(a) as int,
            significand(b) as int,
            pow2(scale(a)) as int,
        );
    } else if ea == 0 {
        assert(pow2(0) == 1) by {
            vstd::arithmetic::power2::lemma2_to64();
        }
        assert(absolute_value(a) == fa);
        lemma_mul_inequality(1, pow2(scale(b)) as int, significand(b) as int);
        lemma_mul_is_commutative(pow2(scale(b)) as int, significand(b) as int);
    } else {
        // above `a`: 2^53 * 2^(ea-1) == 2^52 * 2^ea
        let pa = pow2(scale(a)) as int;
        let pb = pow2(scale(b)) as int;
        lemma_mul_strict_inequality(significand(a) as int, 2 * span, pa);
        lemma_pow2_unfold(ea);
        assert(pow2(ea) == 2 * pa);
        lemma_mul_is_associative(span, 2, pa);
        assert((2 * span) * pa == span * (2 * pa)) by (nonlinear_arith);
        // 2^ea <= 2^(eb-1)
        if ea < scale(b) {
            lemma_pow2_strictly_increases(ea, scale(b));
        }
        assert(pow2(ea) <= pb);
        lemma_mul_inequality(pow2(ea) as int, pb, span);
        lemma_mul_is_commutative(pow2(ea) as int, span);
        lemma_mul_is_commutative(pb, span);
        // 2^52 * 2^(eb-1) <= significand(b) * 2^(eb-1)
        lemma_mul_inequality(span, significand(b) as int, pb);
    }
}

/// Absolute values are ordered as the encodings of the absolute values are.
pub proof fn lemma_absolute_order(a: u64, b: u64)
    ensures
        (magnitude(a) < magnitude(b)) == (absolute_value(a) < absolute_value(b)),
        (magnitude(a) == magnitude(b)) == (absolute_value(a) == absolute_value(b)),
{
    let ma = magnitude(a);
    let mb = magnitude(b);
    assert(absolute_value(a) == absolute_value(ma));
    assert(absolute_value(b) == absolute_value(mb));
    if ma < mb {
        lemma_magnitude_order(ma, mb);
    } else if mb < ma {
        lemma_magnitude_order(mb, ma);
    }
}

/// Only the two zeros have the value 0.
pub proof fn lemma_zero_value(bits: u64)
    ensures
        (value(bits) == 0) == (magnitude(bits) == 0),
        value(ZERO) == 0,
        value(SIGN_BIT) == 0,
{
    lemma_absolute_order(bits, ZERO);
    assert(absolute_value(ZERO) == 0) by {
        assert(significand(ZERO) == 0);
        assert(0 * pow2(scale(ZERO)) == 0) by (nonlinear_arith);
    }
    assert(absolute_value(SIGN_BIT) == absolute_value(ZERO));
}

/// Whether the encoding is a NaN.
pub fn is_nan(bits: u64) -> (r: bool)
    ensures
        r == nan(bits),
{
    let m: u64 = if bits >= SIGN_BIT { bits - SIGN_BIT } else { bits };
    m > INFINITY
}

/// Whether the encoding is +infinity or -infinity.
pub fn is_infinite(bits: u64) -> (r: bool)
    ensures
        r == infinite(bits),
{
    let m: u64 = if bits >= SIGN_BIT { bits - SIGN_BIT } else { bits };
    m == INFINITY
}

/// Whether the encoding is neither a NaN nor an infinity.
pub fn is_finite(bits: u64) -> (r: bool)
    ensures
        r == finite(bits),
{
    let m: u64 = if bits >= SIGN_BIT { bits - SIGN_BIT } else { bits };
    m < INFINITY
}

/// The encoding of the absolute value: the sign bit is cleared, also on a NaN.
pub fn absolute(bits: u64) -> (r: u64)
    ensures
        r == magnitude(bits),
{
    if bits >= SIGN_BIT {
        bits - SIGN_BIT
    } else {
        bits
    }
}

/// `a < b` on the numbers that `a` and `b` encode.
pub fn less_than(a: u64, b: u64) -> (r: bool)
    ensures
        r == below(a, b),
{
    let ma = absolute(a);
    let mb = absolute(b);
    proof {
        lemma_absolute_order(a, b);
        lemma_zero_value(a);
        lemma_zero_value(b);
    }
    if ma > INFINITY || mb > INFINITY {
        false
    } else if a >= SIGN_BIT {
        if b >= SIGN_BIT {
            mb < ma
        } else {
            ma != 0 || mb != 0
        }
    } else {
        if b >= SIGN_BIT {
            false
        } else {
            ma < mb
        }
    }
}

/// `a > b` on the numbers that `a` and `b` encode.
pub fn greater_than(a: u64, b: u64) -> (r: bool)
    ensures
        r == below(b, a),
{
    less_than(b, a)
}

/// `a >= b` on the numbers that `a` and `b` encode.
pub fn at_least(a: u64, b: u64) -> (r: bool)
    ensures
        r == at_most(b, a),
{
    if is_nan(a) || is_nan(b) {
        false
    } else {
        !less_than(a, b)
    }
}

/// The greater of two numbers; where one is a NaN, the other. Of two equal
/// numbers it is the first.
pub open spec fn greater_of(a: u64, b: u64) -> u64 {
    if nan(a) || below(a, b) {
        b
    } else {
        a
    }
}

/// The lesser of two numbers; where one is a NaN, the other. Of two equal
/// numbers it is the first.
pub open spec fn lesser_of(a: u64, b: u64) -> u64 {
    if nan(a) || below(b, a) {
        b
    } else {
        a
    }
}

/// The greater of two numbers, a NaN giving way to the other argument.
pub fn maximum(a: u64, b: u64) -> (r: u64)
    ensures
        r == greater_of(a, b),
{
    if is_nan(a) || less_than(a, b) {
        b
    } else {
        a
    }
}

/// The lesser of two numbers, a NaN giving way to the other argument.
pub fn minimum(a: u64, b: u64) -> (r: u64)
    ensures
        r == lesser_of(a, b),
{
    if is_nan(a) || less_than(b, a) {
        b
    } else {
        a
    }
}

/// A number brought into the interval from 0.0 to 1.0: what lies below
/// becomes 0.0, what lies above becomes 1.0. A NaN stays as it is.
pub open spec fn unit_clamped(bits: u64) -> u64 {
    if below(bits, ZERO) {
        ZERO
    } else if below(ONE, bits) {
        ONE
    } else {
        bits
    }
}

/// Clamps a number to the interval from 0.0 to 1.0.
pub fn clamp_unit(bits: u64) -> (r: u64)
    ensures
        r == unit_clamped(bits),
{
    if less_than(bits, ZERO) {
        ZERO
    } else if greater_than(bits, ONE) {
        ONE
    } else {
        bits
    }
}

/// Clamping leaves a NaN alone, brings every number into the unit interval,
/// and changes nothing that is already there.
pub proof fn lemma_unit_clamped(bits: u64)
    ensures
        nan(bits) ==> unit_clamped(bits) == bits,
        !nan(bits) ==> in_unit_interval(unit_clamped(bits)),
        in_unit_interval(bits) ==> unit_clamped(bits) == bits,
        unit_clamped(unit_clamped(bits)) == unit_clamped(bits),
{
    lemma_zero_value(bits);
}

/// A number in the unit interval has an encoding from that of 0.0 to that
/// of 1.0, or is -0.0.
pub proof fn lemma_unit_magnitude(bits: u64)
    requires
        in_unit_interval(bits),
    ensures
        magnitude(bits) <= ONE,
        sign_set(bits) ==> bits == SIGN_BIT,
{
    lemma_order_on_encodings(ZERO, bits);
    lemma_order_on_encodings(bits, ONE);
    lemma_order_on_encodings(ONE, bits);
    lemma_zero_value(bits);
}

/// On numbers, `below` is a strict order and `at_most` its reflexive closure;
/// any two numbers are comparable.
pub proof fn lemma_order(a: u64, b: u64, c: u64)
    ensures
        !below(a, a),
        below(a, b) && below(b, c) ==> below(a, c),
        below(a, b) ==> !below(b, a),
        at_most(a, b) == (below(a, b) || same_number(a, b)),
        !nan(a) && !nan(b) ==> (below(a, b) || same_number(a, b) || below(b, a)),
        !nan(a) && !nan(b) ==> at_most(a, b) == !below(b, a),
{
}

/// How the order of two numbers shows in their encodings: numbers without
/// the sign bit are ordered as their encodings are, numbers with it the other
/// way round, and one with it lies below one without it unless both are zero.
pub proof fn lemma_order_on_encodings(a: u64, b: u64)
    requires
        !nan(a),
        !nan(b),
    ensures
        !sign_set(a) && !sign_set(b) ==> below(a, b) == (a < b),
        sign_set(a) && sign_set(b) ==> below(a, b) == (b < a),
        sign_set(a) && !sign_set(b) ==> below(a, b) == (magnitude(a) != 0 || b != 0),
        !sign_set(a) && sign_set(b) ==> !below(a, b),
{
    lemma_absolute_order(a, b);
    lemma_zero_value(a);
    lemma_zero_value(b);
}

/// Two numbers with the same sign bit are equal only as encodings; numbers
/// with different sign bits are equal only when both are zero.
pub proof fn lemma_same_number(a: u64, b: u64)
    requires
        !nan(a),
        !nan(b),
    ensures
        same_number(a, b) == (a == b || (magnitude(a) == 0 && magnitude(b) == 0)),
{
    lemma_absolute_order(a, b);
    lemma_zero_value(a);
    lemma_zero_value(b);
}

/// The absolute value of a number in hundredths, rounded to the nearest
/// whole; of two that are equally near, to the even one.
pub open spec fn hundredths(bits: u64) -> nat {
    let scaled = absolute_value(bits) * 100;
    let unit = pow2(1074);
    let whole = scaled / unit;
    let rest = scaled % unit;
    if 2 * rest > unit || (2 * rest == unit && whole % 2 == 1) {
        whole + 1
    } else {
        whole
    }
}

/// The scaled absolute value of a number splits as a quotient and a
/// remainder do: where the significand times 100 is `whole` times
/// 2^`shift` and `rest` more, and `shift` makes up what the number's scale
/// lacks of 1074.
proof fn lemma_hundredths_split(bits: u64, shift: nat, whole: nat, rest: nat)
    requires
        scale(bits) + shift == 1074,
        significand(bits) * 100 == whole * pow2(shift) + rest,
        rest < pow2(shift),
    ensures
        absolute_value(bits) * 100 / pow2(1074) == whole,
        absolute_value(bits) * 100 % pow2(1074) == rest * pow2(scale(bits)),
        (2 * (rest * pow2(scale(bits))) > pow2(1074)) == (2 * rest > pow2(shift)),
        (2 * (rest * pow2(scale(bits))) == pow2(1074)) == (2 * rest == pow2(shift)),
{
    let lift = pow2(scale(bits)) as int;
    let step = pow2(shift) as int;
    let unit = pow2(1074) as int;
    let sig = significand(bits) as int;
    lemma_pow2_pos(scale(bits));
    lemma_pow2_pos(shift);
    lemma_pow2_adds(scale(bits), shift);
    assert(unit == lift * step);
    assert(sig * lift * 100 == whole * (lift * step) + rest * lift) by (nonlinear_arith)
        requires
            sig * 100 == whole * step + rest,
    ;
    assert(0 <= rest * lift < lift * step) by (nonlinear_arith)
        requires
            0 <= rest < step,
            0 < lift,
    ;
    lemma_fundamental_div_mod_converse(
        (absolute_value(bits) * 100) as int,
        unit,
        whole as int,
        rest * lift,
    );
    assert((2 * (rest * lift) > lift * step) == (2 * rest > step)) by (nonlinear_arith)
        requires
            0 < lift,
    ;
    assert((2 * (rest * lift) == lift * step) == (2 * rest == step)) by (nonlinear_arith)
        requires
            0 < lift,
    ;
}

/// Rounds a number between -1.0 and 1.0 to hundredths of its absolute
/// value.
pub fn round_to_hundredths(bits: u64) -> (r: u64)
    requires
        magnitude(bits) <= ONE,
    ensures
        r == hundredths(bits),
        r <= 100,
{
    let m = absolute(bits);
    let e: u64 = m / FRACTION_SPAN;
    let f: u64 = m % FRACTION_SPAN;
    proof {
        lemma2_to64();
        lemma2_to64_rest();
    }
    if e < 1015 {
        proof {
            let shift = (1074 - scale(bits)) as nat;
            let n = significand(bits) * 100;
            assert(significand(bits) < 0x0020_0000_0000_0000);
            assert(shift >= 61);
            if shift > 61 {
                lemma_pow2_strictly_increases(61, shift);
            }
            assert(pow2(61) == 0x2000_0000_0000_0000);
            assert(2 * n < pow2(shift));
            lemma_hundredths_split(bits, shift, 0, n);
        }
        return 0;
    }
    let n: u64 = (f + FRACTION_SPAN) * 100;
    let mut step: u64 = FRACTION_SPAN;
    let mut shift: u64 = 52;
    while shift < 1075 - e
        invariant
            1015 <= e <= 1023,
            52 <= shift <= 1075 - e,
            step == pow2(shift as nat),
            step <= 0x1000_0000_0000_0000,
        decreases 1075 - e - shift,
    {
        proof {
            lemma_pow2_unfold((shift + 1) as nat);
            lemma2_to64_rest();
            if shift < 60 {
                lemma_pow2_strictly_increases(shift as nat, 60);
            }
        }
        step = step * 2;
        shift = shift + 1;
    }
    let whole: u64 = n / step;
    let rest: u64 = n % step;
    let half: u64 = step / 2;
    proof {
        lemma_pow2_unfold(shift as nat);
        assert(step == 2 * half);
        assert(significand(bits) == f + FRACTION_SPAN);
        lemma_fundamental_div_mod(n as int, step as int);
        lemma_mul_is_commutative(step as int, whole as int);
        lemma_hundredths_split(bits, shift as nat, whole as nat, rest as nat);
        if e == 1023 {
            assert(f == 0);
            assert(step == 0x0010_0000_0000_0000);
            assert(whole == 100 && rest == 0);
        } else {
            assert(n < 100 * step) by (nonlinear_arith)
                requires
                    n == (f + 0x0010_0000_0000_0000) * 100,
                    f < 0x0010_0000_0000_0000,
                    step >= 0x0020_0000_0000_0000,
            ;
            assert(whole < 100) by (nonlinear_arith)
                requires
                    n < 100 * step,
                    whole == n / step,
                    step > 0,
            ;
        }
    }
    if rest > half || (rest == half && whole % 2 == 1) {
        whole + 1
    } else {
        whole
    }
}

/// A number approximates a fraction where its significand does, at the
/// number's own scale.
pub proof fn lemma_approximates(bits: u64, numerator: nat, denominator: nat)
    requires
        bits < INFINITY,
        scale(bits) <= 1074,
        denominator > 0,
        2 * gap(
            (significand(bits) * denominator) as int,
            (numerator * pow2((1074 - scale(bits)) as nat)) as int,
        ) <= denominator,
    ensures
        approximates(bits, numerator, denominator),
{
    let lift = pow2(scale(bits)) as int;
    let shift = (1074 - scale(bits)) as nat;
    let step = pow2(shift) as int;
    let sig = significand(bits) as int;
    let den = denominator as int;
    let num = numerator as int;
    lemma_pow2_pos(scale(bits));
    lemma_pow2_adds(scale(bits), shift);
    assert(pow2(1074) == lift * step);
    assert(value(bits) == sig * lift);
    assert((sig * lift) * den - num * (lift * step) == (sig * den - num * step) * lift)
        by (nonlinear_arith);
    assert(2 * gap((sig * lift) * den, num * (lift * step)) <= lift * den) by (nonlinear_arith)
        requires
            (sig * lift) * den - num * (lift * step) == (sig * den - num * step) * lift,
            2 * gap(sig * den, num * step) <= den,
            lift > 0,
    ;
}

/// The named numbers are what their names say: 0.0 is at 0 on the number
/// line, 1.0 at 2^1074 units of 2^-1074, and 0.5 and 2^-52 are exact.
pub proof fn lemma_named_numbers()
    ensures
        value(ZERO) == 0,
        value(ONE) == pow2(1074),
        approximates(HALF, 1, 2),
        approximates(ONE, 1, 1),
        approximates(EPSILON, 1, 4503599627370496),
{
    lemma2_to64();
    lemma2_to64_rest();
    lemma_pow2_adds(64, 40);
    lemma_zero_value(ZERO);
    lemma_approximates(HALF, 1, 2);
    lemma_approximates(ONE, 1, 1);
    lemma_approximates(EPSILON, 1, 4503599627370496);
    assert(value(ONE) == pow2(1074)) by {
        assert(significand(ONE) == pow2(52));
        assert(scale(ONE) == 1022);
        lemma_pow2_adds(52, 1022);
    }
}

} // verus!
