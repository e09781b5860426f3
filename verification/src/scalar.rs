//! Control values as IEEE-754 single-precision bit patterns.
//!
//! The library never computes with fractions. It carries every control as
//! the 32-bit pattern of a single-precision number and decides, from the
//! pattern alone, on which side of a threshold the number lies. The meaning
//! of a pattern is given exactly, as an integer multiple of 2^-149.

use vstd::prelude::*;
use vstd::arithmetic::power2::{
    lemma2_to64,
    lemma2_to64_rest,
    lemma_pow2_adds,
    lemma_pow2_pos,
    lemma_pow2_strictly_increases,
    pow2,
};

verus! {

/// Pattern of positive infinity; every larger magnitude is not a number.
pub const INFINITY_BITS: u32 = 0x7f80_0000;

/// Lowest pattern with the sign set.
pub const SIGN_BIT: u32 = 0x8000_0000;

/// Pattern of 0.0.
pub const ZERO_BITS: u32 = 0;

/// Pattern of 0.5.
pub const HALF_BITS: u32 = 0x3f00_0000;

/// Pattern of 1.0.
pub const ONE_BITS: u32 = 0x3f80_0000;

/// Largest pattern whose value does not exceed one millionth.
pub const EPSILON_BITS: u32 = 0x3586_37bd;

/// Largest pattern below 1.0 that is more than one millionth away from it.
pub const BELOW_ONE_BITS: u32 = 0x3f7f_ffef;

/// Smallest pattern above 1.0 that is more than one millionth away from it.
pub const ABOVE_ONE_BITS: u32 = 0x3f80_0009;

/// A single-precision number, held as its bit pattern.
#[derive(Clone, Copy, Debug, PartialEq, Eq, Structural)]
pub struct Scalar {
    pub bits: u32,
}

/// The pattern with its sign cleared.
pub open spec fn magnitude_bits(bits: u32) -> int {
    bits as int % 0x8000_0000
}

/// The eight-bit biased exponent of a pattern.
pub open spec fn exponent_field(bits: u32) -> int {
    magnitude_bits(bits) / 0x80_0000
}

/// The twenty-three fraction bits of a pattern.
pub open spec fn fraction_field(bits: u32) -> int {
    bits as int % 0x80_0000
}

/// For a finite pattern: the absolute value of the number, times 2^149.
/// Subnormal patterns count their fraction bits alone; normal ones add the
/// hidden leading bit and scale by the exponent.
pub open spec fn scaled_magnitude(bits: u32) -> int {
    if exponent_field(bits) == 0 {
        fraction_field(bits)
    } else {
        (0x80_0000 + fraction_field(bits)) * pow2((exponent_field(bits) - 1) as nat)
    }
}

/// The unit in which `scaled_magnitude` counts: 1.0 times 2^149.
pub open spec fn scaled_one() -> int {
    pow2(149) as int
}

impl Scalar {
    /// The sign bit is set.
    pub open spec fn is_negative(self) -> bool {
        self.bits >= SIGN_BIT
    }

    /// The pattern encodes no number.
    pub open spec fn is_nan(self) -> bool {
        magnitude_bits(self.bits) > INFINITY_BITS
    }

    /// The pattern encodes positive or negative infinity.
    pub open spec fn is_infinite(self) -> bool {
        magnitude_bits(self.bits) == INFINITY_BITS
    }

    /// For a finite pattern: the number, times 2^149.
    pub open spec fn scaled(self) -> int {
        if self.is_negative() {
            -scaled_magnitude(self.bits)
        } else {
            scaled_magnitude(self.bits)
        }
    }

    /// The number is greater than 1/1000000.
    pub open spec fn above_epsilon(self) -> bool {
        &&& !self.is_nan()
        &&& !self.is_negative()
        &&& (self.is_infinite() || self.scaled() * 1_000_000 > scaled_one())
    }

    /// The absolute value of the number is greater than 1/1000000.
    pub open spec fn magnitude_above_epsilon(self) -> bool {
        &&& !self.is_nan()
        &&& (self.is_infinite() || scaled_magnitude(self.bits) * 1_000_000 > scaled_one())
    }

    /// The number differs from 1 by more than 1/1000000.
    pub open spec fn away_from_one(self) -> bool {
        &&& !self.is_nan()
        &&& (self.is_infinite() || {
            ||| (self.scaled() - scaled_one()) * 1_000_000 > scaled_one()
            ||| (scaled_one() - self.scaled()) * 1_000_000 > scaled_one()
        })
    }

    /// The number is greater than 1/2.
    pub open spec fn above_half(self) -> bool {
        &&& !self.is_nan()
        &&& !self.is_negative()
        &&& (self.is_infinite() || self.scaled() * 2 > scaled_one())
    }

    /// Wraps a bit pattern.
    pub fn from_bits(bits: u32) -> (r: Scalar)
        ensures
            r.bits == bits,
    {
        Scalar { bits }
    }

    /// The number 0.0.
    pub fn zero() -> (r: Scalar)
        ensures
            r.bits == ZERO_BITS,
    {
        Scalar { bits: ZERO_BITS }
    }

    /// The number 1.0.
    pub fn one() -> (r: Scalar)
        ensures
            r.bits == ONE_BITS,
    {
        Scalar { bits: ONE_BITS }
    }

    /// The bit pattern.
    pub fn to_bits(self) -> (r: u32)
        ensures
            r == self.bits,
    {
        self.bits
    }

    /// Whether the number is greater than one millionth. Patterns that are
    /// not numbers compare false.
    pub fn exceeds_epsilon(self) -> (r: bool)
        ensures
            r == self.above_epsilon(),
    {
        proof {
            lemma_above_epsilon_patterns(self);
        }
        self.bits > EPSILON_BITS && self.bits <= INFINITY_BITS
    }

    /// Whether the absolute value of the number is greater than one
    /// millionth. Patterns that are not numbers compare false.
    pub fn magnitude_exceeds_epsilon(self) -> (r: bool)
        ensures
            r == self.magnitude_above_epsilon(),
    {
        let m: u32 = if self.bits >= SIGN_BIT {
            self.bits - SIGN_BIT
        } else {
            self.bits
        };
        proof {
            lemma_magnitude_above_epsilon_patterns(self);
        }
        m > EPSILON_BITS && m <= INFINITY_BITS
    }

    /// Whether the number differs from 1 by more than one millionth.
    /// Patterns that are not numbers compare false.
    pub fn departs_from_one(self) -> (r: bool)
        ensures
            r == self.away_from_one(),
    {
        let m: u32 = if self.bits >= SIGN_BIT {
            self.bits - SIGN_BIT
        } else {
            self.bits
        };
        proof {
            lemma_away_from_one_patterns(self);
        }
        m <= INFINITY_BITS && (self.bits >= SIGN_BIT || self.bits <= BELOW_ONE_BITS || self.bits
            >= ABOVE_ONE_BITS)
    }

    /// Whether the number is greater than one half. Patterns that are not
    /// numbers compare false.
    pub fn exceeds_half(self) -> (r: bool)
        ensures
            r == self.above_half(),
    {
        proof {
            lemma_above_half_patterns(self);
        }
        self.bits > HALF_BITS && self.bits <= INFINITY_BITS
    }
}

/// The numbers above one millionth are the patterns from the one after
/// `EPSILON_BITS` up to positive infinity.
pub proof fn lemma_above_epsilon_patterns(s: Scalar)
    ensures
        s.above_epsilon() <==> EPSILON_BITS < s.bits <= INFINITY_BITS,
{
    lemma_epsilon_bracket();
    if s.bits < SIGN_BIT {
        if s.bits <= EPSILON_BITS {
            lemma_scaled_magnitude_monotonic(s.bits, EPSILON_BITS);
        } else if s.bits < INFINITY_BITS {
            lemma_scaled_magnitude_monotonic(add_one(EPSILON_BITS), s.bits);
        }
    }
}

/// The numbers whose absolute value is above one millionth are the patterns
/// that, with the sign cleared, run from the one after `EPSILON_BITS` up to
/// infinity.
pub proof fn lemma_magnitude_above_epsilon_patterns(s: Scalar)
    ensures
        s.magnitude_above_epsilon() <==> EPSILON_BITS < magnitude_bits(s.bits) <= INFINITY_BITS,
{
    let m = magnitude_bits(s.bits) as u32;
    lemma_sign_is_ignored(s.bits, m);
    lemma_epsilon_bracket();
    if m <= EPSILON_BITS {
        lemma_scaled_magnitude_monotonic(m, EPSILON_BITS);
    } else if m < INFINITY_BITS {
        lemma_scaled_magnitude_monotonic(add_one(EPSILON_BITS), m);
    }
}

/// The numbers within one millionth of 1 are the patterns strictly between
/// `BELOW_ONE_BITS` and `ABOVE_ONE_BITS`; every other number is away from it.
pub proof fn lemma_away_from_one_patterns(s: Scalar)
    ensures
        s.away_from_one() <==> {
            &&& magnitude_bits(s.bits) <= INFINITY_BITS
            &&& (s.bits >= SIGN_BIT || s.bits <= BELOW_ONE_BITS || s.bits >= ABOVE_ONE_BITS)
        },
{
    let m = magnitude_bits(s.bits) as u32;
    lemma_sign_is_ignored(s.bits, m);
    lemma_one_bracket();
    lemma_pow2_pos(149);
    if s.bits >= SIGN_BIT {
        lemma_scaled_magnitude_nonnegative(s.bits);
    } else if s.bits <= BELOW_ONE_BITS {
        lemma_scaled_magnitude_monotonic(s.bits, BELOW_ONE_BITS);
    } else if s.bits < ONE_BITS {
        lemma_scaled_magnitude_monotonic(add_one(BELOW_ONE_BITS), s.bits);
        lemma_scaled_magnitude_monotonic(s.bits, ONE_BITS);
    } else if s.bits < ABOVE_ONE_BITS {
        lemma_scaled_magnitude_monotonic(ONE_BITS, s.bits);
        lemma_scaled_magnitude_monotonic(s.bits, sub_one(ABOVE_ONE_BITS));
    } else if s.bits < INFINITY_BITS {
        lemma_scaled_magnitude_monotonic(ABOVE_ONE_BITS, s.bits);
    }
}

/// The numbers above one half are the patterns from the one after
/// `HALF_BITS` up to positive infinity.
pub proof fn lemma_above_half_patterns(s: Scalar)
    ensures
        s.above_half() <==> HALF_BITS < s.bits <= INFINITY_BITS,
{
    lemma_half_bracket();
    if s.bits < SIGN_BIT {
        if s.bits <= HALF_BITS {
            lemma_scaled_magnitude_monotonic(s.bits, HALF_BITS);
        } else if s.bits < INFINITY_BITS {
            lemma_scaled_magnitude_monotonic(add_one(HALF_BITS), s.bits);
        }
    }
}

/// The next pattern up.
spec fn add_one(bits: u32) -> u32
    recommends
        bits < u32::MAX,
{
    (bits + 1) as u32
}

/// The next pattern down.
spec fn sub_one(bits: u32) -> u32
    recommends
        bits > 0,
{
    (bits - 1) as u32
}

/// Clearing the sign changes neither exponent nor fraction.
proof fn lemma_sign_is_ignored(bits: u32, m: u32)
    requires
        m == if bits >= SIGN_BIT {
            bits - SIGN_BIT
        } else {
            bits as int
        },
    ensures
        m == magnitude_bits(bits),
        magnitude_bits(m) == m,
        scaled_magnitude(m) == scaled_magnitude(bits),
{
    assert(fraction_field(m) == fraction_field(bits)) by {
        if bits >= SIGN_BIT {
            assert((bits as int - 0x8000_0000) % 0x80_0000 == bits as int % 0x80_0000) by {
                vstd::arithmetic::div_mod::lemma_mod_sub_multiples_vanish(
                    bits as int - 0x8000_0000 + 0x8000_0000,
                    0x80_0000,
                );
                vstd::arithmetic::div_mod::lemma_mod_multiples_vanish(-256, bits as int, 0x80_0000);
            }
        }
    }
}

/// A scaled magnitude is never negative.
proof fn lemma_scaled_magnitude_nonnegative(bits: u32)
    ensures
        scaled_magnitude(bits) >= 0,
{
    let e = exponent_field(bits);
    if e != 0 {
        lemma_pow2_pos((e - 1) as nat);
        assert((0x80_0000 + fraction_field(bits)) * pow2((e - 1) as nat) >= 0)
            by (nonlinear_arith)
            requires
                fraction_field(bits) >= 0,
                pow2((e - 1) as nat) > 0,
        ;
    }
}

/// Among patterns with the sign clear, a larger pattern encodes a larger
/// number: the encoding is monotonic.
pub proof fn lemma_scaled_magnitude_monotonic(a: u32, b: u32)
    requires
        a <= b,
        b < SIGN_BIT,
    ensures
        scaled_magnitude(a) <= scaled_magnitude(b),
        a < b ==> scaled_magnitude(a) < scaled_magnitude(b),
{
    let ea = exponent_field(a);
    let eb = exponent_field(b);
    let fa = fraction_field(a);
    let fb = fraction_field(b);
    assert(a == ea * 0x80_0000 + fa && b == eb * 0x80_0000 + fb);
    assert(ea <= eb);
    if ea == eb {
        if ea != 0 {
            lemma_pow2_pos((ea - 1) as nat);
            let p = pow2((ea - 1) as nat) as int;
            assert((0x80_0000 + fa) * p <= (0x80_0000 + fb) * p) by (nonlinear_arith)
                requires
                    fa <= fb,
                    p > 0,
            ;
            assert(fa < fb ==> (0x80_0000 + fa) * p < (0x80_0000 + fb) * p) by (nonlinear_arith)
                requires
                    p > 0,
            ;
        }
    } else {
        // the whole binade of `a` lies below the first number of the binade of `b`
        lemma_pow2_pos((eb - 1) as nat);
        let pb = pow2((eb - 1) as nat) as int;
        assert(0x80_0000 * pb <= (0x80_0000 + fb) * pb) by (nonlinear_arith)
            requires
                fb >= 0,
                pb > 0,
        ;
        if ea == 0 {
            assert(0x80_0000 <= 0x80_0000 * pb) by (nonlinear_arith)
                requires
                    pb > 0,
            ;
        } else {
            let pa = pow2((ea - 1) as nat) as int;
            lemma_pow2_pos((ea - 1) as nat);
            assert(pow2(ea as nat) == 2 * pa) by {
                vstd::arithmetic::power2::lemma_pow2_unfold(ea as nat);
            }
            if ea < eb - 1 {
                lemma_pow2_strictly_increases(ea as nat, (eb - 1) as nat);
            }
            assert(2 * pa <= pb);
            assert((0x80_0000 + fa) * pa < 0x80_0000 * pb) by (nonlinear_arith)
                requires
                    0 <= fa < 0x80_0000,
                    pa > 0,
                    2 * pa <= pb,
            ;
        }
    }
}

/// One millionth lies between the threshold pattern and its successor.
proof fn lemma_epsilon_bracket()
    ensures
        scaled_magnitude(EPSILON_BITS) * 1_000_000 <= scaled_one(),
        scaled_magnitude(add_one(EPSILON_BITS)) * 1_000_000 > scaled_one(),
{
    lemma2_to64();
    lemma2_to64_rest();
    lemma_pow2_adds(43, 106);
    lemma_pow2_pos(106);
    let p = pow2(106) as int;
    assert(exponent_field(EPSILON_BITS) == 107 && fraction_field(EPSILON_BITS) == 407485);
    assert(exponent_field(add_one(EPSILON_BITS)) == 107 && fraction_field(add_one(EPSILON_BITS))
        == 407486);
    assert(pow2(43) == 8796093022208);
    assert((8796093 * p) * 1_000_000 <= 8796093022208 * p) by (nonlinear_arith)
        requires
            p > 0,
    ;
    assert((8796094 * p) * 1_000_000 > 8796093022208 * p) by (nonlinear_arith)
        requires
            p > 0,
    ;
}

/// One half lies exactly on its pattern.
proof fn lemma_half_bracket()
    ensures
        scaled_magnitude(HALF_BITS) * 2 == scaled_one(),
        scaled_magnitude(add_one(HALF_BITS)) * 2 > scaled_one(),
{
    lemma2_to64();
    lemma_pow2_adds(24, 125);
    lemma_pow2_pos(125);
    let p = pow2(125) as int;
    assert(exponent_field(HALF_BITS) == 126 && fraction_field(HALF_BITS) == 0);
    assert(exponent_field(add_one(HALF_BITS)) == 126 && fraction_field(add_one(HALF_BITS)) == 1);
    assert((0x80_0000 * p) * 2 == 0x100_0000 * p) by (nonlinear_arith);
    assert((0x80_0001 * p) * 2 > 0x100_0000 * p) by (nonlinear_arith)
        requires
            p > 0,
    ;
}

/// The four patterns that fence the band of one millionth around 1.0.
proof fn lemma_one_bracket()
    ensures
        scaled_magnitude(ONE_BITS) == scaled_one(),
        (scaled_one() - scaled_magnitude(BELOW_ONE_BITS)) * 1_000_000 > scaled_one(),
        (scaled_one() - scaled_magnitude(add_one(BELOW_ONE_BITS))) * 1_000_000 <= scaled_one(),
        (scaled_magnitude(sub_one(ABOVE_ONE_BITS)) - scaled_one()) * 1_000_000 <= scaled_one(),
        (scaled_magnitude(ABOVE_ONE_BITS) - scaled_one()) * 1_000_000 > scaled_one(),
{
    lemma2_to64();
    lemma_pow2_adds(23, 126);
    lemma_pow2_adds(24, 125);
    lemma_pow2_adds(1, 125);
    lemma_pow2_pos(125);
    let p = pow2(125) as int;
    let q = pow2(126) as int;
    assert(q == 2 * p);
    assert(exponent_field(ONE_BITS) == 127 && fraction_field(ONE_BITS) == 0);
    assert(exponent_field(ABOVE_ONE_BITS) == 127 && fraction_field(ABOVE_ONE_BITS) == 9);
    assert(exponent_field(sub_one(ABOVE_ONE_BITS)) == 127 && fraction_field(
        sub_one(ABOVE_ONE_BITS),
    ) == 8);
    assert(exponent_field(BELOW_ONE_BITS) == 126 && fraction_field(BELOW_ONE_BITS) == 0x7f_ffef);
    assert(exponent_field(add_one(BELOW_ONE_BITS)) == 126 && fraction_field(
        add_one(BELOW_ONE_BITS),
    ) == 0x7f_fff0);
    assert(scaled_one() == 0x100_0000 * p) by (nonlinear_arith)
        requires
            scaled_one() == pow2(24) * pow2(125),
            pow2(24) == 0x100_0000,
            p == pow2(125),
    ;
    assert(0x80_0000 * q == 0x100_0000 * p) by (nonlinear_arith)
        requires
            q == 2 * p,
    ;
    assert((0x100_0000 * p - 0xff_ffef * p) * 1_000_000 > 0x100_0000 * p) by (nonlinear_arith)
        requires
            p > 0,
    ;
    assert((0x100_0000 * p - 0xff_fff0 * p) * 1_000_000 <= 0x100_0000 * p) by (nonlinear_arith)
        requires
            p > 0,
    ;
    assert((0x80_0008 * q - 0x100_0000 * p) * 1_000_000 <= 0x100_0000 * p) by (nonlinear_arith)
        requires
            q == 2 * p,
            p > 0,
    ;
    assert((0x80_0009 * q - 0x100_0000 * p) * 1_000_000 > 0x100_0000 * p) by (nonlinear_arith)
        requires
            q == 2 * p,
            p > 0,
    ;
}

} // verus!
