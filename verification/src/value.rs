//! Raw values as they arrive on the wire, and the numbers that are stored for
//! them.
//!
//! A floating-point number is held by its IEEE 754 binary64 encoding, a `u64`
//! whose top bit is the sign, whose next eleven bits are the biased exponent
//! and whose low 52 bits are the fraction.

use vstd::arithmetic::mul::{lemma_mul_inequality, lemma_mul_strict_inequality};
use vstd::arithmetic::power2::{
    lemma2_to64, lemma2_to64_rest, lemma_pow2_adds, lemma_pow2_pos, lemma_pow2_strictly_increases,
    pow2,
};
use vstd::prelude::*;

verus! {

/// The binary64 encoding of `0.0`.
pub const ZERO_BITS: u64 = 0;

/// The binary64 encoding of `1.0`, the least valid analog value.
pub const ONE_BITS: u64 = 0x3FF0_0000_0000_0000;

/// The binary64 encoding of `65535.0`, the greatest valid analog value.
pub const ANALOG_MAX_BITS: u64 = 0x40EF_FFE0_0000_0000;

/// The biased exponent of `1.0`.
pub const EXPONENT_BIAS: u64 = 1023;

/// The sign bit of an encoding: 1 for a negative number.
pub open spec fn sign_of(bits: u64) -> u64 {
    bits >> 63
}

/// The biased exponent of an encoding.
pub open spec fn exponent_of(bits: u64) -> u64 {
    (bits >> 52) & 0x7FF
}

/// The fraction field of an encoding.
pub open spec fn fraction_of(bits: u64) -> u64 {
    bits & 0xF_FFFF_FFFF_FFFF
}

/// The encoded number lies between `1.0` and `65535.0`, both included.
///
/// Among encodings with a clear sign bit the order of the encodings is the
/// order of the numbers, and every infinity and not-a-number lies above
/// `ANALOG_MAX_BITS`, so the range of numbers is a range of encodings.
pub open spec fn analog_in_range(bits: u64) -> bool {
    ONE_BITS <= bits <= ANALOG_MAX_BITS
}

/// A raw value of a request: a JSON value, told apart by its shape.
#[derive(Debug, Clone, PartialEq, Eq)]
pub enum RawValue {
    /// A number written as an integer.
    Integer(i128),
    /// A number written with a fraction or an exponent, by its encoding.
    Float(u64),
    /// A string.
    Text(String),
    /// `true` or `false`.
    Bool(bool),
    /// `null`.
    Null,
    /// An array or an object.
    Compound,
}

/// The shape of a raw value: what classification reads of it.
pub enum Shape {
    /// An integer.
    Integer(i128),
    /// A float, by its encoding.
    Float(u64),
    /// Anything that is no number.
    NonNumeric,
}

impl RawValue {
    /// The shape of this value.
    pub open spec fn shape(self) -> Shape {
        match self {
            RawValue::Integer(v) => Shape::Integer(v),
            RawValue::Float(bits) => Shape::Float(bits),
            _ => Shape::NonNumeric,
        }
    }
}

/// The 64-bit floating-point number that is stored for a reading.
#[derive(Debug, Clone, Copy, PartialEq, Eq, Structural)]
pub enum SignalValue {
    /// The floating-point number nearest to this integer.
    Integer(i128),
    /// The floating-point number with this encoding.
    Float(u64),
    /// The not-a-number placeholder of a reading that has no number.
    NotANumber,
}

/// Tells whether an encoded number lies between `1.0` and `65535.0`.
pub fn is_analog_in_range(bits: u64) -> (r: bool)
    ensures
        r == analog_in_range(bits),
{
    ONE_BITS <= bits && bits <= ANALOG_MAX_BITS
}

/// The encodings in the analog range are those with a clear sign bit and an
/// exponent of 0 to 15 over the bias, where at the exponent 15 the fraction
/// is at most that of `65535.0`: the numbers `2^e * (1 + f / 2^52)` with
/// `0 <= e < 15`, and those with `e == 15` and `f <= 2^52 - 2^37`.
pub proof fn analog_range_by_fields(bits: u64)
    ensures
        analog_in_range(bits) <==> {
            &&& sign_of(bits) == 0
            &&& EXPONENT_BIAS <= exponent_of(bits) <= EXPONENT_BIAS + 15
            &&& (exponent_of(bits) == EXPONENT_BIAS + 15 ==> fraction_of(bits)
                <= 0xF_FFE0_0000_0000)
        },
{
    assert((0x3FF0_0000_0000_0000 <= bits <= 0x40EF_FFE0_0000_0000) <==> ((bits >> 63) == 0
        && 1023 <= ((bits >> 52) & 0x7FF) <= 1038 && (((bits >> 52) & 0x7FF) == 1038 ==> (bits
        & 0xF_FFFF_FFFF_FFFF) <= 0xF_FFE0_0000_0000))) by (bit_vector);
}

/// The encoding is that of a finite number: no infinity, no not-a-number.
pub open spec fn is_finite(bits: u64) -> bool {
    exponent_of(bits) < 0x7FF
}

/// The absolute value of the number that a finite encoding stands for, in
/// units of `2^-1074`, the least positive number that has an encoding: with
/// the exponent `e` and the fraction `f`, that is `f` where `e` is 0, and
/// `(2^52 + f) * 2^(e - 1)` elsewhere.
pub open spec fn magnitude(bits: u64) -> nat {
    let e = exponent_of(bits) as nat;
    let f = fraction_of(bits) as nat;
    if e == 0 {
        f
    } else {
        (pow2(52) + f) * pow2((e - 1) as nat)
    }
}

/// `pow2` does not decrease.
proof fn pow2_grows(a: nat, b: nat)
    requires
        a <= b,
    ensures
        pow2(a) <= pow2(b),
{
    if a < b {
        lemma_pow2_strictly_increases(a, b);
    }
}

/// The encodings in the analog range are those of the numbers from `1.0` to
/// `65535.0`: the encodings of finite numbers that are not negative and whose
/// magnitude lies between one and 65535 times `2^1074`.
pub proof fn analog_range_by_value(bits: u64)
    ensures
        analog_in_range(bits) <==> {
            &&& sign_of(bits) == 0
            &&& is_finite(bits)
            &&& pow2(1074) <= magnitude(bits) <= 65535 * pow2(1074)
        },
{
    analog_range_by_fields(bits);
    lemma2_to64();
    lemma2_to64_rest();
    let e = exponent_of(bits) as nat;
    let f = fraction_of(bits) as nat;
    assert(f < 0x10_0000_0000_0000) by {
        assert((bits & 0xF_FFFF_FFFF_FFFF) < 0x10_0000_0000_0000) by (bit_vector);
    }
    assert(e <= 0x7FF) by {
        assert(((bits >> 52) & 0x7FF) <= 0x7FF) by (bit_vector);
    }
    let unit = pow2(1074);
    lemma_pow2_pos(1074);
    if e == 0 {
        pow2_grows(52, 1074);
    } else {
        let scale = pow2((e - 1) as nat);
        let m = pow2(52) + f;
        lemma_pow2_pos((e - 1) as nat);
        lemma_pow2_adds(52, (e - 1) as nat);
        lemma_pow2_adds(53, (e - 1) as nat);
        // 2^(e + 51) <= magnitude < 2^(e + 52)
        assert(pow2(e + 51) <= m * scale) by {
            lemma_mul_inequality(pow2(52) as int, m as int, scale as int);
        }
        assert(m * scale < pow2(e + 52)) by {
            lemma_mul_strict_inequality(m as int, pow2(53) as int, scale as int);
        }
        if e < 1023 {
            pow2_grows(e + 52, 1074);
        } else {
            pow2_grows(1074, e + 51);
            if e <= 1037 {
                pow2_grows(e + 52, 1089);
                lemma_pow2_adds(15, 1074);
                assert(pow2(1089) <= 65535 * unit) by (nonlinear_arith)
                    requires
                        pow2(1089) == 32768 * unit,
                        unit > 0,
                ;
            } else if e == 1038 {
                // 2^1074 is 2^37 * 2^1037, so the bound is on 2^52 + f alone.
                lemma_pow2_adds(37, 1037);
                let bound = 65535 * pow2(37);
                assert(65535 * unit == bound * scale) by (nonlinear_arith)
                    requires
                        unit == pow2(37) * scale,
                        bound == 65535 * pow2(37),
                ;
                if m <= bound {
                    lemma_mul_inequality(m as int, bound as int, scale as int);
                } else {
                    lemma_mul_strict_inequality(bound as int, m as int, scale as int);
                }
            } else {
                pow2_grows(1090, e + 51);
                lemma_pow2_adds(16, 1074);
                assert(65535 * unit < pow2(1090)) by (nonlinear_arith)
                    requires
                        pow2(1090) == 65536 * unit,
                        unit > 0,
                ;
            }
        }
    }
}

} // verus!
