//! The scalar value union and its decoding visitor.
//!
//! `MyScalarValue` carries every leaf value the engine can represent:
//! 32-bit integers, 64-bit integers (the `Long` extension), 64-bit
//! floating-point numbers (held as their IEEE 754 bit pattern, so that
//! the representation stays within verifiable integer arithmetic),
//! owned text, and booleans.
//!
//! `MyScalarValueVisitor` implements the seven-case decoding protocol
//! for untyped external input (booleans, signed 32/64-bit, unsigned
//! 32/64-bit, floating point, text) with a widening policy: values are
//! stored in the narrowest variant that holds them exactly, and an
//! unsigned 64-bit value beyond the signed 64-bit range deliberately
//! falls back to the lossy floating-point variant, matching producers
//! that serialize integral floats without a decimal point.

use vstd::prelude::*;
use vstd::arithmetic::power2::{pow2, lemma_pow2_adds, lemma_pow2_strictly_increases, lemma2_to64, lemma2_to64_rest, lemma_pow2_pos};
use vstd::arithmetic::mul::{lemma_mul_inequality, lemma_mul_strict_inequality};

verus! {

/// Mathematical model of a scalar value: text is abstracted to its
/// character sequence, floating-point values to their bit pattern.
pub enum SpecScalar {
    Int(i32),
    Long(i64),
    Float(u64),
    Str(Seq<char>),
    Boolean(bool),
}

/// A leaf value of the engine. The `Float` variant stores the IEEE 754
/// bit pattern of the 64-bit floating-point number it represents.
#[derive(Debug, PartialEq, Eq, Clone)]
pub enum MyScalarValue {
    Int(i32),
    Long(i64),
    Float(u64),
    String(String),
    Boolean(bool),
}

impl View for MyScalarValue {
    type V = SpecScalar;

    open spec fn view(&self) -> SpecScalar {
        match self {
            MyScalarValue::Int(i) => SpecScalar::Int(*i),
            MyScalarValue::Long(l) => SpecScalar::Long(*l),
            MyScalarValue::Float(b) => SpecScalar::Float(*b),
            MyScalarValue::String(s) => SpecScalar::Str(s@),
            MyScalarValue::Boolean(b) => SpecScalar::Boolean(*b),
        }
    }
}

/// What `as_int` observes of a scalar model.
pub open spec fn spec_as_int(m: SpecScalar) -> Option<i32> {
    match m {
        SpecScalar::Int(i) => Some(i),
        _ => None,
    }
}

/// What the string accessors observe of a scalar model.
pub open spec fn spec_as_string(m: SpecScalar) -> Option<Seq<char>> {
    match m {
        SpecScalar::Str(s) => Some(s),
        _ => None,
    }
}

/// What `as_float` observes of a scalar model: the bit pattern of the
/// held float, or of the exact widening of a held 32-bit integer.
pub open spec fn spec_as_float(m: SpecScalar) -> Option<u64> {
    match m {
        SpecScalar::Int(i) => Some(spec_f64_bits_of_i32(i)),
        SpecScalar::Float(b) => Some(b),
        _ => None,
    }
}

/// What `as_boolean` observes of a scalar model.
pub open spec fn spec_as_boolean(m: SpecScalar) -> Option<bool> {
    match m {
        SpecScalar::Boolean(b) => Some(b),
        _ => None,
    }
}

impl MyScalarValue {
    /// The held 32-bit integer, if that variant is active.
    pub fn as_int(&self) -> (r: Option<i32>)
        ensures
            r == spec_as_int(self@),
    {
        match self {
            MyScalarValue::Int(i) => Some(*i),
            _ => None,
        }
    }

    /// The held 64-bit integer, if that variant is active.
    pub fn as_long(&self) -> (r: Option<i64>)
        ensures
            r == (match self@ {
                SpecScalar::Long(l) => Some(l),
                _ => None,
            }),
    {
        match self {
            MyScalarValue::Long(l) => Some(*l),
            _ => None,
        }
    }

    /// A copy of the held text, if the text variant is active.
    pub fn as_string(&self) -> (r: Option<String>)
        ensures
            r.deep_view() == spec_as_string(self@),
    {
        match self {
            MyScalarValue::String(s) => Some(s.clone()),
            _ => None,
        }
    }

    /// The held text by value, if the text variant is active.
    pub fn into_string(self) -> (r: Option<String>)
        ensures
            r.deep_view() == spec_as_string(self@),
    {
        match self {
            MyScalarValue::String(s) => Some(s),
            _ => None,
        }
    }

    /// The held text borrowed, if the text variant is active.
    pub fn as_str(&self) -> (r: Option<&str>)
        ensures
            r.deep_view() == spec_as_string(self@),
    {
        match self {
            MyScalarValue::String(s) => Some(s.as_str()),
            _ => None,
        }
    }

    /// The bit pattern of the held value widened to a 64-bit float:
    /// either the held float itself, or the exact float representation
    /// of a held 32-bit integer. No other variant widens.
    pub fn as_float(&self) -> (r: Option<u64>)
        ensures
            r == spec_as_float(self@),
    {
        match self {
            MyScalarValue::Int(i) => Some(f64_bits_of_i32(*i)),
            MyScalarValue::Float(b) => Some(*b),
            _ => None,
        }
    }

    /// The held boolean, if that variant is active.
    pub fn as_boolean(&self) -> (r: Option<bool>)
        ensures
            r == spec_as_boolean(self@),
    {
        match self {
            MyScalarValue::Boolean(b) => Some(*b),
            _ => None,
        }
    }
}

/// Position of the most significant set bit of `a` (0 for 0 and 1).
pub open spec fn spec_msb(a: nat) -> nat
    decreases a,
{
    if a <= 1 {
        0
    } else {
        1 + spec_msb(a / 2)
    }
}

/// The IEEE 754 double-precision bit pattern of a 32-bit signed
/// integer. The conversion is exact: a magnitude below `2^32` always
/// fits in the 53-bit significand.
pub open spec fn spec_f64_bits_of_i32(v: i32) -> u64 {
    if v == 0 {
        0
    } else {
        let a = (if v < 0 { -(v as int) } else { v as int }) as nat;
        let e = spec_msb(a);
        let sign: int = if v < 0 { 0x8000000000000000 } else { 0 };
        (sign + (e + 1023) * 0x10000000000000 + (a * pow2((52 - e) as nat) - pow2(52))) as u64
    }
}

/// The IEEE 754 double-precision bit pattern that a 64-bit unsigned
/// value in `[2^63, 2^64)` rounds to (round to nearest, ties to even):
/// the top 53 bits of `v` form the significand, the low 11 bits decide
/// the rounding, and a significand overflow carries into the exponent.
pub open spec fn spec_f64_bits_of_big_u64(v: u64) -> u64
    recommends
        v >= 0x8000000000000000,
{
    let m = v as int / 2048;
    let r = v as int % 2048;
    let round = m + if r > 1024 || (r == 1024 && m % 2 == 1) { 1int } else { 0int };
    if round == 0x20000000000000 {
        0x43F0000000000000u64
    } else {
        (0x43E0000000000000 + (round - 0x10000000000000)) as u64
    }
}

/// `pow2(e)` bounds `a` both sides exactly when `e` is the index of the
/// most significant set bit.
proof fn lemma_msb_unique(a: nat, e: nat)
    requires
        pow2(e) <= a < pow2(e + 1),
    ensures
        spec_msb(a) == e,
    decreases e,
{
    lemma2_to64();
    if e == 0 {
        assert(a == 1);
    } else {
        lemma_pow2_adds((e - 1) as nat, 1);
        lemma_pow2_adds(e, 1);
        assert(pow2(e) == pow2((e - 1) as nat) * 2);
        assert(pow2(e + 1) == pow2(e) * 2);
        assert(pow2((e - 1) as nat) <= a / 2 < pow2(e)) by {
            lemma_pow2_pos((e - 1) as nat);
        }
        lemma_msb_unique(a / 2, (e - 1) as nat);
        assert(a >= 2) by {
            lemma_pow2_pos((e - 1) as nat);
        }
    }
}

/// Exact double-precision bit pattern of a 32-bit signed integer,
/// computed with integer arithmetic only.
pub fn f64_bits_of_i32(v: i32) -> (r: u64)
    ensures
        r == spec_f64_bits_of_i32(v),
{
    if v == 0 {
        return 0;
    }
    let ai: i64 = v as i64;
    let a: u64 = if ai < 0 { (-ai) as u64 } else { ai as u64 };
    proof {
        lemma2_to64();
        lemma2_to64_rest();
    }
    let mut m: u64 = a;
    let mut k: u64 = 0;
    while m < 0x10000000000000
        invariant
            1 <= a < 0x100000000,
            m == a * pow2(k as nat),
            m >= a,
            m < 0x20000000000000,
            k <= 52,
        decreases 0x20000000000000int - m,
    {
        proof {
            lemma2_to64_rest();
            lemma_pow2_adds(k as nat, 1);
            assert(a * pow2((k + 1) as nat) == m * 2) by {
                assert(pow2((k + 1) as nat) == pow2(k as nat) * 2) by {
                    lemma_pow2_adds(k as nat, 1);
                    lemma2_to64();
                }
                assert(a * (pow2(k as nat) * 2) == (a * pow2(k as nat)) * 2)
                    by (nonlinear_arith);
            }
            assert(k < 52) by {
                if k >= 52 {
                    assert(pow2(k as nat) >= pow2(52)) by {
                        if k > 52 {
                            lemma_pow2_strictly_increases(52, k as nat);
                        }
                    }
                    assert(m >= 1 * pow2(52)) by {
                        lemma_mul_inequality(1, a as int, pow2(k as nat) as int);
                    }
                }
            }
        }
        m = m * 2;
        k = k + 1;
    }
    proof {
        lemma2_to64_rest();
        let e = (52 - k) as nat;
        assert(pow2(e) * pow2(k as nat) == pow2(52)) by {
            lemma_pow2_adds(e, k as nat);
        }
        assert(pow2(e + 1) * pow2(k as nat) == pow2(53)) by {
            lemma_pow2_adds((e + 1) as nat, k as nat);
        }
        lemma_pow2_pos(k as nat);
        lemma_pow2_pos(e);
        // pow2(e) <= a, else a * pow2(k) < pow2(52)
        assert(pow2(e) <= a) by {
            if a < pow2(e) {
                lemma_mul_strict_inequality(a as int, pow2(e) as int, pow2(k as nat) as int);
            }
        }
        // a < pow2(e + 1), else a * pow2(k) >= pow2(53)
        assert(a < pow2(e + 1)) by {
            if a >= pow2(e + 1) {
                lemma_mul_inequality(pow2(e + 1) as int, a as int, pow2(k as nat) as int);
            }
        }
        lemma_msb_unique(a as nat, e);
    }
    let sign: u64 = if v < 0 { 0x8000000000000000 } else { 0 };
    sign + (52 - k + 1023) * 0x10000000000000 + (m - 0x10000000000000)
}

/// Double-precision bit pattern that a 64-bit unsigned value beyond the
/// signed 64-bit range rounds to, computed with integer arithmetic.
pub fn f64_bits_of_big_u64(v: u64) -> (r: u64)
    requires
        v >= 0x8000000000000000,
    ensures
        r == spec_f64_bits_of_big_u64(v),
{
    let m: u64 = v / 2048;
    let r0: u64 = v % 2048;
    let carry: u64 = if r0 > 1024 || (r0 == 1024 && m % 2 == 1) { 1 } else { 0 };
    let round: u64 = m + carry;
    if round == 0x20000000000000 {
        0x43F0000000000000
    } else {
        0x43E0000000000000 + (round - 0x10000000000000)
    }
}

/// Model of the widening decode policy, one function per input case.
/// A signed 64-bit value that fits the signed 32-bit range narrows to
/// `Int`, otherwise it is held as `Long`.
pub open spec fn spec_decode_i64(v: i64) -> SpecScalar {
    if -0x80000000 <= v <= 0x7FFFFFFF {
        SpecScalar::Int(v as i32)
    } else {
        SpecScalar::Long(v)
    }
}

/// An unsigned 64-bit value within the signed 64-bit range decodes as
/// that signed value; beyond it, it becomes the nearest float.
pub open spec fn spec_decode_u64(v: u64) -> SpecScalar {
    if v <= 0x7FFFFFFFFFFFFFFF {
        spec_decode_i64(v as i64)
    } else {
        SpecScalar::Float(spec_f64_bits_of_big_u64(v))
    }
}

/// An unsigned 32-bit value within the signed 32-bit range is an `Int`,
/// otherwise it re-dispatches as unsigned 64-bit.
pub open spec fn spec_decode_u32(v: u32) -> SpecScalar {
    if v <= 0x7FFFFFFF {
        SpecScalar::Int(v as i32)
    } else {
        spec_decode_u64(v as u64)
    }
}

/// The decoding visitor: one constructor per external input case.
pub struct MyScalarValueVisitor;

impl MyScalarValueVisitor {
    pub fn visit_bool(self, value: bool) -> (r: MyScalarValue)
        ensures
            r@ == SpecScalar::Boolean(value),
    {
        MyScalarValue::Boolean(value)
    }

    pub fn visit_i32(self, value: i32) -> (r: MyScalarValue)
        ensures
            r@ == SpecScalar::Int(value),
    {
        MyScalarValue::Int(value)
    }

    pub fn visit_i64(self, value: i64) -> (r: MyScalarValue)
        ensures
            r@ == spec_decode_i64(value),
    {
        if -0x80000000 <= value && value <= 0x7FFFFFFF {
            self.visit_i32(value as i32)
        } else {
            MyScalarValue::Long(value)
        }
    }

    pub fn visit_u32(self, value: u32) -> (r: MyScalarValue)
        ensures
            r@ == spec_decode_u32(value),
    {
        if value <= 0x7FFFFFFF {
            self.visit_i32(value as i32)
        } else {
            self.visit_u64(value as u64)
        }
    }

    pub fn visit_u64(self, value: u64) -> (r: MyScalarValue)
        ensures
            r@ == spec_decode_u64(value),
    {
        if value <= 0x7FFFFFFFFFFFFFFF {
            self.visit_i64(value as i64)
        } else {
            // Producers that serialize all numbers without a fractional
            // part as integers can emit values beyond the signed 64-bit
            // range; decoding them as floats is deliberately lossy but
            // keeps such payloads readable.
            MyScalarValue::Float(f64_bits_of_big_u64(value))
        }
    }

    /// Floating-point input, handed over as its IEEE 754 bit pattern.
    pub fn visit_f64(self, bits: u64) -> (r: MyScalarValue)
        ensures
            r@ == SpecScalar::Float(bits),
    {
        MyScalarValue::Float(bits)
    }

    pub fn visit_str(self, value: &str) -> (r: MyScalarValue)
        ensures
            r@ == SpecScalar::Str(value@),
    {
        MyScalarValue::String(value.to_owned())
    }

    pub fn visit_string(self, value: String) -> (r: MyScalarValue)
        ensures
            r@ == SpecScalar::Str(value@),
    {
        MyScalarValue::String(value)
    }
}

/// Decoding a plain scalar and reading it back through the matching
/// accessor yields the identical value: the round trip for each of the
/// four plain variants.
pub proof fn lemma_scalar_round_trip(i: i32, bits: u64, s: Seq<char>, b: bool)
    ensures
        spec_as_int(SpecScalar::Int(i)) == Some(i),
        spec_as_float(SpecScalar::Float(bits)) == Some(bits),
        spec_as_string(SpecScalar::Str(s)) == Some(s),
        spec_as_boolean(SpecScalar::Boolean(b)) == Some(b),
{
}

/// Decoding an unsigned 64-bit value within the signed 64-bit range is
/// the same as decoding it as a signed 64-bit value directly.
pub proof fn lemma_decode_u64_agrees_with_i64(v: u64)
    requires
        v <= 0x7FFFFFFFFFFFFFFF,
    ensures
        spec_decode_u64(v) == spec_decode_i64(v as i64),
{
}

/// Decoding an unsigned 64-bit value beyond the signed 64-bit range
/// yields the float it rounds to, by design.
pub proof fn lemma_decode_u64_large_is_float(v: u64)
    requires
        v > 0x7FFFFFFFFFFFFFFF,
    ensures
        spec_decode_u64(v) == SpecScalar::Float(spec_f64_bits_of_big_u64(v)),
{
}

} // verus!
