//! Floating-point numbers carried by their bits.

use vstd::prelude::*;

verus! {

/// An IEEE 754 single-precision number, by its bit pattern.
///
/// The library stores, copies and hands on such numbers and never computes
/// with them. `F32Bits(0)` is `0.0`. `==` compares the numbers, not the bits: both
/// zeros are equal, and a NaN equals nothing.
#[derive(Debug, Clone, Copy)]
pub struct F32Bits(pub u32);

impl F32Bits {
    /// The bits without the sign.
    pub open spec fn spec_magnitude(self) -> int {
        if self.0 >= 0x8000_0000 {
            self.0 - 0x8000_0000
        } else {
            self.0 as int
        }
    }

    /// The bits stand for no number: they lie beyond those of infinity.
    pub open spec fn spec_is_nan(self) -> bool {
        self.spec_magnitude() > 0x7f80_0000
    }

    /// The two stand for the same number.
    pub open spec fn same_number(self, other: Self) -> bool {
        &&& !self.spec_is_nan()
        &&& !other.spec_is_nan()
        &&& self.0 == other.0 || (self.spec_magnitude() == 0 && other.spec_magnitude() == 0)
    }

    fn magnitude(self) -> (magnitude: u32)
        ensures
            magnitude == self.spec_magnitude(),
    {
        if self.0 >= 0x8000_0000 {
            self.0 - 0x8000_0000
        } else {
            self.0
        }
    }
}

impl PartialEq for F32Bits {
    fn eq(&self, other: &Self) -> (equal: bool) {
        let a: u32 = self.magnitude();
        let b: u32 = other.magnitude();
        a <= 0x7f80_0000 && b <= 0x7f80_0000 && (self.0 == other.0 || (a == 0 && b == 0))
    }
}

impl vstd::std_specs::cmp::PartialEqSpecImpl for F32Bits {
    open spec fn obeys_eq_spec() -> bool {
        true
    }

    open spec fn eq_spec(&self, other: &Self) -> bool {
        self.same_number(*other)
    }
}

/// Comparison is symmetric and transitive; a number equals
/// itself and a NaN does not; apart from the two zeros, equal numbers have
/// equal bits.
pub proof fn law_f32_equality(a: F32Bits, b: F32Bits, c: F32Bits)
    ensures
        a.same_number(b) == b.same_number(a),
        a.same_number(b) && b.same_number(c) ==> a.same_number(c),
        a.same_number(a) <==> !a.spec_is_nan(),
        a.same_number(b) && a.spec_magnitude() != 0 ==> a.0 == b.0,
        F32Bits(0).same_number(F32Bits(0x8000_0000)),
{
}

/// An IEEE 754 double-precision number, by its bit pattern.
///
/// The library stores, copies and hands on such numbers and never computes
/// with them. `F64Bits(0)` is `0.0`. `==` compares the numbers, not the bits: both
/// zeros are equal, and a NaN equals nothing.
#[derive(Debug, Clone, Copy)]
pub struct F64Bits(pub u64);

impl F64Bits {
    /// The bits without the sign.
    pub open spec fn spec_magnitude(self) -> int {
        if self.0 >= 0x8000_0000_0000_0000 {
            self.0 - 0x8000_0000_0000_0000
        } else {
            self.0 as int
        }
    }

    /// The bits stand for no number: they lie beyond those of infinity.
    pub open spec fn spec_is_nan(self) -> bool {
        self.spec_magnitude() > 0x7ff0_0000_0000_0000
    }

    /// The two stand for the same number.
    pub open spec fn same_number(self, other: Self) -> bool {
        &&& !self.spec_is_nan()
        &&& !other.spec_is_nan()
        &&& self.0 == other.0 || (self.spec_magnitude() == 0 && other.spec_magnitude() == 0)
    }

    fn magnitude(self) -> (magnitude: u64)
        ensures
            magnitude == self.spec_magnitude(),
    {
        if self.0 >= 0x8000_0000_0000_0000 {
            self.0 - 0x8000_0000_0000_0000
        } else {
            self.0
        }
    }
}

impl PartialEq for F64Bits {
    fn eq(&self, other: &Self) -> (equal: bool) {
        let a: u64 = self.magnitude();
        let b: u64 = other.magnitude();
        a <= 0x7ff0_0000_0000_0000 && b <= 0x7ff0_0000_0000_0000 && (self.0 == other.0 || (a == 0 && b == 0))
    }
}

impl vstd::std_specs::cmp::PartialEqSpecImpl for F64Bits {
    open spec fn obeys_eq_spec() -> bool {
        true
    }

    open spec fn eq_spec(&self, other: &Self) -> bool {
        self.same_number(*other)
    }
}

/// Comparison is symmetric and transitive; a number equals
/// itself and a NaN does not; apart from the two zeros, equal numbers have
/// equal bits.
pub proof fn law_f64_equality(a: F64Bits, b: F64Bits, c: F64Bits)
    ensures
        a.same_number(b) == b.same_number(a),
        a.same_number(b) && b.same_number(c) ==> a.same_number(c),
        a.same_number(a) <==> !a.spec_is_nan(),
        a.same_number(b) && a.spec_magnitude() != 0 ==> a.0 == b.0,
        F64Bits(0).same_number(F64Bits(0x8000_0000_0000_0000)),
{
}

/// `==` is comparison of numbers by their sign, exponent and fraction: a NaN,
/// whose exponent is all ones and whose fraction is not zero, equals nothing,
/// the two zeros are equal, and anything else equals only its own bits.
pub proof fn law_f32_comparison(a: F32Bits, b: F32Bits)
    ensures
        a.spec_is_nan() <==> (a.0 >> 23) & 0xff == 0xff && a.0 & 0x007f_ffff != 0,
        a.spec_magnitude() == a.0 & 0x7fff_ffff,
        vstd::std_specs::cmp::PartialEqSpec::eq_spec(&a, &b) <==> {
            &&& !((a.0 >> 23) & 0xff == 0xff && a.0 & 0x007f_ffff != 0)
            &&& !((b.0 >> 23) & 0xff == 0xff && b.0 & 0x007f_ffff != 0)
            &&& a.0 == b.0 || (a.0 & 0x7fff_ffff == 0 && b.0 & 0x7fff_ffff == 0)
        },
{
    lemma_f32_parts(a.0);
    lemma_f32_parts(b.0);
}

proof fn lemma_f32_parts(x: u32)
    ensures
        x >= 0x8000_0000 ==> x & 0x7fff_ffff == x - 0x8000_0000,
        x < 0x8000_0000 ==> x & 0x7fff_ffff == x,
        (x & 0x7fff_ffff) > 0x7f80_0000 <==> (x >> 23) & 0xff == 0xff && x & 0x007f_ffff != 0,
{
    assert(x >= 0x8000_0000 ==> x & 0x7fff_ffff == x - 0x8000_0000) by (bit_vector);
    assert(x < 0x8000_0000 ==> x & 0x7fff_ffff == x) by (bit_vector);
    assert((x & 0x7fff_ffff) > 0x7f80_0000 <==> (x >> 23) & 0xff == 0xff && x & 0x007f_ffff != 0)
        by (bit_vector);
}

/// `==` is comparison of numbers by their sign, exponent and fraction: a NaN,
/// whose exponent is all ones and whose fraction is not zero, equals nothing,
/// the two zeros are equal, and anything else equals only its own bits.
pub proof fn law_f64_comparison(a: F64Bits, b: F64Bits)
    ensures
        a.spec_is_nan() <==> (a.0 >> 52) & 0x7ff == 0x7ff && a.0 & 0x000f_ffff_ffff_ffff != 0,
        a.spec_magnitude() == a.0 & 0x7fff_ffff_ffff_ffff,
        vstd::std_specs::cmp::PartialEqSpec::eq_spec(&a, &b) <==> {
            &&& !((a.0 >> 52) & 0x7ff == 0x7ff && a.0 & 0x000f_ffff_ffff_ffff != 0)
            &&& !((b.0 >> 52) & 0x7ff == 0x7ff && b.0 & 0x000f_ffff_ffff_ffff != 0)
            &&& a.0 == b.0 || (a.0 & 0x7fff_ffff_ffff_ffff == 0 && b.0 & 0x7fff_ffff_ffff_ffff == 0)
        },
{
    lemma_f64_parts(a.0);
    lemma_f64_parts(b.0);
}

proof fn lemma_f64_parts(x: u64)
    ensures
        x >= 0x8000_0000_0000_0000 ==> x & 0x7fff_ffff_ffff_ffff == x - 0x8000_0000_0000_0000,
        x < 0x8000_0000_0000_0000 ==> x & 0x7fff_ffff_ffff_ffff == x,
        (x & 0x7fff_ffff_ffff_ffff) > 0x7ff0_0000_0000_0000 <==> (x >> 52) & 0x7ff == 0x7ff && x
            & 0x000f_ffff_ffff_ffff != 0,
{
    assert(x >= 0x8000_0000_0000_0000 ==> x & 0x7fff_ffff_ffff_ffff == x - 0x8000_0000_0000_0000)
        by (bit_vector);
    assert(x < 0x8000_0000_0000_0000 ==> x & 0x7fff_ffff_ffff_ffff == x) by (bit_vector);
    assert((x & 0x7fff_ffff_ffff_ffff) > 0x7ff0_0000_0000_0000 <==> (x >> 52) & 0x7ff == 0x7ff && x
        & 0x000f_ffff_ffff_ffff != 0) by (bit_vector);
}

} // verus!
