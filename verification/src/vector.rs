//! The interface to `glam`'s three-component single-precision vector.
//!
//! A `Vec3` is opaque to the verifier. Its contents are named by
//! [`components`]; every operation that the crate needs from `glam` is a small
//! function here whose contract is taken on trust from `glam`'s source. None
//! of these contracts says what the numbers are: each only names the result
//! as a function of the operands' contents.

use glam::Vec3;
use vstd::prelude::*;

verus! {

#[verifier::external_type_specification]
#[verifier::external_body]
pub struct ExVec3(glam::Vec3);

/// The contents of a vector: its `x`, `y` and `z` coordinates, in that order,
/// each as its IEEE 754 binary32 bit pattern. All patterns that are not a
/// number count as one, `0x7fc0_0000`: which of them an operation gives is
/// not fixed, and no operation used here tells them apart.
pub uninterp spec fn components(v: Vec3) -> Seq<u32>;

/// The contents of `a - b` as `glam` computes it.
pub uninterp spec fn difference_of(a: Seq<u32>, b: Seq<u32>) -> Seq<u32>;

/// The contents of the cross product of `a` and `b` as `glam` computes it.
pub uninterp spec fn cross_of(a: Seq<u32>, b: Seq<u32>) -> Seq<u32>;

/// The contents of `a` scaled to unit length as `glam` computes it.
pub uninterp spec fn normalized(a: Seq<u32>) -> Seq<u32>;

/// The contents of `a + b` as `glam` computes it.
pub uninterp spec fn sum_of(a: Seq<u32>, b: Seq<u32>) -> Seq<u32>;

/// The contents of the zero vector: three times the bit pattern of `+0.0`.
pub open spec fn zero_components() -> Seq<u32> {
    seq![0u32, 0u32, 0u32]
}

/// The contents of each vector of a sequence.
pub open spec fn components_of_all(vs: Seq<Vec3>) -> Seq<Seq<u32>> {
    Seq::new(vs.len(), |i: int| components(vs[i]))
}

/// `glam::Vec3::ZERO`. Trusted: all three coordinates are positive zero, whose
/// bit pattern is zero.
#[verifier::external_body]
pub(crate) fn zero() -> (r: Vec3)
    ensures
        components(r) == zero_components(),
{
    Vec3::ZERO
}

/// `glam`'s `Sub::sub` for `Vec3`, coordinate by coordinate. Trusted: the
/// result depends on the contents of the two operands alone, and the call does
/// not panic.
#[verifier::external_body]
pub(crate) fn difference(a: Vec3, b: Vec3) -> (r: Vec3)
    ensures
        components(r) == difference_of(components(a), components(b)),
{
    a - b
}

/// `glam::Vec3::cross`. Trusted: the result depends on the contents of the two
/// operands alone, and the call does not panic.
#[verifier::external_body]
pub(crate) fn cross(a: Vec3, b: Vec3) -> (r: Vec3)
    ensures
        components(r) == cross_of(components(a), components(b)),
{
    a.cross(b)
}

/// `glam::Vec3::normalize`. Trusted: the result depends on the contents of the
/// operand alone, and the call does not panic (a vector of length zero gives
/// coordinates that are not numbers).
#[verifier::external_body]
pub(crate) fn normalize(a: Vec3) -> (r: Vec3)
    ensures
        components(r) == normalized(components(a)),
{
    a.normalize()
}

/// `glam`'s `AddAssign::add_assign` for `Vec3`, coordinate by coordinate.
/// Trusted: the new value of `acc` depends on the contents of its old value
/// and of `v` alone, and the call does not panic.
#[verifier::external_body]
pub(crate) fn accumulate(acc: &mut Vec3, v: Vec3)
    ensures
        components(*final(acc)) == sum_of(components(*old(acc)), components(v)),
{
    *acc += v;
}

} // verus!
