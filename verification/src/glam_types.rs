//! The vector types of `glam` that vertices, lights and transforms are made
//! of. Verified code stores them and hands them on. It never looks inside
//! one; where a transform is moved, scaled or turned, `glam` does the
//! arithmetic and the result goes by a name.

use vstd::prelude::*;
use glam::{Quat, Vec2, Vec3, Vec4};

verus! {

/// `glam::Vec2`, a pair of single-precision coordinates, as an opaque value.
#[verifier::external_type_specification]
#[verifier::external_body]
pub struct ExVec2(Vec2);

/// `glam::Vec3`, a triple of single-precision coordinates, as an opaque value.
#[verifier::external_type_specification]
#[verifier::external_body]
pub struct ExVec3(Vec3);

/// `glam::Vec4`, four single-precision coordinates, as an opaque value.
#[verifier::external_type_specification]
#[verifier::external_body]
pub struct ExVec4(Vec4);

/// `glam::Quat`, a rotation quaternion, as an opaque value.
#[verifier::external_type_specification]
#[verifier::external_body]
pub struct ExQuat(Quat);

/// What `a + b` is for two `glam::Vec3`: the sum, coordinate by coordinate.
pub uninterp spec fn vec3_sum(a: Vec3, b: Vec3) -> Vec3;

/// What `a * b` is for two `glam::Vec3`: the product, coordinate by
/// coordinate.
pub uninterp spec fn vec3_product(a: Vec3, b: Vec3) -> Vec3;

/// What `a + b` is for two `glam::Quat`: the sum, component by component.
pub uninterp spec fn quat_sum(a: Quat, b: Quat) -> Quat;

/// `Add::add` of `glam::Vec3`. The sum depends on the two vectors alone.
#[verifier::external_body]
pub(crate) fn add_vec3(a: Vec3, b: Vec3) -> (sum: Vec3)
    ensures
        sum == vec3_sum(a, b),
{
    a + b
}

/// `Mul::mul` of `glam::Vec3` with a `glam::Vec3`. The product depends on
/// the two vectors alone.
#[verifier::external_body]
pub(crate) fn mul_vec3(a: Vec3, b: Vec3) -> (product: Vec3)
    ensures
        product == vec3_product(a, b),
{
    a * b
}

/// `Add::add` of `glam::Quat`. The sum depends on the two quaternions alone.
#[verifier::external_body]
pub(crate) fn add_quat(a: Quat, b: Quat) -> (sum: Quat)
    ensures
        sum == quat_sum(a, b),
{
    a + b
}

} // verus!
