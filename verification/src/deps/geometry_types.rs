use vstd::prelude::*;

verus! {

/// `glam::Vec2`, carried through as an opaque value.
#[verifier::external_type_specification]
#[verifier::external_body]
pub struct ExVec2(glam::Vec2);

/// `glam::Vec3`, carried through as an opaque value.
#[verifier::external_type_specification]
#[verifier::external_body]
pub struct ExVec3(glam::Vec3);

/// `glam::Quat`, carried through as an opaque value.
#[verifier::external_type_specification]
#[verifier::external_body]
pub struct ExQuat(glam::Quat);

/// `glam::Mat4`, carried through as an opaque value.
#[verifier::external_type_specification]
#[verifier::external_body]
pub struct ExMat4(glam::Mat4);

/// `glam::Affine3A`, carried through as an opaque value.
#[verifier::external_type_specification]
#[verifier::external_body]
pub struct ExAffine3A(glam::Affine3A);

/// The `glam::Vec2` whose coordinates are the integers `x` and `y`.
pub uninterp spec fn vec2_from_integers(x: u32, y: u32) -> glam::Vec2;

/// Calls `glam::UVec2::new` and `glam::UVec2::as_vec2`: the vector `(x, y)` with
/// each coordinate converted to a float. The result is named by `vec2_from_integers`,
/// which states nothing more of it than that it depends on `x` and `y` alone.
#[verifier::external_body]
pub(crate) fn vec2_of(x: u32, y: u32) -> (r: glam::Vec2)
    ensures
        r == vec2_from_integers(x, y),
{
    glam::UVec2::new(x, y).as_vec2()
}

/// The `glam::Affine3A` that translates by the integer vector `(x, y, z)`.
pub uninterp spec fn affine_from_integer_translation(x: i32, y: i32, z: i32) -> glam::Affine3A;

/// Calls `glam::IVec3::new`, `glam::IVec3::as_vec3` and `glam::Affine3A::from_translation`:
/// the transform that translates by `(x, y, z)`, each coordinate converted to a float. The
/// result is named by `affine_from_integer_translation`, which states nothing more of it
/// than that it depends on `x`, `y` and `z` alone.
#[verifier::external_body]
pub(crate) fn affine_translation(x: i32, y: i32, z: i32) -> (r: glam::Affine3A)
    ensures
        r == affine_from_integer_translation(x, y, z),
{
    glam::Affine3A::from_translation(glam::IVec3::new(x, y, z).as_vec3())
}

} // verus!
