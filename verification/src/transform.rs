//! Where something stands, how it is turned and how large it is.

use vstd::prelude::*;
use crate::fixed::{Fixed, SCALE};
use crate::vector::Vec3;

verus! {

/// A rotation as a quaternion.
#[derive(Clone, Copy, Debug, PartialEq, Eq, Structural)]
pub struct Quat {
    pub x: Fixed,
    pub y: Fixed,
    pub z: Fixed,
    pub w: Fixed,
}

/// Placement of an entity: translation, rotation and scale.
#[derive(Clone, Copy, Debug, PartialEq, Eq, Structural)]
pub struct Transform {
    pub translation: Vec3,
    pub rotation: Quat,
    pub scale: Vec3,
}

/// The rotation that turns nothing.
pub open spec fn no_rotation() -> Quat {
    Quat { x: Fixed { raw: 0 }, y: Fixed { raw: 0 }, z: Fixed { raw: 0 }, w: Fixed { raw: SCALE } }
}

/// The scale that leaves every size as it is.
pub open spec fn unit_scale() -> Vec3 {
    Vec3 { x: Fixed { raw: SCALE }, y: Fixed { raw: SCALE }, z: Fixed { raw: SCALE } }
}

/// The placement at `translation`, not turned and not scaled.
pub open spec fn placed_at(translation: Vec3) -> Transform {
    Transform { translation, rotation: no_rotation(), scale: unit_scale() }
}

/// The placement at the origin, not turned and not scaled.
pub open spec fn identity() -> Transform {
    placed_at(Vec3 { x: Fixed { raw: 0 }, y: Fixed { raw: 0 }, z: Fixed { raw: 0 } })
}

impl Transform {
    /// The placement at `translation`, not turned and not scaled.
    pub fn from_translation(translation: Vec3) -> (r: Transform)
        ensures
            r == placed_at(translation),
    {
        Transform {
            translation,
            rotation: Quat {
                x: Fixed::zero(),
                y: Fixed::zero(),
                z: Fixed::zero(),
                w: Fixed::one(),
            },
            scale: Vec3 { x: Fixed::one(), y: Fixed::one(), z: Fixed::one() },
        }
    }
}

impl Default for Transform {
    /// The placement at the origin, not turned and not scaled.
    fn default() -> (r: Transform)
        ensures
            r == identity(),
    {
        Transform::from_translation(Vec3::zero())
    }
}

} // verus!
