//! Placement of a drawable.

use vstd::prelude::*;
use crate::scalar::{Point2, Scalar, Vector2, HALF_BITS, ONE_BITS, ZERO_BITS};

verus! {

/// Where and how an object is drawn.
///
/// It stands for the affine map translate(`position`) · rotate(`rotation`) ·
/// scale(`scale`) · translate(−`offset` · extent), where the extent is that of
/// the drawable the transform is applied to. The same transform therefore
/// places drawables of different extents differently.
#[derive(Clone, Copy, Debug, PartialEq, Eq, Structural)]
pub struct Transform {
    /// Position or translation.
    pub position: Point2,
    /// Scale.
    pub scale: Vector2,
    /// Rotation, in radians.
    pub rotation: Scalar,
    /// Pivot, as a fraction of the drawable's extent.
    pub offset: Point2,
}

impl Transform {
    /// The transform that `Transform::default()` returns: no translation, unit
    /// scale, no rotation, pivot at the centre.
    pub open spec fn identity_centered() -> Transform {
        Transform {
            position: Point2 { x: Scalar { bits: ZERO_BITS }, y: Scalar { bits: ZERO_BITS } },
            scale: Vector2 { x: Scalar { bits: ONE_BITS }, y: Scalar { bits: ONE_BITS } },
            rotation: Scalar { bits: ZERO_BITS },
            offset: Point2 { x: Scalar { bits: HALF_BITS }, y: Scalar { bits: HALF_BITS } },
        }
    }
}

impl Default for Transform {
    fn default() -> (t: Transform)
        ensures
            t == Transform::identity_centered(),
    {
        Transform {
            position: Point2 { x: Scalar::zero(), y: Scalar::zero() },
            scale: Vector2 { x: Scalar::one(), y: Scalar::one() },
            rotation: Scalar::zero(),
            offset: Point2 { x: Scalar::half(), y: Scalar::half() },
        }
    }
}

} // verus!
