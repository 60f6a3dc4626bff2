//! Quaternions: a vector part and a scalar part.

use vstd::prelude::*;
use crate::float3::Float3;
use crate::float3::Vector3;
use crate::scalar::Scalar;

verus! {

/// A quaternion, as its vector part and its scalar part.
pub struct Quaternion(pub Vector3, pub Scalar);

impl Quaternion {
    /// The quaternion with vector part `(x, y, z)` and scalar part `w`.
    pub fn new(x: Scalar, y: Scalar, z: Scalar, w: Scalar) -> (r: Quaternion)
        ensures
            r.0 == (Float3 { x, y, z }),
            r.1 == w,
    {
        Quaternion(Vector3::new(x, y, z), w)
    }
}

} // verus!
