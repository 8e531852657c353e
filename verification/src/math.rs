//! Small integer vectors.

use vstd::prelude::*;

verus! {

/// A vector of three integers.
#[derive(Clone, Copy, Debug, PartialEq, Eq, Structural)]
pub struct Vec3i {
    pub x: i32,
    pub y: i32,
    pub z: i32,
}

impl Vec3i {
    /// The zero vector.
    pub fn zero() -> (zero: Self)
        ensures
            zero == (Vec3i { x: 0, y: 0, z: 0 }),
    {
        Vec3i { x: 0, y: 0, z: 0 }
    }

    /// The vector with the components of `array`, in order.
    pub fn from_array(array: [i32; 3]) -> (vector: Self)
        ensures
            vector == (Vec3i { x: array[0], y: array[1], z: array[2] }),
    {
        Vec3i { x: array[0], y: array[1], z: array[2] }
    }
}

/// The vector with the components of an array, in order.
impl From<[i32; 3]> for Vec3i {
    fn from(array: [i32; 3]) -> (vector: Self) {
        Vec3i::from_array(array)
    }
}

impl vstd::std_specs::convert::FromSpecImpl<[i32; 3]> for Vec3i {
    open spec fn obeys_from_spec() -> bool {
        true
    }

    open spec fn from_spec(array: [i32; 3]) -> Self {
        Vec3i { x: array[0], y: array[1], z: array[2] }
    }
}

} // verus!
