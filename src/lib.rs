//! Coordinate planes of three-dimensional space, and the rule that picks the
//! two coordinates of a point that lie along each of them.
//!
//! The point and vector types themselves hold `f64` coordinates and live in
//! the application crate; what they take from here is the choice of axes.

use vstd::prelude::*;

verus! {

/// One of the three coordinate planes that a three-dimensional point or
/// vector can be projected onto.
///
/// Each plane names, in order, the two coordinates that become the first and
/// the second axis of the two-dimensional image: `XY` takes `(x, y)`, `YZ`
/// takes `(z, y)` and `ZX` takes `(z, x)`.
#[derive(Debug, Clone, Copy, PartialEq, Eq, Structural)]
pub enum Plane {
    /// The x-y plane: first axis x, second axis y.
    XY,
    /// The y-z plane: first axis z, second axis y.
    YZ,
    /// The z-x plane: first axis z, second axis x.
    ZX,
}

/// The pair of coordinates of the point `(x, y, z)` that lies along `plane`,
/// first axis first.
pub open spec fn along_plane<T>(plane: Plane, x: T, y: T, z: T) -> (T, T) {
    match plane {
        Plane::XY => (x, y),
        Plane::YZ => (z, y),
        Plane::ZX => (z, x),
    }
}

/// Along the y-z plane the z coordinate becomes the first axis and the y
/// coordinate the second: the image is `(z, y)`, never `(y, z)`.
pub proof fn lemma_yz_puts_z_first<T>(x: T, y: T, z: T)
    ensures
        along_plane(Plane::YZ, x, y, z).0 == z,
        along_plane(Plane::YZ, x, y, z).1 == y,
{
}

impl Plane {
    /// Returns the two coordinates of the point `(x, y, z)` that lie along this
    /// plane, in the order of the plane's axes.
    pub fn project<T: Copy>(&self, x: T, y: T, z: T) -> (r: (T, T))
        ensures
            r == along_plane(*self, x, y, z),
    {
        match self {
            Plane::XY => (x, y),
            Plane::YZ => (z, y),
            Plane::ZX => (z, x),
        }
    }
}

} // verus!
