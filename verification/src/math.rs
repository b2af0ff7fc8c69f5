//! Value representation for the geometric data carried by joint descriptors.

use vstd::prelude::*;

verus! {

/// One scalar parameter of a joint (an anchor coordinate, a limit bound, a
/// motor gain), carried as an opaque 32-bit pattern.
///
/// The reconciliation logic never computes with scalars: it only stores,
/// copies and compares them. Keeping them as bit patterns makes the logic
/// exact — "the configuration is unchanged" is plain equality — and leaves
/// the numeric interpretation entirely to the host shell.
pub type Scalar = u32;

/// A point in a body's local coordinate frame.
#[derive(Debug, Clone, Copy, PartialEq, Eq, Structural)]
pub struct Point3 {
    pub x: Scalar,
    pub y: Scalar,
    pub z: Scalar,
}

/// A rotation, stored as four scalar components.
#[derive(Debug, Clone, Copy, PartialEq, Eq, Structural)]
pub struct Quat {
    pub x: Scalar,
    pub y: Scalar,
    pub z: Scalar,
    pub w: Scalar,
}

} // verus!
