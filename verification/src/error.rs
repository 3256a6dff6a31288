//! Why a bounding box could not be built.

use vstd::prelude::*;
use crate::binary64::Binary64;
use crate::point::XZPoint;

verus! {

/// One of the two axes of the grid.
#[derive(Clone, Copy, Debug, PartialEq, Eq, Hash, Structural)]
pub enum Axis {
    X,
    Z,
}

/// A rejected request to build a bounding box. Each variant carries the
/// offending input.
#[derive(Clone, Copy, Debug, PartialEq, Eq, Hash, Structural)]
pub enum XZBBoxError {
    /// The length along `axis` is not at least zero.
    NegativeLength { axis: Axis, length: Binary64 },
    /// The length along `axis` is above `i32::MAX`.
    LengthOverflow { axis: Axis, length: Binary64 },
    /// The minimum corner lies beyond the maximum corner on some axis.
    InvalidBounds { min: XZPoint, max: XZPoint },
}

} // verus!
