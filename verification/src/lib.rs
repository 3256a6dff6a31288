//! Bounding boxes over the integer XZ grid.
//!
//! A box is built from two lengths or from a rectangle, answers whether it
//! covers a point, gives its enclosing rectangle, moves by a vector, and
//! hands out its points one by one.
//!
//! Each executable type has a view into the unbounded mathematical grid
//! (`SpecPoint`, `SpecVector`, `SpecRect`, `SpecBBox`), and each function's
//! contract says over those views what it returns. The laws that hold of
//! every box are proof functions on the views.
//!
//! Lengths are binary64 numbers and arrive as bit patterns (`Binary64`): the
//! library decides on them in integer arithmetic.

pub mod bbox;
pub mod binary64;
pub mod error;
pub mod point;
pub mod points;
pub mod rectangle;
pub mod text;

pub use bbox::{SpecBBox, XZBBox};
pub use binary64::{Binary64, Binary64Value};
pub use error::{Axis, XZBBoxError};
pub use point::{SpecPoint, SpecVector, XZPoint, XZVector};
pub use points::XZBBoxPoints;
pub use rectangle::{SpecRect, XZBBoxRect};
