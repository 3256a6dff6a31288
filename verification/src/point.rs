//! Points of the XZ grid and the vectors that move them.

use vstd::prelude::*;
use std::ops::{Add, Sub};
use vstd::string::StringExecFns;
use crate::text::{decimal, push_decimal};

verus! {

/// A displacement on the unbounded mathematical grid.
pub struct SpecVector {
    pub dx: int,
    pub dz: int,
}

impl SpecVector {
    /// The opposite displacement.
    pub open spec fn neg(self) -> SpecVector {
        SpecVector { dx: -self.dx, dz: -self.dz }
    }
}

/// A point of the unbounded mathematical grid.
pub struct SpecPoint {
    pub x: int,
    pub z: int,
}

impl SpecPoint {
    /// The point moved by `v`.
    pub open spec fn translate(self, v: SpecVector) -> SpecPoint {
        SpecPoint { x: self.x + v.dx, z: self.z + v.dz }
    }

    /// The point as text: `XZPoint(x, z)`, both coordinates in decimal.
    pub open spec fn text(self) -> Seq<char> {
        "XZPoint("@ + decimal(self.x) + ", "@ + decimal(self.z) + ")"@
    }

    /// Whether both coordinates fit in an `i32`.
    pub open spec fn representable(self) -> bool {
        &&& i32::MIN <= self.x <= i32::MAX
        &&& i32::MIN <= self.z <= i32::MAX
    }
}

/// A displacement with 32-bit components.
#[derive(Clone, Copy, Debug, PartialEq, Eq, Hash, Structural)]
pub struct XZVector {
    pub dx: i32,
    pub dz: i32,
}

impl View for XZVector {
    type V = SpecVector;

    open spec fn view(&self) -> SpecVector {
        SpecVector { dx: self.dx as int, dz: self.dz as int }
    }
}

impl XZVector {
    /// The displacement with the given components.
    pub fn new(dx: i32, dz: i32) -> (v: Self)
        ensures
            v@ == (SpecVector { dx: dx as int, dz: dz as int }),
    {
        XZVector { dx, dz }
    }
}

/// A point of the XZ grid with 32-bit coordinates.
#[derive(Clone, Copy, Debug, PartialEq, Eq, Hash, Structural)]
pub struct XZPoint {
    pub x: i32,
    pub z: i32,
}

impl View for XZPoint {
    type V = SpecPoint;

    open spec fn view(&self) -> SpecPoint {
        SpecPoint { x: self.x as int, z: self.z as int }
    }
}

impl XZPoint {
    /// The point with the given coordinates.
    pub fn new(x: i32, z: i32) -> (p: Self)
        ensures
            p@ == (SpecPoint { x: x as int, z: z as int }),
    {
        XZPoint { x, z }
    }

    /// The point as text: `XZPoint(x, z)`.
    pub fn to_string(&self) -> (s: String)
        ensures
            s@ == self@.text(),
    {
        let mut s = String::new();
        s.append("XZPoint(");
        push_decimal(&mut s, self.x);
        s.append(", ");
        push_decimal(&mut s, self.z);
        s.append(")");
        assert(s@ =~= self@.text());
        s
    }
}

impl vstd::std_specs::ops::AddSpecImpl<XZVector> for XZPoint {
    open spec fn obeys_add_spec() -> bool {
        true
    }

    open spec fn add_req(self, rhs: XZVector) -> bool {
        self@.translate(rhs@).representable()
    }

    open spec fn add_spec(self, rhs: XZVector) -> XZPoint {
        XZPoint { x: (self.x + rhs.dx) as i32, z: (self.z + rhs.dz) as i32 }
    }
}

impl Add<XZVector> for XZPoint {
    type Output = XZPoint;

    /// The point moved by `rhs`. The moved point must fit in 32 bits.
    fn add(self, rhs: XZVector) -> (p: XZPoint)
        ensures
            p@ == self@.translate(rhs@),
    {
        XZPoint { x: self.x + rhs.dx, z: self.z + rhs.dz }
    }
}

impl vstd::std_specs::ops::SubSpecImpl<XZVector> for XZPoint {
    open spec fn obeys_sub_spec() -> bool {
        true
    }

    open spec fn sub_req(self, rhs: XZVector) -> bool {
        self@.translate(rhs@.neg()).representable()
    }

    open spec fn sub_spec(self, rhs: XZVector) -> XZPoint {
        XZPoint { x: (self.x - rhs.dx) as i32, z: (self.z - rhs.dz) as i32 }
    }
}

impl Sub<XZVector> for XZPoint {
    type Output = XZPoint;

    /// The point moved against `rhs`. The moved point must fit in 32 bits.
    fn sub(self, rhs: XZVector) -> (p: XZPoint)
        ensures
            p@ == self@.translate(rhs@.neg()),
    {
        XZPoint { x: self.x - rhs.dx, z: self.z - rhs.dz }
    }
}

} // verus!
