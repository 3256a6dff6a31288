//! Axis-aligned rectangles of grid cells.

use vstd::prelude::*;
use std::ops::{Add, Sub};
use vstd::std_specs::ops::{AddSpec, SubSpec};
use vstd::string::StringExecFns;
use crate::error::XZBBoxError;
use crate::point::{SpecPoint, SpecVector, XZPoint, XZVector};

verus! {

/// A rectangle of the unbounded mathematical grid, given by two corners. Both
/// corners belong to it.
pub struct SpecRect {
    pub min: SpecPoint,
    pub max: SpecPoint,
}

impl SpecRect {
    /// The minimum corner is not beyond the maximum corner on either axis.
    pub open spec fn wf(self) -> bool {
        &&& self.min.x <= self.max.x
        &&& self.min.z <= self.max.z
    }

    /// Whether both corners fit in 32-bit coordinates.
    pub open spec fn representable(self) -> bool {
        &&& self.min.representable()
        &&& self.max.representable()
    }

    /// Whether `p` lies in the rectangle.
    pub open spec fn contains(self, p: SpecPoint) -> bool {
        &&& self.min.x <= p.x <= self.max.x
        &&& self.min.z <= p.z <= self.max.z
    }

    /// The number of cells along x.
    pub open spec fn total_blocks_x(self) -> int {
        self.max.x - self.min.x + 1
    }

    /// The number of cells along z.
    pub open spec fn total_blocks_z(self) -> int {
        self.max.z - self.min.z + 1
    }

    /// The number of cells.
    pub open spec fn total_blocks(self) -> int {
        self.total_blocks_x() * self.total_blocks_z()
    }

    /// The rectangle moved by `v`.
    pub open spec fn translate(self, v: SpecVector) -> SpecRect {
        SpecRect { min: self.min.translate(v), max: self.max.translate(v) }
    }

    /// The rectangle as text: `Rect(min, max)`, each corner as a point's text.
    pub open spec fn text(self) -> Seq<char> {
        "Rect("@ + self.min.text() + ", "@ + self.max.text() + ")"@
    }

    /// The cell at position `i` when the cells are counted column by column:
    /// x ascending, and z ascending within one x.
    pub open spec fn point_at(self, i: int) -> SpecPoint {
        SpecPoint {
            x: self.min.x + i / self.total_blocks_z(),
            z: self.min.z + i % self.total_blocks_z(),
        }
    }

    /// The position of `p` in that count.
    pub open spec fn index_of(self, p: SpecPoint) -> int {
        (p.x - self.min.x) * self.total_blocks_z() + (p.z - self.min.z)
    }

    /// All cells of the rectangle, x ascending, and z ascending within one x.
    pub open spec fn points(self) -> Seq<SpecPoint> {
        Seq::new(self.total_blocks() as nat, |i: int| self.point_at(i))
    }

    /// A rectangle has at least one cell.
    pub proof fn lemma_total_blocks_positive(self)
        requires
            self.wf(),
        ensures
            self.total_blocks_x() >= 1,
            self.total_blocks_z() >= 1,
            self.total_blocks() >= 1,
    {
        let w = self.total_blocks_x();
        let h = self.total_blocks_z();
        assert(w * h >= 1) by (nonlinear_arith)
            requires
                w >= 1,
                h >= 1,
        ;
    }

    /// Every position below the cell count names a cell of the rectangle, and
    /// that cell's position is the one it was named by.
    pub proof fn lemma_point_at_in_rect(self, i: int)
        requires
            self.wf(),
            0 <= i < self.total_blocks(),
        ensures
            self.contains(self.point_at(i)),
            self.index_of(self.point_at(i)) == i,
    {
        let w = self.total_blocks_x();
        let h = self.total_blocks_z();
        vstd::arithmetic::div_mod::lemma_fundamental_div_mod(i, h);
        vstd::arithmetic::div_mod::lemma_mod_bound(i, h);
        let q = i / h;
        assert(0 <= q < w) by (nonlinear_arith)
            requires
                0 <= i < w * h,
                h >= 1,
                i == h * q + i % h,
                0 <= i % h < h,
        ;
        assert(q * h == h * q) by (nonlinear_arith);
    }

    /// Every cell of the rectangle has a position below the cell count, and
    /// the cell at that position is the cell itself.
    pub proof fn lemma_index_of_in_range(self, p: SpecPoint)
        requires
            self.wf(),
            self.contains(p),
        ensures
            0 <= self.index_of(p) < self.total_blocks(),
            self.point_at(self.index_of(p)) == p,
    {
        let w = self.total_blocks_x();
        let h = self.total_blocks_z();
        let a = p.x - self.min.x;
        let b = p.z - self.min.z;
        assert(0 <= a * h + b < w * h) by (nonlinear_arith)
            requires
                0 <= a < w,
                0 <= b < h,
        ;
        assert(a * h == h * a) by (nonlinear_arith);
        vstd::arithmetic::div_mod::lemma_fundamental_div_mod_converse(a * h + b, h, a, b);
    }

    /// Moving a rectangle by `v` and then by the opposite of `v` gives the
    /// rectangle back.
    pub proof fn lemma_translate_round_trip(self, v: SpecVector)
        ensures
            self.translate(v).translate(v.neg()) == self,
            self.translate(v.neg()).translate(v) == self,
    {
    }

    /// Moving a rectangle keeps its shape: the same side lengths, hence the
    /// same cell count, and the corners stay in order.
    pub proof fn lemma_translate_keeps_shape(self, v: SpecVector)
        ensures
            self.translate(v).wf() == self.wf(),
            self.translate(v).total_blocks_x() == self.total_blocks_x(),
            self.translate(v).total_blocks_z() == self.total_blocks_z(),
            self.translate(v).total_blocks() == self.total_blocks(),
    {
    }
}

/// A rectangle of grid cells with 32-bit coordinates. Its minimum corner is
/// never beyond its maximum corner.
#[derive(Clone, Copy, Debug, PartialEq, Eq, Hash, Structural)]
pub struct XZBBoxRect {
    min: XZPoint,
    max: XZPoint,
}

impl View for XZBBoxRect {
    type V = SpecRect;

    closed spec fn view(&self) -> SpecRect {
        SpecRect { min: self.min@, max: self.max@ }
    }
}

impl XZBBoxRect {
    /// What holds of every rectangle that a program holds: the corners are in
    /// order.
    #[verifier::type_invariant]
    pub open spec fn corners_in_order(self) -> bool {
        self@.wf()
    }

    /// The rectangle that `self` becomes when moved by `v`, where that fits in
    /// 32-bit coordinates.
    pub closed spec fn translated(self, v: SpecVector) -> XZBBoxRect {
        XZBBoxRect {
            min: XZPoint { x: (self.min.x + v.dx) as i32, z: (self.min.z + v.dz) as i32 },
            max: XZPoint { x: (self.max.x + v.dx) as i32, z: (self.max.z + v.dz) as i32 },
        }
    }

    /// Rectangles with the same corners are the same rectangle.
    pub proof fn lemma_view_injective(self, other: XZBBoxRect)
        requires
            self@ == other@,
        ensures
            self == other,
    {
    }

    /// `translated` moves the corners by `v`, where the result fits.
    pub proof fn lemma_translated_view(self, v: SpecVector)
        requires
            self@.translate(v).representable(),
        ensures
            self.translated(v)@ == self@.translate(v),
    {
    }

    /// Where a rectangle can be moved by `v`, moving it by `v` and then
    /// against `v` gives a rectangle equal to the first.
    pub proof fn lemma_add_then_sub_returns_the_rectangle(self, v: XZVector)
        requires
            self.add_req(v),
        ensures
            self.add_spec(v).sub_req(v),
            self.add_spec(v).sub_spec(v) == self,
    {
        self.lemma_translated_view(v@);
        self@.lemma_translate_round_trip(v@);
        self.add_spec(v).lemma_translated_view(v@.neg());
        self.add_spec(v).sub_spec(v).lemma_view_injective(self);
    }

    /// The rectangle from `min` to `max`, both inclusive, or `InvalidBounds`
    /// if `min` lies beyond `max` on some axis.
    pub fn new(min: XZPoint, max: XZPoint) -> (r: Result<Self, XZBBoxError>)
        ensures
            match r {
                Ok(rect) => rect@ == (SpecRect { min: min@, max: max@ }) && rect@.wf(),
                Err(e) => e == (XZBBoxError::InvalidBounds { min, max }) && !(SpecRect {
                    min: min@,
                    max: max@,
                }).wf(),
            },
    {
        if min.x > max.x || min.z > max.z {
            Err(XZBBoxError::InvalidBounds { min, max })
        } else {
            Ok(XZBBoxRect { min, max })
        }
    }

    /// Whether `point` lies in the rectangle, corners included.
    pub fn contains(&self, point: &XZPoint) -> (r: bool)
        ensures
            r == self@.contains(point@),
    {
        self.min.x <= point.x && point.x <= self.max.x && self.min.z <= point.z && point.z
            <= self.max.z
    }

    /// The minimum corner.
    pub fn min(&self) -> (p: XZPoint)
        ensures
            p@ == self@.min,
    {
        self.min
    }

    /// The maximum corner.
    pub fn max(&self) -> (p: XZPoint)
        ensures
            p@ == self@.max,
    {
        self.max
    }

    /// The number of cells along x: `max.x - min.x + 1`.
    pub fn total_blocks_x(&self) -> (n: u64)
        ensures
            n == self@.total_blocks_x(),
            1 <= n <= 0x1_0000_0000,
    {
        proof {
            use_type_invariant(self);
        }
        (self.max.x as i64 - self.min.x as i64 + 1) as u64
    }

    /// The number of cells along z: `max.z - min.z + 1`.
    pub fn total_blocks_z(&self) -> (n: u64)
        ensures
            n == self@.total_blocks_z(),
            1 <= n <= 0x1_0000_0000,
    {
        proof {
            use_type_invariant(self);
        }
        (self.max.z as i64 - self.min.z as i64 + 1) as u64
    }

    /// The number of cells: the product of the two side lengths. It is
    /// computed in 128 bits, which hold it for every rectangle.
    pub fn total_blocks(&self) -> (n: u128)
        ensures
            n == self@.total_blocks(),
            n == self@.total_blocks_x() * self@.total_blocks_z(),
            n >= 1,
    {
        let w: u128 = self.total_blocks_x() as u128;
        let h: u128 = self.total_blocks_z() as u128;
        assert(1 <= w * h <= 0x1_0000_0000_0000_0000) by (nonlinear_arith)
            requires
                1 <= w <= 0x1_0000_0000,
                1 <= h <= 0x1_0000_0000,
        ;
        w * h
    }

    /// The rectangle as text: `Rect(min, max)`.
    pub fn to_string(&self) -> (s: String)
        ensures
            s@ == self@.text(),
    {
        let mut s = String::new();
        s.append("Rect(");
        s.append(self.min.to_string().as_str());
        s.append(", ");
        s.append(self.max.to_string().as_str());
        s.append(")");
        assert(s@ =~= self@.text());
        s
    }

    /// Moves the rectangle by `v`, in place. The moved rectangle must fit in
    /// 32-bit coordinates.
    pub fn add_assign(&mut self, v: XZVector)
        requires
            old(self)@.translate(v@).representable(),
        ensures
            final(self)@ == old(self)@.translate(v@),
    {
        proof {
            use_type_invariant(&*self);
        }
        *self = XZBBoxRect { min: self.min + v, max: self.max + v };
    }

    /// Moves the rectangle against `v`, in place. The moved rectangle must fit
    /// in 32-bit coordinates.
    pub fn sub_assign(&mut self, v: XZVector)
        requires
            old(self)@.translate(v@.neg()).representable(),
        ensures
            final(self)@ == old(self)@.translate(v@.neg()),
    {
        proof {
            use_type_invariant(&*self);
        }
        *self = XZBBoxRect { min: self.min - v, max: self.max - v };
    }
}

impl vstd::std_specs::ops::AddSpecImpl<XZVector> for XZBBoxRect {
    open spec fn obeys_add_spec() -> bool {
        true
    }

    open spec fn add_req(self, rhs: XZVector) -> bool {
        self@.translate(rhs@).representable()
    }

    open spec fn add_spec(self, rhs: XZVector) -> XZBBoxRect {
        self.translated(rhs@)
    }
}

impl Add<XZVector> for XZBBoxRect {
    type Output = XZBBoxRect;

    /// The rectangle moved by `rhs`. The moved rectangle must fit in 32-bit
    /// coordinates.
    fn add(self, rhs: XZVector) -> (r: XZBBoxRect)
        ensures
            r@ == self@.translate(rhs@),
    {
        proof {
            use_type_invariant(&self);
        }
        XZBBoxRect { min: self.min + rhs, max: self.max + rhs }
    }
}

impl vstd::std_specs::ops::SubSpecImpl<XZVector> for XZBBoxRect {
    open spec fn obeys_sub_spec() -> bool {
        true
    }

    open spec fn sub_req(self, rhs: XZVector) -> bool {
        self@.translate(rhs@.neg()).representable()
    }

    open spec fn sub_spec(self, rhs: XZVector) -> XZBBoxRect {
        self.translated(rhs@.neg())
    }
}

impl Sub<XZVector> for XZBBoxRect {
    type Output = XZBBoxRect;

    /// The rectangle moved against `rhs`. The moved rectangle must fit in
    /// 32-bit coordinates.
    fn sub(self, rhs: XZVector) -> (r: XZBBoxRect)
        ensures
            r@ == self@.translate(rhs@.neg()),
    {
        proof {
            use_type_invariant(&self);
        }
        XZBBoxRect { min: self.min - rhs, max: self.max - rhs }
    }
}

} // verus!
