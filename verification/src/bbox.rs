//! Bounding boxes of any supported shape.

use vstd::prelude::*;
use std::ops::{Add, Sub};
use vstd::std_specs::ops::{AddSpec, SubSpec};
use vstd::string::StringExecFns;
use crate::binary64::Binary64;
use crate::error::{Axis, XZBBoxError};
use crate::point::{SpecPoint, SpecVector, XZPoint, XZVector};
use crate::points::XZBBoxPoints;
use crate::rectangle::{SpecRect, XZBBoxRect};

verus! {

/// A bounding box of the unbounded mathematical grid.
pub enum SpecBBox {
    Rect(SpecRect),
}

impl SpecBBox {
    /// The shape is a valid one of its kind.
    pub open spec fn wf(self) -> bool {
        match self {
            SpecBBox::Rect(r) => r.wf(),
        }
    }

    /// Whether `p` is covered.
    pub open spec fn contains(self, p: SpecPoint) -> bool {
        match self {
            SpecBBox::Rect(r) => r.contains(p),
        }
    }

    /// The smallest rectangle that encloses the shape.
    pub open spec fn bounding_rect(self) -> SpecRect {
        match self {
            SpecBBox::Rect(r) => r,
        }
    }

    /// The box moved by `v`. The shape's kind stays.
    pub open spec fn translate(self, v: SpecVector) -> SpecBBox {
        match self {
            SpecBBox::Rect(r) => SpecBBox::Rect(r.translate(v)),
        }
    }

    /// The covered points: x ascending, and z ascending within one x.
    pub open spec fn points(self) -> Seq<SpecPoint> {
        match self {
            SpecBBox::Rect(r) => r.points(),
        }
    }

    /// The box as text: the shape's own text behind `XZBBox::`, so that the
    /// text starts by naming the kind of shape.
    pub open spec fn text(self) -> Seq<char> {
        match self {
            SpecBBox::Rect(r) => "XZBBox::"@ + r.text(),
        }
    }

    /// What building a rectangular box from two lengths gives. The four
    /// checks are made in this order, and the first that fails decides the
    /// error. Accepted lengths give the box from the origin to their integer
    /// parts.
    pub open spec fn rect_from_xz_lengths(length_x: Binary64, length_z: Binary64) -> Result<
        SpecBBox,
        XZBBoxError,
    > {
        if !length_x@.is_non_negative() {
            Err(XZBBoxError::NegativeLength { axis: Axis::X, length: length_x })
        } else if !length_z@.is_non_negative() {
            Err(XZBBoxError::NegativeLength { axis: Axis::Z, length: length_z })
        } else if length_x@.exceeds(i32::MAX as int) {
            Err(XZBBoxError::LengthOverflow { axis: Axis::X, length: length_x })
        } else if length_z@.exceeds(i32::MAX as int) {
            Err(XZBBoxError::LengthOverflow { axis: Axis::Z, length: length_z })
        } else {
            Ok(
                SpecBBox::Rect(
                    SpecRect {
                        min: SpecPoint { x: 0, z: 0 },
                        max: SpecPoint { x: length_x@.trunc(), z: length_z@.trunc() },
                    },
                ),
            )
        }
    }

    /// Lengths from zero to `i32::MAX` are accepted. The box then starts at
    /// the origin, reaches to the floor of each length, and has one cell more
    /// along each axis than that floor.
    pub proof fn lemma_valid_lengths_accepted(length_x: Binary64, length_z: Binary64)
        requires
            length_x@.is_non_negative(),
            length_z@.is_non_negative(),
            !length_x@.exceeds(i32::MAX as int),
            !length_z@.exceeds(i32::MAX as int),
        ensures
            Self::rect_from_xz_lengths(length_x, length_z) matches Ok(b) && {
                &&& b.wf()
                &&& b.bounding_rect().representable()
                &&& b.bounding_rect().min == (SpecPoint { x: 0, z: 0 })
                &&& b.bounding_rect().max == (SpecPoint {
                    x: length_x@.floor(),
                    z: length_z@.floor(),
                })
                &&& b.bounding_rect().total_blocks_x() == length_x@.floor() + 1
                &&& b.bounding_rect().total_blocks_z() == length_z@.floor() + 1
            },
    {
        length_x.lemma_accepted_integer_part();
        length_z.lemma_accepted_integer_part();
    }

    /// A length below zero is rejected, whatever the other length is.
    pub proof fn lemma_negative_length_rejected(length_x: Binary64, length_z: Binary64)
        requires
            length_x@.below(0) || length_z@.below(0),
        ensures
            Self::rect_from_xz_lengths(length_x, length_z) matches Err(e) && (e
                == (XZBBoxError::NegativeLength { axis: Axis::X, length: length_x }) || e
                == (XZBBoxError::NegativeLength { axis: Axis::Z, length: length_z })),
    {
        length_x.lemma_finite_value();
        length_z.lemma_finite_value();
    }

    /// A length above `i32::MAX` is rejected, whatever the other length is.
    pub proof fn lemma_overflowing_length_rejected(length_x: Binary64, length_z: Binary64)
        requires
            length_x@.exceeds(i32::MAX as int) || length_z@.exceeds(i32::MAX as int),
        ensures
            Self::rect_from_xz_lengths(length_x, length_z) is Err,
    {
    }

    /// The cell count of a box is the product of its two side lengths.
    pub proof fn lemma_total_blocks_is_product(self)
        ensures
            self.bounding_rect().total_blocks() == self.bounding_rect().total_blocks_x()
                * self.bounding_rect().total_blocks_z(),
    {
    }

    /// Moving a box by `v` and then by the opposite of `v` gives the box back.
    pub proof fn lemma_translate_round_trip(self, v: SpecVector)
        ensures
            self.translate(v).translate(v.neg()) == self,
            self.translate(v.neg()).translate(v) == self,
    {
        self.bounding_rect().lemma_translate_round_trip(v);
    }

    /// A box covers both corners of its bounding rectangle, and no point that
    /// lies one unit outside that rectangle on either axis.
    pub proof fn lemma_contains_corners_only_within(self)
        requires
            self.wf(),
        ensures
            self.contains(self.bounding_rect().min),
            self.contains(self.bounding_rect().max),
            forall|p: SpecPoint|
                (p.x == self.bounding_rect().min.x - 1 || p.x == self.bounding_rect().max.x + 1
                    || p.z == self.bounding_rect().min.z - 1 || p.z
                    == self.bounding_rect().max.z + 1) ==> !self.contains(p),
    {
    }

    /// The point sequence of a box with side lengths `w` and `h` has `w * h`
    /// entries, all of them covered and no two of them equal, and every
    /// covered point is among them.
    pub proof fn lemma_points_cover_exactly_once(self)
        requires
            self.wf(),
        ensures
            self.points().len() == self.bounding_rect().total_blocks_x()
                * self.bounding_rect().total_blocks_z(),
            forall|i: int| 0 <= i < self.points().len() ==> self.contains(#[trigger] self.points()[i]),
            self.points().no_duplicates(),
            forall|p: SpecPoint| self.contains(p) <==> self.points().contains(p),
    {
        let r = self.bounding_rect();
        let s = self.points();
        r.lemma_total_blocks_positive();
        assert forall|i: int| 0 <= i < s.len() implies self.contains(#[trigger] s[i]) by {
            r.lemma_point_at_in_rect(i);
        }
        assert forall|i: int, j: int| 0 <= i < s.len() && 0 <= j < s.len() && i != j implies s[i]
            != s[j] by {
            r.lemma_point_at_in_rect(i);
            r.lemma_point_at_in_rect(j);
        }
        assert forall|p: SpecPoint| self.contains(p) implies s.contains(p) by {
            r.lemma_index_of_in_range(p);
            assert(s[r.index_of(p)] == p);
        }
    }

    /// The point sequence runs column by column: x never falls, and within
    /// one x, z rises.
    pub proof fn lemma_points_in_order(self, i: int, j: int)
        requires
            self.wf(),
            0 <= i < j < self.points().len(),
        ensures
            self.points()[i].x < self.points()[j].x || (self.points()[i].x == self.points()[j].x
                && self.points()[i].z < self.points()[j].z),
    {
        let r = self.bounding_rect();
        let h = r.total_blocks_z();
        r.lemma_point_at_in_rect(i);
        r.lemma_point_at_in_rect(j);
        let a = r.point_at(i);
        let b = r.point_at(j);
        assert(a.x <= b.x) by (nonlinear_arith)
            requires
                (a.x - r.min.x) * h + (a.z - r.min.z) < (b.x - r.min.x) * h + (b.z - r.min.z),
                0 <= a.z - r.min.z < h,
                0 <= b.z - r.min.z < h,
        ;
    }
}

/// A bounding box on the XZ grid. Rectangles are the one shape so far.
#[derive(Clone, Copy, Debug, PartialEq, Eq, Hash, Structural)]
pub enum XZBBox {
    Rect(XZBBoxRect),
}

impl View for XZBBox {
    type V = SpecBBox;

    open spec fn view(&self) -> SpecBBox {
        match self {
            XZBBox::Rect(r) => SpecBBox::Rect(r@),
        }
    }
}

impl XZBBox {
    /// The rectangular box that spans the given lengths from the origin: from
    /// `(0, 0)` to the integer parts of `length_x` and `length_z`, both
    /// inclusive. A length must be at least zero and at most `i32::MAX`.
    pub fn rect_from_xz_lengths(length_x: Binary64, length_z: Binary64) -> (r: Result<
        Self,
        XZBBoxError,
    >)
        ensures
            match (r, SpecBBox::rect_from_xz_lengths(length_x, length_z)) {
                (Ok(b), Ok(model)) => b@ == model && b@.wf(),
                (Err(e), Err(model)) => e == model,
                _ => false,
            },
    {
        if !length_x.is_non_negative() {
            return Err(XZBBoxError::NegativeLength { axis: Axis::X, length: length_x });
        }
        if !length_z.is_non_negative() {
            return Err(XZBBoxError::NegativeLength { axis: Axis::Z, length: length_z });
        }
        if length_x.exceeds_i32_max() {
            return Err(XZBBoxError::LengthOverflow { axis: Axis::X, length: length_x });
        }
        if length_z.exceeds_i32_max() {
            return Err(XZBBoxError::LengthOverflow { axis: Axis::Z, length: length_z });
        }
        proof {
            length_x.lemma_accepted_integer_part();
            length_z.lemma_accepted_integer_part();
        }
        let max = XZPoint::new(length_x.to_i32(), length_z.to_i32());
        match XZBBoxRect::new(XZPoint::new(0, 0), max) {
            Ok(rect) => Ok(XZBBox::Rect(rect)),
            Err(e) => Err(e),
        }
    }

    /// Whether `xzpoint` is covered.
    pub fn contains(&self, xzpoint: &XZPoint) -> (r: bool)
        ensures
            r == self@.contains(xzpoint@),
    {
        match self {
            XZBBox::Rect(r) => r.contains(xzpoint),
        }
    }

    /// The smallest rectangle that encloses the box: for a rectangular box,
    /// its own rectangle.
    pub fn bounding_rect(&self) -> (r: XZBBoxRect)
        ensures
            r@ == self@.bounding_rect(),
            self@.wf(),
    {
        match self {
            XZBBox::Rect(r) => {
                proof {
                    use_type_invariant(r);
                }
                *r
            },
        }
    }

    /// The least x among the covered points.
    pub fn min_x(&self) -> (x: i32)
        ensures
            x == self@.bounding_rect().min.x,
    {
        self.bounding_rect().min().x
    }

    /// The greatest x among the covered points.
    pub fn max_x(&self) -> (x: i32)
        ensures
            x == self@.bounding_rect().max.x,
    {
        self.bounding_rect().max().x
    }

    /// The least z among the covered points.
    pub fn min_z(&self) -> (z: i32)
        ensures
            z == self@.bounding_rect().min.z,
    {
        self.bounding_rect().min().z
    }

    /// The greatest z among the covered points.
    pub fn max_z(&self) -> (z: i32)
        ensures
            z == self@.bounding_rect().max.z,
    {
        self.bounding_rect().max().z
    }

    /// A cursor over the covered points that leaves the box in place.
    pub fn iter(&self) -> (points: XZBBoxPoints)
        ensures
            points@ == self@.points(),
    {
        XZBBoxPoints::new(self.bounding_rect())
    }

    /// A cursor over the covered points: x ascending, and z ascending within
    /// one x. The box is taken by value; the cursor produces the points one by
    /// one and holds none of them in memory.
    pub fn into_iter(self) -> (points: XZBBoxPoints)
        ensures
            points@ == self@.points(),
    {
        self.iter()
    }

    /// The box as text, for people to read: `XZBBox::Rect(min, max)`.
    pub fn to_string(&self) -> (s: String)
        ensures
            s@ == self@.text(),
    {
        match self {
            XZBBox::Rect(r) => {
                let mut s = String::new();
                s.append("XZBBox::");
                s.append(r.to_string().as_str());
                assert(s@ =~= self@.text());
                s
            },
        }
    }

    /// Moves the box by `v`, in place. The moved box must fit in 32-bit
    /// coordinates.
    pub fn add_assign(&mut self, v: XZVector)
        requires
            old(self)@.translate(v@).bounding_rect().representable(),
        ensures
            final(self)@ == old(self)@.translate(v@),
    {
        match self {
            XZBBox::Rect(r) => r.add_assign(v),
        }
    }

    /// Moves the box against `v`, in place. The moved box must fit in 32-bit
    /// coordinates.
    pub fn sub_assign(&mut self, v: XZVector)
        requires
            old(self)@.translate(v@.neg()).bounding_rect().representable(),
        ensures
            final(self)@ == old(self)@.translate(v@.neg()),
    {
        match self {
            XZBBox::Rect(r) => r.sub_assign(v),
        }
    }

    /// Where a box can be moved by `v`, moving it by `v` and then against `v`
    /// gives a box equal to the first.
    pub proof fn lemma_add_then_sub_returns_the_box(self, v: XZVector)
        requires
            self.add_req(v),
        ensures
            self.add_spec(v).sub_req(v),
            self.add_spec(v).sub_spec(v) == self,
    {
        match self {
            XZBBox::Rect(r) => r.lemma_add_then_sub_returns_the_rectangle(v),
        }
    }

}

impl vstd::std_specs::ops::AddSpecImpl<XZVector> for XZBBox {
    open spec fn obeys_add_spec() -> bool {
        true
    }

    open spec fn add_req(self, rhs: XZVector) -> bool {
        self@.translate(rhs@).bounding_rect().representable()
    }

    open spec fn add_spec(self, rhs: XZVector) -> XZBBox {
        match self {
            XZBBox::Rect(r) => XZBBox::Rect(r.translated(rhs@)),
        }
    }
}

impl Add<XZVector> for XZBBox {
    type Output = XZBBox;

    /// The box moved by `other`. The moved box must fit in 32-bit
    /// coordinates.
    fn add(self, other: XZVector) -> (b: XZBBox)
        ensures
            b@ == self@.translate(other@),
    {
        match self {
            XZBBox::Rect(r) => XZBBox::Rect(r + other),
        }
    }
}

impl vstd::std_specs::ops::SubSpecImpl<XZVector> for XZBBox {
    open spec fn obeys_sub_spec() -> bool {
        true
    }

    open spec fn sub_req(self, rhs: XZVector) -> bool {
        self@.translate(rhs@.neg()).bounding_rect().representable()
    }

    open spec fn sub_spec(self, rhs: XZVector) -> XZBBox {
        match self {
            XZBBox::Rect(r) => XZBBox::Rect(r.translated(rhs@.neg())),
        }
    }
}

impl Sub<XZVector> for XZBBox {
    type Output = XZBBox;

    /// The box moved against `other`. The moved box must fit in 32-bit
    /// coordinates.
    fn sub(self, other: XZVector) -> (b: XZBBox)
        ensures
            b@ == self@.translate(other@.neg()),
    {
        match self {
            XZBBox::Rect(r) => XZBBox::Rect(r - other),
        }
    }
}

} // verus!
