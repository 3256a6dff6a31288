//! Walking the points of a bounding box.

use vstd::prelude::*;
use crate::point::{SpecPoint, XZPoint};
use crate::rectangle::XZBBoxRect;

verus! {

/// A cursor over the points of a rectangle. It keeps the rectangle and the
/// point that comes next, and so takes the same room however many points are
/// left.
#[derive(Clone, Copy, Debug)]
pub struct XZBBoxPoints {
    rect: XZBBoxRect,
    next: XZPoint,
    done: bool,
}

impl View for XZBBoxPoints {
    type V = Seq<SpecPoint>;

    /// The points still to come, in the order in which they come.
    closed spec fn view(&self) -> Seq<SpecPoint> {
        if self.done {
            Seq::empty()
        } else {
            self.rect@.points().skip(self.rect@.index_of(self.next@))
        }
    }
}

impl XZBBoxPoints {
    #[verifier::type_invariant]
    spec fn next_in_rect(self) -> bool {
        &&& self.rect@.wf()
        &&& !self.done ==> self.rect@.contains(self.next@)
    }

    /// A cursor before the first point of `rect`.
    pub fn new(rect: XZBBoxRect) -> (points: Self)
        ensures
            points@ == rect@.points(),
    {
        let next = rect.min();
        proof {
            use_type_invariant(&rect);
            assert(rect@.index_of(next@) == 0) by (nonlinear_arith)
                requires
                    rect@.index_of(next@) == (next@.x - rect@.min.x) * rect@.total_blocks_z(),
                    next@.x == rect@.min.x,
            ;
            assert(rect@.points().skip(0) =~= rect@.points());
        }
        XZBBoxPoints { rect, next, done: false }
    }

    /// The next point, or `None` once every point has come.
    pub fn next(&mut self) -> (r: Option<XZPoint>)
        ensures
            match r {
                Some(p) => old(self)@.len() > 0 && p@ == old(self)@[0] && final(self)@ == old(
                    self,
                )@.skip(1),
                None => old(self)@.len() == 0 && final(self)@ == old(self)@,
            },
    {
        proof {
            use_type_invariant(&*self);
        }
        if self.done {
            return None;
        }
        let p = self.next;
        let min = self.rect.min();
        let max = self.rect.max();
        let ghost rect = self.rect@;
        let ghost all = rect.points();
        let ghost i = rect.index_of(p@);
        let ghost w = rect.total_blocks_x();
        let ghost h = rect.total_blocks_z();
        proof {
            rect.lemma_index_of_in_range(p@);
            assert(all.skip(i)[0] == p@);
            assert(all.skip(i).skip(1) =~= all.skip(i + 1));
        }
        if p.z < max.z {
            self.next = XZPoint::new(p.x, p.z + 1);
        } else if p.x < max.x {
            self.next = XZPoint::new(p.x + 1, min.z);
            proof {
                let a = p@.x - rect.min.x;
                assert((a + 1) * h == a * h + h) by (nonlinear_arith);
            }
        } else {
            self.done = true;
            proof {
                assert((w - 1) * h + h == w * h) by (nonlinear_arith);
                assert(all.skip(i + 1) =~= Seq::<SpecPoint>::empty());
            }
        }
        Some(p)
    }
}

} // verus!
