//! Vectors of `W` binary32 lanes: what a vector engine of width `W` computes on.
//!
//! The scalar engine is the width 1, the wide engine the width 8. Every
//! operation acts on each lane by itself, so what a lane holds after a
//! computation does not depend on the width it was computed at.
use crate::binary32::F32;
use vstd::prelude::*;

verus! {

/// Lanes of the scalar engine.
pub const SCALAR_WIDTH: usize = 1;

/// Lanes of the wide engine.
pub const WIDE_WIDTH: usize = 8;

/// `W` binary32 lanes.
#[derive(Clone, Copy, Debug)]
pub struct Vf32<const W: usize> {
    pub lanes: [F32; W],
}

impl<const W: usize> Vf32<W> {
    /// The lanes in order.
    pub open spec fn view(&self) -> Seq<F32> {
        self.lanes@
    }

    /// Every lane set to `x`.
    pub fn set1(x: F32) -> (r: Self)
        ensures
            forall|i: int| 0 <= i < W ==> r@[i] == x,
    {
        let lanes = [x;W];
        assert forall|i: int| 0 <= i < W implies lanes@[i] == x by {
            vstd::array::axiom_spec_array_fill_for_copy_type::<F32, W>(x);
        }
        Vf32 { lanes }
    }

    /// The vector with the given lanes.
    pub fn from_lanes(lanes: [F32; W]) -> (r: Self)
        ensures
            r@ == lanes@,
    {
        Vf32 { lanes }
    }

    /// Lane `i`.
    pub fn lane(&self, i: usize) -> (r: F32)
        requires
            i < W,
        ensures
            r == self@[i as int],
    {
        self.lanes[i]
    }

    /// The vector with lane `i` replaced by `x`.
    pub fn with_lane(self, i: usize, x: F32) -> (r: Self)
        requires
            i < W,
        ensures
            r@ == self@.update(i as int, x),
    {
        let mut lanes = self.lanes;
        lanes[i] = x;
        Vf32 { lanes }
    }

    /// Lane by lane product.
    pub fn times(self, rhs: Self) -> (r: Self)
        ensures
            forall|i: int| 0 <= i < W ==> r@[i] == self@[i].times(rhs@[i]),
    {
        let mut out = self;
        let mut l: usize = 0;
        while l < W
            invariant
                l <= W,
                forall|i: int| 0 <= i < l ==> out@[i] == self@[i].times(rhs@[i]),
            decreases W - l,
        {
            out = out.with_lane(l, self.lane(l).times(rhs.lane(l)));
            l += 1;
        }
        out
    }

    /// Lane by lane sum.
    pub fn plus(self, rhs: Self) -> (r: Self)
        ensures
            forall|i: int| 0 <= i < W ==> r@[i] == self@[i].plus(rhs@[i]),
    {
        let mut out = self;
        let mut l: usize = 0;
        while l < W
            invariant
                l <= W,
                forall|i: int| 0 <= i < l ==> out@[i] == self@[i].plus(rhs@[i]),
            decreases W - l,
        {
            out = out.with_lane(l, self.lane(l).plus(rhs.lane(l)));
            l += 1;
        }
        out
    }

    /// Lane by lane minimum, as [`F32::lowest`] takes it.
    pub fn min(self, rhs: Self) -> (r: Self)
        ensures
            forall|i: int| 0 <= i < W ==> r@[i] == self@[i].lowest(rhs@[i]),
    {
        let mut out = self;
        let mut l: usize = 0;
        while l < W
            invariant
                l <= W,
                forall|i: int| 0 <= i < l ==> out@[i] == self@[i].lowest(rhs@[i]),
            decreases W - l,
        {
            out = out.with_lane(l, self.lane(l).lowest(rhs.lane(l)));
            l += 1;
        }
        out
    }

    /// Lane by lane maximum, as [`F32::highest`] takes it.
    pub fn max(self, rhs: Self) -> (r: Self)
        ensures
            forall|i: int| 0 <= i < W ==> r@[i] == self@[i].highest(rhs@[i]),
    {
        let mut out = self;
        let mut l: usize = 0;
        while l < W
            invariant
                l <= W,
                forall|i: int| 0 <= i < l ==> out@[i] == self@[i].highest(rhs@[i]),
            decreases W - l,
        {
            out = out.with_lane(l, self.lane(l).highest(rhs.lane(l)));
            l += 1;
        }
        out
    }

    /// The `W` values of `src` from index `at` on.
    pub fn load(src: &Vec<F32>, at: usize) -> (r: Self)
        requires
            at + W <= src.len(),
        ensures
            r@ == src@.subrange(at as int, at + W),
    {
        let mut out = Self::set1(F32::from_bits(0));
        let mut l: usize = 0;
        while l < W
            invariant
                l <= W,
                at + W <= src.len(),
                forall|i: int| 0 <= i < l ==> out@[i] == src@[at + i],
            decreases W - l,
        {
            out = out.with_lane(l, src[at + l]);
            l += 1;
        }
        assert(out@ =~= src@.subrange(at as int, at + W));
        out
    }

    /// Writes the lanes over the `W` values of `dst` from index `at` on.
    pub fn store(self, dst: &mut Vec<F32>, at: usize)
        requires
            at + W <= old(dst).len(),
        ensures
            final(dst)@ == old(dst)@.subrange(0, at as int) + self@ + old(dst)@.subrange(
                at + W,
                old(dst).len() as int,
            ),
    {
        let mut l: usize = 0;
        while l < W
            invariant
                l <= W,
                at + W <= dst.len(),
                dst.len() == old(dst).len(),
                forall|i: int| 0 <= i < at ==> dst@[i] == old(dst)@[i],
                forall|i: int| 0 <= i < l ==> dst@[at + i] == self@[i],
                forall|i: int| at + l <= i < dst.len() ==> dst@[i] == old(dst)@[i],
            decreases W - l,
        {
            dst.set(at + l, self.lane(l));
            l += 1;
        }
        assert(dst@ =~= old(dst)@.subrange(0, at as int) + self@ + old(dst)@.subrange(
            at + W,
            old(dst).len() as int,
        ));
    }

    /// Appends the first `count` lanes to `dst`.
    pub fn append_to(self, dst: &mut Vec<F32>, count: usize)
        requires
            count <= W,
        ensures
            final(dst)@ == old(dst)@ + self@.take(count as int),
    {
        let mut l: usize = 0;
        while l < count
            invariant
                l <= count <= W,
                dst@ == old(dst)@ + self@.take(l as int),
            decreases count - l,
        {
            dst.push(self.lane(l));
            assert(self@.take(l + 1) =~= self@.take(l as int).push(self@[l as int]));
            l += 1;
        }
    }
}

} // verus!
