//! Blocks of binary32 noise: the sampling loop that walks a box of lattice
//! points, one vector of columns at a time, and keeps the smallest and the
//! largest sample it has seen. Numbers are ordered by value, with `-0.0`
//! before `0.0`, so that a block has one minimum and one maximum, bit for
//! bit, whatever the width it was sampled at.
use crate::binary32::{F32, INFINITY, MAX, MIN, NEG_INFINITY, ONE};
use crate::noise_dimensions::NoiseDimensions;
use crate::noise_type::NoiseType;
use crate::settings::fbm_settings::FbmSettings;
use crate::settings::gradient_settings::GradientSettings;
use crate::vector_32::Vf32;
use vstd::prelude::*;

verus! {

/// Settings that can be sampled at binary32 precision.
///
/// The `noise_*` functions say what one lane of a sample is; the `sample_*`
/// methods compute it for `W` lanes at once, whatever the width.
pub trait Sample32: Copy {
    /// The box the settings describe.
    spec fn dimensions(&self) -> NoiseDimensions;

    /// Multiplier of the x coordinate.
    spec fn freq_x(&self) -> F32;

    /// Multiplier of the y coordinate.
    spec fn freq_y(&self) -> F32;

    /// Multiplier of the z coordinate.
    spec fn freq_z(&self) -> F32;

    /// The noise at the point `x`.
    spec fn noise_1d(&self, x: F32) -> F32;

    /// The noise at the point `(x, y)`.
    spec fn noise_2d(&self, x: F32, y: F32) -> F32;

    /// The noise at the point `(x, y, z)`.
    spec fn noise_3d(&self, x: F32, y: F32, z: F32) -> F32;

    fn get_dimensions(&self) -> (r: NoiseDimensions)
        ensures
            r == self.dimensions(),
    ;

    fn get_freq_x(&self) -> (r: F32)
        ensures
            r == self.freq_x(),
    ;

    fn get_freq_y(&self) -> (r: F32)
        ensures
            r == self.freq_y(),
    ;

    fn get_freq_z(&self) -> (r: F32)
        ensures
            r == self.freq_z(),
    ;

    fn sample_1d<const W: usize>(&self, x: Vf32<W>) -> (r: Vf32<W>)
        ensures
            forall|l: int| 0 <= l < W ==> r@[l] == self.noise_1d(x@[l]),
    ;

    fn sample_2d<const W: usize>(&self, x: Vf32<W>, y: Vf32<W>) -> (r: Vf32<W>)
        ensures
            forall|l: int| 0 <= l < W ==> r@[l] == self.noise_2d(x@[l], y@[l]),
    ;

    fn sample_3d<const W: usize>(&self, x: Vf32<W>, y: Vf32<W>, z: Vf32<W>) -> (r: Vf32<W>)
        ensures
            forall|l: int| 0 <= l < W ==> r@[l] == self.noise_3d(x@[l], y@[l], z@[l]),
    ;
}

/// The column number `c` as a lattice integer: `c` itself, or the largest
/// lattice integer for a column beyond it.
pub open spec fn lattice_index(c: int) -> i32 {
    if c <= i32::MAX {
        c as i32
    } else {
        i32::MAX
    }
}

/// Coordinate of column `c` of a row that starts at `start`.
pub open spec fn column(start: F32, c: int) -> F32 {
    start.plus(F32::from_int(lattice_index(c)))
}

/// Coordinate reached from `start` by `n` steps of `1.0`.
pub open spec fn stepped(start: F32, n: nat) -> F32
    decreases n,
{
    if n == 0 {
        start
    } else {
        stepped(start, (n - 1) as nat).plus(F32::from_bits(ONE))
    }
}

/// The sample at the coordinates `(x, y, z)`, of which a block of `dims`
/// dimensions uses the first `dims`: each one is multiplied by the frequency
/// of its axis, and the noise is taken there.
pub open spec fn sample_at<S: Sample32>(s: S, dims: int, x: F32, y: F32, z: F32) -> F32 {
    if dims == 1 {
        s.noise_1d(x.times(s.freq_x()))
    } else if dims == 2 {
        s.noise_2d(x.times(s.freq_x()), y.times(s.freq_y()))
    } else {
        s.noise_3d(x.times(s.freq_x()), y.times(s.freq_y()), z.times(s.freq_z()))
    }
}

/// The samples of the row at `(y, z)`: one for each column, in order.
pub open spec fn row<S: Sample32>(s: S, dims: int, y: F32, z: F32) -> Seq<F32> {
    let dim = s.dimensions();
    Seq::new(dim.width as nat, |c: int| sample_at(s, dims, column(dim.x, c), y, z))
}

/// The first `n` rows of the plane at `z`, one after the other.
pub open spec fn rows<S: Sample32>(s: S, dims: int, z: F32, n: nat) -> Seq<F32>
    decreases n,
{
    if n == 0 {
        Seq::empty()
    } else {
        rows(s, dims, z, (n - 1) as nat) + row(
            s,
            dims,
            stepped(s.dimensions().y, (n - 1) as nat),
            z,
        )
    }
}

/// The first `n` planes of a block, one after the other.
pub open spec fn planes<S: Sample32>(s: S, n: nat) -> Seq<F32>
    decreases n,
{
    if n == 0 {
        Seq::empty()
    } else {
        planes(s, (n - 1) as nat) + rows(
            s,
            3,
            stepped(s.dimensions().z, (n - 1) as nat),
            s.dimensions().height as nat,
        )
    }
}

/// The samples of a one-dimensional block: a single row.
pub open spec fn block_1d<S: Sample32>(s: S) -> Seq<F32> {
    row(s, 1, s.dimensions().y, s.dimensions().z)
}

/// The samples of a two-dimensional block, row after row.
pub open spec fn block_2d<S: Sample32>(s: S) -> Seq<F32> {
    rows(s, 2, s.dimensions().z, s.dimensions().height as nat)
}

/// The samples of a three-dimensional block: plane after plane, and row
/// after row in each plane.
pub open spec fn block_3d<S: Sample32>(s: S) -> Seq<F32> {
    planes(s, s.dimensions().depth as nat)
}

/// Some sample of `s` is a number.
pub open spec fn holds_number(s: Seq<F32>) -> bool {
    exists|i: int| 0 <= i < s.len() && !(#[trigger] s[i]).is_nan()
}

/// `m` is the minimum of `s`: one of its samples, a number, which no number
/// of `s` comes before. Numbers go by value, and of the two zeros `-0.0` is
/// the first, so that there is one such sample, bit for bit. Where `s` holds
/// no number, the minimum is the largest finite value.
pub open spec fn is_lower_extreme(m: F32, s: Seq<F32>) -> bool {
    if holds_number(s) {
        &&& !m.is_nan()
        &&& s.contains(m)
        &&& forall|i: int| 0 <= i < s.len() && !(#[trigger] s[i]).is_nan() ==> m.not_after(s[i])
    } else {
        m == F32::from_bits(MAX)
    }
}

/// `m` is the maximum of `s`: one of its samples, a number, which no number
/// of `s` comes after. Numbers go by value, and of the two zeros `0.0` is the
/// last, so that there is one such sample, bit for bit. Where `s` holds no
/// number, the maximum is the smallest finite value.
pub open spec fn is_upper_extreme(m: F32, s: Seq<F32>) -> bool {
    if holds_number(s) {
        &&& !m.is_nan()
        &&& s.contains(m)
        &&& forall|i: int| 0 <= i < s.len() && !(#[trigger] s[i]).is_nan() ==> s[i].not_after(m)
    } else {
        m == F32::from_bits(MIN)
    }
}

/// Some value of `lows` is `v` or comes before it.
#[verifier::opaque]
spec fn below(lows: Seq<F32>, v: F32) -> bool {
    exists|l: int| 0 <= l < lows.len() && (#[trigger] lows[l]).not_after(v)
}

/// Some value of `highs` is `v` or comes after it.
#[verifier::opaque]
spec fn above(highs: Seq<F32>, v: F32) -> bool {
    exists|l: int| 0 <= l < highs.len() && v.not_after(#[trigger] highs[l])
}

/// Every value of `vals` is a number, and is `init` or one of `s`.
spec fn drawn(vals: Seq<F32>, init: F32, s: Seq<F32>) -> bool {
    forall|l: int|
        0 <= l < vals.len() ==> !(#[trigger] vals[l]).is_nan() && (vals[l] == init || s.contains(
            vals[l],
        ))
}

/// Every number of `s` has a value of `lows` not after it and one of `highs`
/// not before it.
spec fn bounded(lows: Seq<F32>, highs: Seq<F32>, s: Seq<F32>) -> bool {
    forall|i: int|
        0 <= i < s.len() && !(#[trigger] s[i]).is_nan() ==> below(lows, s[i]) && above(highs, s[i])
}

/// `after` holds, place by place, numbers not after those of `before`.
spec fn lowered(after: Seq<F32>, before: Seq<F32>) -> bool {
    &&& after.len() == before.len()
    &&& forall|l: int| 0 <= l < after.len() ==> (#[trigger] after[l]).not_after(before[l])
}

/// `after` holds, place by place, numbers not before those of `before`.
spec fn raised(after: Seq<F32>, before: Seq<F32>) -> bool {
    &&& after.len() == before.len()
    &&& forall|l: int| 0 <= l < after.len() ==> before[l].not_after(#[trigger] after[l])
}

proof fn lemma_below_at(lows: Seq<F32>, l: int, v: F32)
    requires
        0 <= l < lows.len(),
        lows[l].not_after(v),
    ensures
        below(lows, v),
{
    reveal(below);
}

proof fn lemma_above_at(highs: Seq<F32>, l: int, v: F32)
    requires
        0 <= l < highs.len(),
        v.not_after(highs[l]),
    ensures
        above(highs, v),
{
    reveal(above);
}

proof fn lemma_below_lowered(after: Seq<F32>, before: Seq<F32>, v: F32)
    requires
        lowered(after, before),
        below(before, v),
    ensures
        below(after, v),
{
    reveal(below);
    let l = choose|l: int| 0 <= l < before.len() && (#[trigger] before[l]).not_after(v);
    assert(after[l].not_after(v));
}

proof fn lemma_above_raised(after: Seq<F32>, before: Seq<F32>, v: F32)
    requires
        raised(after, before),
        above(before, v),
    ensures
        above(after, v),
{
    reveal(above);
    let l = choose|l: int| 0 <= l < before.len() && v.not_after(#[trigger] before[l]);
    assert(v.not_after(after[l]));
}

/// A number not after any of `lows` is not after what `lows` is below of.
proof fn lemma_below_floor(lows: Seq<F32>, m: F32, v: F32)
    requires
        below(lows, v),
        forall|l: int| 0 <= l < lows.len() ==> m.not_after(#[trigger] lows[l]),
    ensures
        m.not_after(v),
{
    reveal(below);
    let l = choose|l: int| 0 <= l < lows.len() && (#[trigger] lows[l]).not_after(v);
    assert(m.not_after(lows[l]));
}

/// A number not before any of `highs` is not before what `highs` is above of.
proof fn lemma_above_ceiling(highs: Seq<F32>, m: F32, v: F32)
    requires
        above(highs, v),
        forall|l: int| 0 <= l < highs.len() ==> (#[trigger] highs[l]).not_after(m),
    ensures
        v.not_after(m),
{
    reveal(above);
    let l = choose|l: int| 0 <= l < highs.len() && v.not_after(#[trigger] highs[l]);
    assert(highs[l].not_after(m));
}

/// A value found in a sequence is found in every extension of it.
proof fn lemma_contains_grows(s: Seq<F32>, t: Seq<F32>, v: F32)
    requires
        s.contains(v),
    ensures
        (s + t).contains(v),
{
    let i = choose|i: int| 0 <= i < s.len() && s[i] == v;
    assert((s + t)[i] == v);
}

/// Values drawn from `s` are drawn from every extension of it.
proof fn lemma_drawn_grows(vals: Seq<F32>, init: F32, s: Seq<F32>, t: Seq<F32>)
    requires
        drawn(vals, init, s),
    ensures
        drawn(vals, init, s + t),
{
    assert forall|l: int| 0 <= l < vals.len() implies !(#[trigger] vals[l]).is_nan() && (vals[l]
        == init || (s + t).contains(vals[l])) by {
        if s.contains(vals[l]) {
            lemma_contains_grows(s, t, vals[l]);
        }
    }
}

/// The running values stay right when the samples `t` come in and the values
/// move to `lows1`, `highs1`: each new value is the old one or one of `t`,
/// and each of `t` that is a number has a new value on either side.
proof fn lemma_tracks_step(
    lows0: Seq<F32>,
    highs0: Seq<F32>,
    lows1: Seq<F32>,
    highs1: Seq<F32>,
    s: Seq<F32>,
    t: Seq<F32>,
)
    requires
        drawn(lows0, F32::from_bits(INFINITY), s),
        drawn(highs0, F32::from_bits(NEG_INFINITY), s),
        bounded(lows0, highs0, s),
        lowered(lows1, lows0),
        raised(highs1, highs0),
        forall|l: int|
            0 <= l < lows1.len() ==> (#[trigger] lows1[l]) == lows0[l] || t.contains(lows1[l]),
        forall|l: int|
            0 <= l < highs1.len() ==> (#[trigger] highs1[l]) == highs0[l] || t.contains(highs1[l]),
        forall|j: int|
            0 <= j < t.len() && !(#[trigger] t[j]).is_nan() ==> below(lows1, t[j]) && above(
                highs1,
                t[j],
            ),
    ensures
        drawn(lows1, F32::from_bits(INFINITY), s + t),
        drawn(highs1, F32::from_bits(NEG_INFINITY), s + t),
        bounded(lows1, highs1, s + t),
{
    let u = s + t;
    lemma_drawn_grows(lows0, F32::from_bits(INFINITY), s, t);
    lemma_drawn_grows(highs0, F32::from_bits(NEG_INFINITY), s, t);
    assert forall|l: int| 0 <= l < lows1.len() implies !(#[trigger] lows1[l]).is_nan() && (lows1[l]
        == F32::from_bits(INFINITY) || u.contains(lows1[l])) by {
        assert(lows1[l].not_after(lows0[l]));
        if lows1[l] == lows0[l] {
            assert(!lows0[l].is_nan());
        } else {
            let j = choose|j: int| 0 <= j < t.len() && t[j] == lows1[l];
            assert(u[s.len() + j] == lows1[l]);
        }
    }
    assert forall|l: int| 0 <= l < highs1.len() implies !(#[trigger] highs1[l]).is_nan() && (
    highs1[l] == F32::from_bits(NEG_INFINITY) || u.contains(highs1[l])) by {
        assert(highs0[l].not_after(highs1[l]));
        if highs1[l] == highs0[l] {
            assert(!highs0[l].is_nan());
        } else {
            let j = choose|j: int| 0 <= j < t.len() && t[j] == highs1[l];
            assert(u[s.len() + j] == highs1[l]);
        }
    }
    assert forall|i: int| 0 <= i < u.len() && !(#[trigger] u[i]).is_nan() implies below(
        lows1,
        u[i],
    ) && above(highs1, u[i]) by {
        if i < s.len() {
            assert(u[i] == s[i]);
            lemma_below_lowered(lows1, lows0, s[i]);
            lemma_above_raised(highs1, highs0, s[i]);
        } else {
            assert(u[i] == t[i - s.len()]);
        }
    }
}

/// Running minimum and maximum: one pair per lane for the full strides, and
/// one scalar pair for the tail of a row.
struct Extrema<const W: usize> {
    min_s: Vf32<W>,
    max_s: Vf32<W>,
    min: F32,
    max: F32,
}

impl<const W: usize> Extrema<W> {
    /// The running minima: the lanes, then the scalar.
    spec fn lows(self) -> Seq<F32> {
        self.min_s@.push(self.min)
    }

    /// The running maxima: the lanes, then the scalar.
    spec fn highs(self) -> Seq<F32> {
        self.max_s@.push(self.max)
    }

    /// The running values are those of the samples `s`.
    spec fn tracks(self, s: Seq<F32>) -> bool {
        &&& drawn(self.lows(), F32::from_bits(INFINITY), s)
        &&& drawn(self.highs(), F32::from_bits(NEG_INFINITY), s)
        &&& bounded(self.lows(), self.highs(), s)
    }

    /// Nothing seen yet: every running minimum is positive infinity, every
    /// running maximum negative infinity.
    fn new() -> (r: Self)
        ensures
            r.tracks(Seq::empty()),
    {
        Extrema {
            min_s: Vf32::set1(F32::from_bits(INFINITY)),
            max_s: Vf32::set1(F32::from_bits(NEG_INFINITY)),
            min: F32::from_bits(INFINITY),
            max: F32::from_bits(NEG_INFINITY),
        }
    }

    /// Takes in a full stride: every lane of `f` goes to the buffer and into
    /// the running pair of its lane.
    fn fold_full(&mut self, f: Vf32<W>, buf: &mut Vec<F32>)
        requires
            old(self).tracks(old(buf)@),
        ensures
            final(buf)@ == old(buf)@ + f@,
            final(self).tracks(final(buf)@),
    {
        let ghost before = *self;
        self.min_s = self.min_s.min(f);
        self.max_s = self.max_s.max(f);
        f.append_to(buf, W);
        proof {
            assert(f@.take(W as int) =~= f@);
            let (lows0, highs0) = (before.lows(), before.highs());
            let (lows1, highs1) = (self.lows(), self.highs());
            assert forall|l: int| 0 <= l < lows1.len() implies (#[trigger] lows1[l]).not_after(
                lows0[l],
            ) && (lows1[l] == lows0[l] || f@.contains(lows1[l])) by {
                assert(!lows0[l].is_nan());
                if l < W {
                    assert(lows1[l] == lows0[l].lowest(f@[l]));
                }
            }
            assert forall|l: int| 0 <= l < highs1.len() implies highs0[l].not_after(
                #[trigger] highs1[l],
            ) && (highs1[l] == highs0[l] || f@.contains(highs1[l])) by {
                assert(!highs0[l].is_nan());
                if l < W {
                    assert(highs1[l] == highs0[l].highest(f@[l]));
                }
            }
            assert forall|j: int| 0 <= j < f@.len() && !(#[trigger] f@[j]).is_nan() implies below(
                lows1,
                f@[j],
            ) && above(highs1, f@[j]) by {
                assert(lows1[j] == lows0[j].lowest(f@[j]));
                assert(highs1[j] == highs0[j].highest(f@[j]));
                assert(!lows0[j].is_nan() && !highs0[j].is_nan());
                lemma_below_at(lows1, j, f@[j]);
                lemma_above_at(highs1, j, f@[j]);
            }
            lemma_tracks_step(lows0, highs0, lows1, highs1, old(buf)@, f@);
        }
    }

    /// Takes in the tail of a row: the first `count` lanes of `f` go to the
    /// buffer and into the scalar running pair.
    fn fold_tail(&mut self, f: Vf32<W>, count: usize, buf: &mut Vec<F32>)
        requires
            count <= W,
            old(self).tracks(old(buf)@),
        ensures
            final(buf)@ == old(buf)@ + f@.take(count as int),
            final(self).tracks(final(buf)@),
    {
        let ghost s0 = buf@;
        let mut j: usize = 0;
        assert(s0 + f@.take(0) =~= s0);
        while j < count
            invariant
                j <= count <= W,
                buf@ == s0 + f@.take(j as int),
                self.tracks(buf@),
            decreases count - j,
        {
            let ghost before = *self;
            let ghost sj = buf@;
            let n = f.lane(j);
            buf.push(n);
            if n.precedes(self.min) {
                self.min = n;
            }
            if self.max.precedes(n) {
                self.max = n;
            }
            proof {
                let t = seq![n];
                assert(f@.take(j + 1) =~= f@.take(j as int).push(n));
                assert(buf@ =~= s0 + f@.take(j + 1));
                assert(buf@ =~= sj + t);
                assert(t[0] == n);
                let (lows0, highs0) = (before.lows(), before.highs());
                let (lows1, highs1) = (self.lows(), self.highs());
                assert forall|l: int| 0 <= l < lows1.len() implies (#[trigger] lows1[l]).not_after(
                    lows0[l],
                ) && (lows1[l] == lows0[l] || t.contains(lows1[l])) by {
                    assert(!lows0[l].is_nan());
                }
                assert forall|l: int| 0 <= l < highs1.len() implies highs0[l].not_after(
                    #[trigger] highs1[l],
                ) && (highs1[l] == highs0[l] || t.contains(highs1[l])) by {
                    assert(!highs0[l].is_nan());
                }
                assert(!lows0[W as int].is_nan() && !highs0[W as int].is_nan());
                if !n.is_nan() {
                    lemma_below_at(lows1, W as int, n);
                    lemma_above_at(highs1, W as int, n);
                }
                lemma_tracks_step(lows0, highs0, lows1, highs1, sj, t);
            }
            j += 1;
        }
    }

    /// The first of the running minima and the last of the running maxima;
    /// where no number came in, the largest and the smallest finite value.
    fn reduce(self, Ghost(s): Ghost<Seq<F32>>) -> (r: (F32, F32))
        requires
            self.tracks(s),
        ensures
            is_lower_extreme(r.0, s),
            is_upper_extreme(r.1, s),
    {
        let mut min = self.min;
        let mut max = self.max;
        let mut l: usize = 0;
        let ghost lows = self.lows();
        let ghost highs = self.highs();
        assert(min == lows[W as int] && max == highs[W as int]);
        while l < W
            invariant
                l <= W,
                lows == self.lows(),
                highs == self.highs(),
                drawn(lows, F32::from_bits(INFINITY), s),
                drawn(highs, F32::from_bits(NEG_INFINITY), s),
                !min.is_nan(),
                !max.is_nan(),
                min == F32::from_bits(INFINITY) || s.contains(min),
                max == F32::from_bits(NEG_INFINITY) || s.contains(max),
                min.not_after(lows[W as int]),
                highs[W as int].not_after(max),
                forall|k: int| 0 <= k < l ==> min.not_after(#[trigger] lows[k]),
                forall|k: int| 0 <= k < l ==> (#[trigger] highs[k]).not_after(max),
            decreases W - l,
        {
            let a = self.min_s.lane(l);
            let b = self.max_s.lane(l);
            assert(a == lows[l as int] && b == highs[l as int]);
            if a.precedes(min) {
                min = a;
            }
            if max.precedes(b) {
                max = b;
            }
            l += 1;
        }
        proof {
            assert forall|i: int| 0 <= i < s.len() && !(#[trigger] s[i]).is_nan() implies min
                .not_after(s[i]) && s[i].not_after(max) by {
                lemma_below_floor(lows, min, s[i]);
                lemma_above_ceiling(highs, max, s[i]);
            }
            if holds_number(s) {
                let i = choose|i: int| 0 <= i < s.len() && !(#[trigger] s[i]).is_nan();
                assert(min.not_after(s[i]) && s[i].not_after(max));
                if min == F32::from_bits(INFINITY) {
                    assert(s[i] == min);
                }
                if max == F32::from_bits(NEG_INFINITY) {
                    assert(s[i] == max);
                }
            } else {
                if s.contains(min) {
                    let i = choose|i: int| 0 <= i < s.len() && s[i] == min;
                    assert(!s[i].is_nan());
                }
                if s.contains(max) {
                    let i = choose|i: int| 0 <= i < s.len() && s[i] == max;
                    assert(!s[i].is_nan());
                }
            }
        }
        if min.to_bits() == INFINITY && max.to_bits() == NEG_INFINITY {
            (F32::from_bits(MAX), F32::from_bits(MIN))
        } else {
            (min, max)
        }
    }
}

/// The coordinates of the `W` columns from `col` on. A lane past the end of
/// the row repeats the last column; what is sampled there is never kept.
fn columns<const W: usize>(start: F32, col: usize, width: usize) -> (r: Vf32<W>)
    requires
        col < width,
    ensures
        forall|l: int| 0 <= l < W && col + l < width ==> r@[l] == column(start, col + l),
{
    let mut out = Vf32::<W>::set1(start);
    let mut l: usize = 0;
    while l < W
        invariant
            l <= W,
            col < width,
            forall|k: int| 0 <= k < l && col + k < width ==> out@[k] == column(start, col + k),
        decreases W - l,
    {
        let c: usize = if l < width - col {
            col + l
        } else {
            width - 1
        };
        let n: i32 = if c <= 0x7fff_ffff {
            c as i32
        } else {
            i32::MAX
        };
        out = out.with_lane(l, start.plus(F32::from_int(n)));
        l += 1;
    }
    out
}

/// Samples one row into the buffer, a vector of columns at a time: full
/// strides first, then one more vector for what is left of the row, of which
/// only the lanes inside the row are kept.
fn fill_row<const W: usize, S: Sample32>(
    settings: &S,
    dims: usize,
    yf: Vf32<W>,
    zf: Vf32<W>,
    Ghost(y): Ghost<F32>,
    Ghost(z): Ghost<F32>,
    acc: &mut Extrema<W>,
    buf: &mut Vec<F32>,
)
    requires
        W >= 1,
        1 <= dims <= 3,
        forall|l: int| 0 <= l < W ==> yf@[l] == y.times(settings.freq_y()),
        forall|l: int| 0 <= l < W ==> zf@[l] == z.times(settings.freq_z()),
        old(acc).tracks(old(buf)@),
    ensures
        final(buf)@ == old(buf)@ + row(*settings, dims as int, y, z),
        final(acc).tracks(final(buf)@),
{
    let dim = settings.get_dimensions();
    let freq_x = Vf32::<W>::set1(settings.get_freq_x());
    let width = dim.width;
    let ghost whole = row(*settings, dims as int, y, z);
    let ghost s0 = buf@;
    let mut col: usize = 0;
    assert(s0 + whole.take(0) =~= s0);
    while width - col >= W
        invariant
            W >= 1,
            1 <= dims <= 3,
            col <= width,
            width == settings.dimensions().width,
            dim == settings.dimensions(),
            whole == row(*settings, dims as int, y, z),
            forall|l: int| 0 <= l < W ==> freq_x@[l] == settings.freq_x(),
            forall|l: int| 0 <= l < W ==> yf@[l] == y.times(settings.freq_y()),
            forall|l: int| 0 <= l < W ==> zf@[l] == z.times(settings.freq_z()),
            buf@ == s0 + whole.take(col as int),
            acc.tracks(buf@),
        decreases width - col,
    {
        let x = columns::<W>(dim.x, col, width).times(freq_x);
        let f = if dims == 1 {
            settings.sample_1d(x)
        } else if dims == 2 {
            settings.sample_2d(x, yf)
        } else {
            settings.sample_3d(x, yf, zf)
        };
        acc.fold_full(f, buf);
        proof {
            assert(f@ =~= whole.subrange(col as int, col + W));
            assert(whole.take(col + W) =~= whole.take(col as int) + f@);
            assert(buf@ =~= s0 + whole.take(col + W));
        }
        col += W;
    }
    if col < width {
        let x = columns::<W>(dim.x, col, width).times(freq_x);
        let f = if dims == 1 {
            settings.sample_1d(x)
        } else if dims == 2 {
            settings.sample_2d(x, yf)
        } else {
            settings.sample_3d(x, yf, zf)
        };
        acc.fold_tail(f, width - col, buf);
        proof {
            assert(f@.take(width - col) =~= whole.subrange(col as int, width as int));
            assert(whole =~= whole.take(col as int) + f@.take(width - col));
        }
    } else {
        assert(whole.take(col as int) =~= whole);
    }
}

/// The block of one-dimensional noise that `settings` describe, sampled `W`
/// columns at a time, with its minimum and its maximum.
pub fn get_1d_noise_helper_f32<const W: usize, S: Sample32>(
    settings: S,
) -> (r: (Vec<F32>, F32, F32))
    requires
        W >= 1,
    ensures
        r.0@ == block_1d(settings),
        is_lower_extreme(r.1, r.0@),
        is_upper_extreme(r.2, r.0@),
{
    let dim = settings.get_dimensions();
    let yf = Vf32::<W>::set1(dim.y.times(settings.get_freq_y()));
    let zf = Vf32::<W>::set1(dim.z.times(settings.get_freq_z()));
    let mut result: Vec<F32> = Vec::new();
    let mut acc = Extrema::<W>::new();
    assert(result@ =~= Seq::<F32>::empty());
    fill_row(&settings, 1, yf, zf, Ghost(dim.y), Ghost(dim.z), &mut acc, &mut result);
    assert(result@ =~= block_1d(settings));
    let (min, max) = acc.reduce(Ghost(result@));
    (result, min, max)
}

/// The block of two-dimensional noise that `settings` describe, sampled `W`
/// columns at a time, with its minimum and its maximum.
pub fn get_2d_noise_helper_f32<const W: usize, S: Sample32>(
    settings: S,
) -> (r: (Vec<F32>, F32, F32))
    requires
        W >= 1,
    ensures
        r.0@ == block_2d(settings),
        is_lower_extreme(r.1, r.0@),
        is_upper_extreme(r.2, r.0@),
{
    let dim = settings.get_dimensions();
    let freq_y = Vf32::<W>::set1(settings.get_freq_y());
    let zf = Vf32::<W>::set1(dim.z.times(settings.get_freq_z()));
    let one = Vf32::<W>::set1(F32::from_bits(ONE));
    let mut result: Vec<F32> = Vec::new();
    let mut acc = Extrema::<W>::new();
    let mut y = Vf32::<W>::set1(dim.y);
    let mut j: usize = 0;
    assert(result@ =~= rows(settings, 2, dim.z, 0));
    while j < dim.height
        invariant
            W >= 1,
            j <= dim.height,
            dim == settings.dimensions(),
            forall|l: int| 0 <= l < W ==> freq_y@[l] == settings.freq_y(),
            forall|l: int| 0 <= l < W ==> zf@[l] == dim.z.times(settings.freq_z()),
            forall|l: int| 0 <= l < W ==> one@[l] == F32::from_bits(ONE),
            forall|l: int| 0 <= l < W ==> y@[l] == stepped(dim.y, j as nat),
            result@ == rows(settings, 2, dim.z, j as nat),
            acc.tracks(result@),
        decreases dim.height - j,
    {
        let yf = y.times(freq_y);
        fill_row(
            &settings,
            2,
            yf,
            zf,
            Ghost(stepped(dim.y, j as nat)),
            Ghost(dim.z),
            &mut acc,
            &mut result,
        );
        y = y.plus(one);
        j += 1;
    }
    let (min, max) = acc.reduce(Ghost(result@));
    (result, min, max)
}

/// The block of three-dimensional noise that `settings` describe, sampled `W`
/// columns at a time, with its minimum and its maximum.
pub fn get_3d_noise_helper_f32<const W: usize, S: Sample32>(
    settings: S,
) -> (r: (Vec<F32>, F32, F32))
    requires
        W >= 1,
    ensures
        r.0@ == block_3d(settings),
        is_lower_extreme(r.1, r.0@),
        is_upper_extreme(r.2, r.0@),
{
    let dim = settings.get_dimensions();
    let freq_y = Vf32::<W>::set1(settings.get_freq_y());
    let freq_z = Vf32::<W>::set1(settings.get_freq_z());
    let one = Vf32::<W>::set1(F32::from_bits(ONE));
    let mut result: Vec<F32> = Vec::new();
    let mut acc = Extrema::<W>::new();
    let mut z = Vf32::<W>::set1(dim.z);
    let mut k: usize = 0;
    assert(result@ =~= planes(settings, 0));
    while k < dim.depth
        invariant
            W >= 1,
            k <= dim.depth,
            dim == settings.dimensions(),
            forall|l: int| 0 <= l < W ==> freq_y@[l] == settings.freq_y(),
            forall|l: int| 0 <= l < W ==> freq_z@[l] == settings.freq_z(),
            forall|l: int| 0 <= l < W ==> one@[l] == F32::from_bits(ONE),
            forall|l: int| 0 <= l < W ==> z@[l] == stepped(dim.z, k as nat),
            result@ == planes(settings, k as nat),
            acc.tracks(result@),
        decreases dim.depth - k,
    {
        let ghost base = result@;
        let ghost zk = stepped(dim.z, k as nat);
        let zf = z.times(freq_z);
        let mut y = Vf32::<W>::set1(dim.y);
        let mut j: usize = 0;
        assert(result@ =~= base + rows(settings, 3, zk, 0));
        while j < dim.height
            invariant
                W >= 1,
                j <= dim.height,
                dim == settings.dimensions(),
                    zk == stepped(dim.z, k as nat),
                forall|l: int| 0 <= l < W ==> freq_y@[l] == settings.freq_y(),
                forall|l: int| 0 <= l < W ==> zf@[l] == zk.times(settings.freq_z()),
                forall|l: int| 0 <= l < W ==> one@[l] == F32::from_bits(ONE),
                forall|l: int| 0 <= l < W ==> y@[l] == stepped(dim.y, j as nat),
                result@ == base + rows(settings, 3, zk, j as nat),
                acc.tracks(result@),
            decreases dim.height - j,
        {
            let ghost before = result@;
            let yf = y.times(freq_y);
            fill_row(
                &settings,
                3,
                yf,
                zf,
                Ghost(stepped(dim.y, j as nat)),
                Ghost(zk),
                &mut acc,
                &mut result,
            );
            proof {
                let r = row(settings, 3, stepped(dim.y, j as nat), zk);
                assert(result@ == before + r);
                assert(base + rows(settings, 3, zk, j as nat) + r =~= base + (rows(
                    settings,
                    3,
                    zk,
                    j as nat,
                ) + r));
            }
            y = y.plus(one);
            j += 1;
        }
        z = z.plus(one);
        k += 1;
    }
    let (min, max) = acc.reduce(Ghost(result@));
    (result, min, max)
}

/// `a` and `b` give the same noise over the same box.
pub open spec fn same_noise<S: Sample32>(a: S, b: S) -> bool {
    &&& a.dimensions().x == b.dimensions().x
    &&& a.dimensions().y == b.dimensions().y
    &&& a.dimensions().z == b.dimensions().z
    &&& a.dimensions().width == b.dimensions().width
    &&& a.dimensions().height == b.dimensions().height
    &&& a.dimensions().depth == b.dimensions().depth
    &&& a.freq_x() == b.freq_x()
    &&& a.freq_y() == b.freq_y()
    &&& a.freq_z() == b.freq_z()
    &&& forall|x: F32| #[trigger] a.noise_1d(x) == b.noise_1d(x)
    &&& forall|x: F32, y: F32| #[trigger] a.noise_2d(x, y) == b.noise_2d(x, y)
    &&& forall|x: F32, y: F32, z: F32| #[trigger] a.noise_3d(x, y, z) == b.noise_3d(x, y, z)
}

proof fn lemma_same_rows<S: Sample32>(a: S, b: S, dims: int, z: F32, n: nat)
    requires
        same_noise(a, b),
    ensures
        rows(a, dims, z, n) == rows(b, dims, z, n),
    decreases n,
{
    if n > 0 {
        lemma_same_rows(a, b, dims, z, (n - 1) as nat);
        let y = stepped(a.dimensions().y, (n - 1) as nat);
        assert(row(a, dims, y, z) =~= row(b, dims, y, z));
    }
}

proof fn lemma_same_planes<S: Sample32>(a: S, b: S, n: nat)
    requires
        same_noise(a, b),
    ensures
        planes(a, n) == planes(b, n),
    decreases n,
{
    if n > 0 {
        lemma_same_planes(a, b, (n - 1) as nat);
        lemma_same_rows(
            a,
            b,
            3,
            stepped(a.dimensions().z, (n - 1) as nat),
            a.dimensions().height as nat,
        );
    }
}

/// Settings that give the same noise over the same box describe the same
/// blocks.
pub proof fn lemma_same_blocks<S: Sample32>(a: S, b: S)
    requires
        same_noise(a, b),
    ensures
        block_1d(a) == block_1d(b),
        block_2d(a) == block_2d(b),
        block_3d(a) == block_3d(b),
{
    assert(block_1d(a) =~= block_1d(b));
    lemma_same_rows(a, b, 2, a.dimensions().z, a.dimensions().height as nat);
    lemma_same_planes(a, b, a.dimensions().depth as nat);
}

/// A shorter line is the start of a longer one: where `a` and `b` give the
/// same noise from the same origin at the same frequency and `a` is no wider
/// than `b`, the one-dimensional block of `a` is that of `b` cut to the width
/// of `a`.
pub proof fn lemma_line_is_prefix<S: Sample32>(a: S, b: S)
    requires
        a.dimensions().x == b.dimensions().x,
        a.freq_x() == b.freq_x(),
        forall|x: F32| #[trigger] a.noise_1d(x) == b.noise_1d(x),
        a.dimensions().width <= b.dimensions().width,
    ensures
        block_1d(a) == block_1d(b).take(a.dimensions().width as int),
{
    assert(block_1d(a) =~= block_1d(b).take(a.dimensions().width as int));
}

/// A block of one-dimensional noise of either kind, sampled `W` columns at a
/// time, with the smallest and the largest sample in it.
pub fn get_1d_noise<const W: usize>(noise_type: &NoiseType) -> (r: (Vec<F32>, F32, F32))
    requires
        W >= 1,
    ensures
        r.0@ == noise_type.samples_1d(),
        is_lower_extreme(r.1, r.0@),
        is_upper_extreme(r.2, r.0@),
{
    match noise_type {
        NoiseType::Fbm(s) => get_1d_noise_helper_f32::<W, FbmSettings>(*s),
        NoiseType::Gradient(s) => get_1d_noise_helper_f32::<W, GradientSettings>(*s),
    }
}

/// A block of two-dimensional noise of either kind, sampled `W` columns at a
/// time, with the smallest and the largest sample in it.
pub fn get_2d_noise<const W: usize>(noise_type: &NoiseType) -> (r: (Vec<F32>, F32, F32))
    requires
        W >= 1,
    ensures
        r.0@ == noise_type.samples_2d(),
        is_lower_extreme(r.1, r.0@),
        is_upper_extreme(r.2, r.0@),
{
    match noise_type {
        NoiseType::Fbm(s) => get_2d_noise_helper_f32::<W, FbmSettings>(*s),
        NoiseType::Gradient(s) => get_2d_noise_helper_f32::<W, GradientSettings>(*s),
    }
}

/// A block of three-dimensional noise of either kind, sampled `W` columns at
/// a time, with the smallest and the largest sample in it.
pub fn get_3d_noise<const W: usize>(noise_type: &NoiseType) -> (r: (Vec<F32>, F32, F32))
    requires
        W >= 1,
    ensures
        r.0@ == noise_type.samples_3d(),
        is_lower_extreme(r.1, r.0@),
        is_upper_extreme(r.2, r.0@),
{
    match noise_type {
        NoiseType::Fbm(s) => get_3d_noise_helper_f32::<W, FbmSettings>(*s),
        NoiseType::Gradient(s) => get_3d_noise_helper_f32::<W, GradientSettings>(*s),
    }
}

/// `m` is the smallest number of `s`: one of its values, not above any.
pub open spec fn is_minimum(m: F32, s: Seq<F32>) -> bool {
    &&& s.contains(m)
    &&& forall|i: int| 0 <= i < s.len() ==> m.spec_le(#[trigger] s[i])
}

/// `m` is the largest number of `s`: one of its values, not below any.
pub open spec fn is_maximum(m: F32, s: Seq<F32>) -> bool {
    &&& s.contains(m)
    &&& forall|i: int| 0 <= i < s.len() ==> (#[trigger] s[i]).spec_le(m)
}

/// Every value of `s` is a number.
pub open spec fn all_numbers(s: Seq<F32>) -> bool {
    forall|i: int| 0 <= i < s.len() ==> !(#[trigger] s[i]).is_nan()
}

/// The extremes that come with a block are the true ones: where the block
/// has a sample and none of its samples is a NaN, the minimum is the
/// smallest of them as numbers compare, and the maximum the largest.
pub proof fn lemma_extremes_are_true(s: Seq<F32>, min: F32, max: F32)
    requires
        s.len() > 0,
        all_numbers(s),
        is_lower_extreme(min, s),
        is_upper_extreme(max, s),
    ensures
        is_minimum(min, s),
        is_maximum(max, s),
{
    assert(!s[0].is_nan());
    assert(holds_number(s));
    assert forall|i: int| 0 <= i < s.len() implies min.spec_le(#[trigger] s[i]) && s[i].spec_le(
        max,
    ) by {
        assert(!s[i].is_nan());
        assert(min.not_after(s[i]) && s[i].not_after(max));
    }
}

/// A block has one minimum and one maximum: two values that are each the
/// minimum of `s` are the same, bit for bit, and so for the maximum.
pub proof fn lemma_extremes_are_unique(s: Seq<F32>, min1: F32, max1: F32, min2: F32, max2: F32)
    requires
        is_lower_extreme(min1, s),
        is_upper_extreme(max1, s),
        is_lower_extreme(min2, s),
        is_upper_extreme(max2, s),
    ensures
        min1 == min2,
        max1 == max2,
{
    if holds_number(s) {
        let i = choose|i: int| 0 <= i < s.len() && s[i] == min1;
        let j = choose|j: int| 0 <= j < s.len() && s[j] == min2;
        assert(min2.not_after(s[i]) && min1.not_after(s[j]));
        assert(min1.bits == min2.bits);
        let k = choose|k: int| 0 <= k < s.len() && s[k] == max1;
        let l = choose|l: int| 0 <= l < s.len() && s[l] == max2;
        assert(s[k].not_after(max2) && s[l].not_after(max1));
        assert(max1.bits == max2.bits);
    }
}

/// Blocks do not depend on the engine, nor on the call: whatever the widths
/// at which two blocks were sampled for the same settings, they hold the same
/// samples and come with the same extremes, bit for bit.
pub proof fn lemma_results_agree(
    s: Seq<F32>,
    a: (Seq<F32>, F32, F32),
    b: (Seq<F32>, F32, F32),
)
    requires
        a.0 == s,
        is_lower_extreme(a.1, a.0),
        is_upper_extreme(a.2, a.0),
        b.0 == s,
        is_lower_extreme(b.1, b.0),
        is_upper_extreme(b.2, b.0),
    ensures
        a == b,
{
    lemma_extremes_are_unique(s, a.1, a.2, b.1, b.2);
}

/// So many rows hold so many times the width in samples.
pub proof fn lemma_rows_len<S: Sample32>(s: S, dims: int, z: F32, n: nat)
    ensures
        rows(s, dims, z, n).len() == n * s.dimensions().width,
    decreases n,
{
    let w = s.dimensions().width as int;
    if n > 0 {
        lemma_rows_len(s, dims, z, (n - 1) as nat);
        assert((n - 1) * w + w == n * w) by (nonlinear_arith);
    } else {
        assert(0 * w == 0) by (nonlinear_arith);
    }
}

/// Rows lie one after the other: the sample of column `x` in row `y` stands
/// at `y * width + x`.
pub proof fn lemma_rows_index<S: Sample32>(s: S, dims: int, z: F32, n: nat, x: int, y: int)
    requires
        0 <= x < s.dimensions().width,
        0 <= y < n,
    ensures
        0 <= y * s.dimensions().width + x < rows(s, dims, z, n).len(),
        rows(s, dims, z, n)[y * s.dimensions().width + x] == sample_at(
            s,
            dims,
            column(s.dimensions().x, x),
            stepped(s.dimensions().y, y as nat),
            z,
        ),
    decreases n,
{
    let w = s.dimensions().width as int;
    lemma_rows_len(s, dims, z, n);
    lemma_rows_len(s, dims, z, (n - 1) as nat);
    assert(0 <= y * w + x < n * w) by (nonlinear_arith)
        requires
            0 <= x < w,
            0 <= y < n,
    ;
    if y < n - 1 {
        lemma_rows_index(s, dims, z, (n - 1) as nat, x, y);
    } else {
        assert(y * w + x - (n - 1) * w == x) by (nonlinear_arith)
            requires
                y == n - 1,
        ;
    }
}

/// So many planes hold so many times the height times the width in samples.
pub proof fn lemma_planes_len<S: Sample32>(s: S, n: nat)
    ensures
        planes(s, n).len() == n * (s.dimensions().height * s.dimensions().width),
    decreases n,
{
    let hw = s.dimensions().height * s.dimensions().width;
    if n > 0 {
        lemma_planes_len(s, (n - 1) as nat);
        lemma_rows_len(
            s,
            3,
            stepped(s.dimensions().z, (n - 1) as nat),
            s.dimensions().height as nat,
        );
        assert((n - 1) * hw + hw == n * hw) by (nonlinear_arith);
    } else {
        assert(0 * hw == 0) by (nonlinear_arith);
    }
}

/// Planes lie one after the other: the sample of column `x` in row `y` of
/// plane `z` stands at `(z * height + y) * width + x`.
pub proof fn lemma_planes_index<S: Sample32>(s: S, n: nat, x: int, y: int, z: int)
    requires
        0 <= x < s.dimensions().width,
        0 <= y < s.dimensions().height,
        0 <= z < n,
    ensures
        0 <= (z * s.dimensions().height + y) * s.dimensions().width + x < planes(s, n).len(),
        planes(s, n)[(z * s.dimensions().height + y) * s.dimensions().width + x] == sample_at(
            s,
            3,
            column(s.dimensions().x, x),
            stepped(s.dimensions().y, y as nat),
            stepped(s.dimensions().z, z as nat),
        ),
    decreases n,
{
    let w = s.dimensions().width as int;
    let h = s.dimensions().height as int;
    let last = stepped(s.dimensions().z, (n - 1) as nat);
    lemma_planes_len(s, n);
    lemma_planes_len(s, (n - 1) as nat);
    lemma_rows_len(s, 3, last, h as nat);
    lemma_rows_index(s, 3, last, h as nat, x, y);
    assert((z * h + y) * w + x == z * (h * w) + (y * w + x)) by (nonlinear_arith);
    assert(0 <= y * w + x < h * w) by (nonlinear_arith)
        requires
            0 <= x < w,
            0 <= y < h,
    ;
    assert(z * (h * w) + (h * w) <= n * (h * w)) by (nonlinear_arith)
        requires
            0 <= z < n,
            0 <= h * w,
    ;
    assert(0 <= z * (h * w)) by (nonlinear_arith)
        requires
            0 <= z,
            0 <= h * w,
    ;
    if z < n - 1 {
        lemma_planes_index(s, (n - 1) as nat, x, y, z);
    } else {
        assert(z * (h * w) == (n - 1) * (h * w));
    }
}

/// The layout of a block is row-major, with x running fastest: a block has
/// width times height times depth samples, and the sample of column `x`, row
/// `y` and plane `z` stands at `(z * height + y) * width + x`. A block of
/// two dimensions is a single plane, and one of one dimension a single row.
pub proof fn lemma_row_major<S: Sample32>(s: S, x: int, y: int, z: int)
    requires
        0 <= x < s.dimensions().width,
        0 <= y < s.dimensions().height,
        0 <= z < s.dimensions().depth,
    ensures
        block_1d(s).len() == s.dimensions().width,
        block_2d(s).len() == s.dimensions().height * s.dimensions().width,
        block_3d(s).len() == s.dimensions().depth * (s.dimensions().height * s.dimensions().width),
        block_1d(s)[x] == sample_at(
            s,
            1,
            column(s.dimensions().x, x),
            s.dimensions().y,
            s.dimensions().z,
        ),
        block_2d(s)[y * s.dimensions().width + x] == sample_at(
            s,
            2,
            column(s.dimensions().x, x),
            stepped(s.dimensions().y, y as nat),
            s.dimensions().z,
        ),
        block_3d(s)[(z * s.dimensions().height + y) * s.dimensions().width + x] == sample_at(
            s,
            3,
            column(s.dimensions().x, x),
            stepped(s.dimensions().y, y as nat),
            stepped(s.dimensions().z, z as nat),
        ),
{
    let dim = s.dimensions();
    lemma_rows_len(s, 2, dim.z, dim.height as nat);
    lemma_rows_index(s, 2, dim.z, dim.height as nat, x, y);
    lemma_planes_len(s, dim.depth as nat);
    lemma_planes_index(s, dim.depth as nat, x, y, z);
}

} // verus!
