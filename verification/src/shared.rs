//! The scaling pass: a block of raw samples brought into a target range.
use crate::binary32::F32;
use crate::noise_type::NoiseType;
use crate::vector_32::Vf32;
use vstd::prelude::*;

verus! {

/// Factor by which a sample is multiplied to bring `[min, max]` onto
/// `[scale_min, scale_max]`.
pub open spec fn scale_multiplier(scale_min: F32, scale_max: F32, min: F32, max: F32) -> F32 {
    scale_max.minus(scale_min).over(max.minus(min))
}

/// What is added to a multiplied sample so that `min` lands on `scale_min`.
pub open spec fn scale_offset(scale_min: F32, scale_max: F32, min: F32, max: F32) -> F32 {
    scale_min.minus(min.times(scale_multiplier(scale_min, scale_max, min, max)))
}

/// The sample `v` of a block with the extremes `min` and `max`, brought into
/// the range from `scale_min` to `scale_max`.
///
/// A block whose extremes are equal has no width to stretch: each of its
/// samples goes to `scale_min`.
pub open spec fn scaled(v: F32, scale_min: F32, scale_max: F32, min: F32, max: F32) -> F32 {
    if max.same_value(min) {
        scale_min
    } else {
        v.times(scale_multiplier(scale_min, scale_max, min, max)).plus(
            scale_offset(scale_min, scale_max, min, max),
        )
    }
}

/// Every sample of `s` scaled; see [`scaled`].
pub open spec fn scaled_block(
    s: Seq<F32>,
    scale_min: F32,
    scale_max: F32,
    min: F32,
    max: F32,
) -> Seq<F32> {
    Seq::new(s.len(), |i: int| scaled(s[i], scale_min, scale_max, min, max))
}

/// Brings the samples of `data`, whose extremes are `min` and `max`, into
/// the range from `scale_min` to `scale_max`, in strides of `W` samples and a
/// tail of single ones.
pub fn scale_noise<const W: usize>(
    scale_min: F32,
    scale_max: F32,
    min: F32,
    max: F32,
    data: &mut Vec<F32>,
)
    requires
        W >= 1,
    ensures
        final(data)@ == scaled_block(old(data)@, scale_min, scale_max, min, max),
{
    let len = data.len();
    let ghost whole = scaled_block(old(data)@, scale_min, scale_max, min, max);
    if max.same_value(min) {
        let mut i: usize = 0;
        while i < len
            invariant
                i <= len,
                len == data.len(),
                len == old(data).len(),
                max.same_value(min),
                forall|k: int| 0 <= k < i ==> data@[k] == scale_min,
            decreases len - i,
        {
            data.set(i, scale_min);
            i += 1;
        }
        assert(data@ =~= whole);
        return ;
    }
    let multiplier = scale_max.minus(scale_min).over(max.minus(min));
    let offset = scale_min.minus(min.times(multiplier));
    let multipliers = Vf32::<W>::set1(multiplier);
    let offsets = Vf32::<W>::set1(offset);
    let mut i: usize = 0;
    while len - i >= W
        invariant
            W >= 1,
            i <= len,
            len == data.len(),
            len == old(data).len(),
            forall|l: int| 0 <= l < W ==> multipliers@[l] == multiplier,
            forall|l: int| 0 <= l < W ==> offsets@[l] == offset,
            forall|k: int| 0 <= k < i ==> data@[k] == multiplier_applied(
                old(data)@[k],
                multiplier,
                offset,
            ),
            forall|k: int| i <= k < len ==> data@[k] == old(data)@[k],
        decreases len - i,
    {
        let value = Vf32::<W>::load(data, i).times(multipliers).plus(offsets);
        value.store(data, i);
        i += W;
    }
    while i < len
        invariant
            i <= len,
            len == data.len(),
            len == old(data).len(),
            forall|k: int| 0 <= k < i ==> data@[k] == multiplier_applied(
                old(data)@[k],
                multiplier,
                offset,
            ),
            forall|k: int| i <= k < len ==> data@[k] == old(data)@[k],
        decreases len - i,
    {
        let v = data[i];
        data.set(i, v.times(multiplier).plus(offset));
        i += 1;
    }
    assert(data@ =~= whole);
}

/// A block without width collapses: where the extremes are the same number,
/// every sample of the scaled block is `scale_min`, whatever the samples
/// were.
pub proof fn lemma_flat_block_collapses(
    s: Seq<F32>,
    scale_min: F32,
    scale_max: F32,
    min: F32,
    max: F32,
)
    requires
        max.same_value(min),
    ensures
        scaled_block(s, scale_min, scale_max, min, max) == Seq::new(s.len(), |i: int| scale_min),
{
    assert(scaled_block(s, scale_min, scale_max, min, max) =~= Seq::new(
        s.len(),
        |i: int| scale_min,
    ));
}

/// A sample multiplied and moved.
pub open spec fn multiplier_applied(v: F32, multiplier: F32, offset: F32) -> F32 {
    v.times(multiplier).plus(offset)
}

/// The block `noise`, which came with its extremes, brought into the range
/// that the settings in `noise_type` ask for.
pub fn get_scaled_noise<const W: usize>(
    noise_type: &NoiseType,
    noise: (Vec<F32>, F32, F32),
) -> (r: Vec<F32>)
    requires
        W >= 1,
    ensures
        r@ == scaled_block(
            noise.0@,
            noise_type.dimensions().min,
            noise_type.dimensions().max,
            noise.1,
            noise.2,
        ),
{
    let (mut data, min, max) = noise;
    let dim = noise_type.get_dimensions();
    scale_noise::<W>(dim.min, dim.max, min, max, &mut data);
    data
}

} // verus!
