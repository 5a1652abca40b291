//! Sampling of one axis of the grid.
//!
//! An axis is described by a resolution (how many subdivisions are
//! requested) and by a classification of its range. The sampler turns that
//! description into a sequence of symbolic sample positions, applying the
//! symmetry and duplicate-removal rules:
//!
//! - a degenerate axis (resolution at most 1, or a zero range) collapses
//!   to a single sample at offset zero;
//! - an active axis is divided into `resolution` equal steps, which have
//!   `resolution + 1` boundary offsets;
//! - a full-circle longitude drops the last boundary (it duplicates the
//!   first meridian);
//! - a full-span latitude drops both poles (they are singular points).

use vstd::prelude::*;

verus! {

/// Which angular axis is being sampled. The two axes share the subdivision
/// rule but differ in which duplicate samples a full range removes.
#[derive(Clone, Copy, Debug, PartialEq, Eq, Structural)]
pub enum AxisKind {
    Longitude,
    Latitude,
}

/// Classification of an axis's range after clamping it into its domain
/// (a full turn for longitude, a half turn for latitude).
///
/// - `Zero`: the range is exactly zero; the axis is degenerate.
/// - `Partial`: the clamped range covers part of the domain.
/// - `Full`: the clamped range equals the whole domain (within the fixed
///   tolerance), so the duplicate-removal rule of the axis applies.
#[derive(Clone, Copy, Debug, PartialEq, Eq, Structural)]
pub enum RangeClass {
    Zero,
    Partial,
    Full,
}

/// One symbolic sample position on an axis.
///
/// `Step(i)` is the `i`-th boundary offset of an active axis, at
/// `step * i - range / 2` where `step = range / resolution`. `Center` is
/// the single offset `0` of a degenerate axis.
#[derive(Clone, Copy, Debug, PartialEq, Eq, Structural)]
pub enum AxisSample {
    Center,
    Step(u32),
}

/// A degenerate axis collapses to the single sample `Center`.
pub open spec fn degenerate(resolution: u32, class: RangeClass) -> bool {
    resolution <= 1 || class == RangeClass::Zero
}

/// The samples an axis produces, in ascending order of offset.
pub open spec fn axis_sample_seq(kind: AxisKind, resolution: u32, class: RangeClass) -> Seq<
    AxisSample,
> {
    if degenerate(resolution, class) {
        seq![AxisSample::Center]
    } else if class == RangeClass::Full {
        match kind {
            AxisKind::Longitude => Seq::new(
                resolution as nat,
                |j: int| AxisSample::Step(j as u32),
            ),
            AxisKind::Latitude => Seq::new(
                (resolution - 1) as nat,
                |j: int| AxisSample::Step((j + 1) as u32),
            ),
        }
    } else {
        Seq::new((resolution + 1) as nat, |j: int| AxisSample::Step(j as u32))
    }
}

/// Every axis yields at least one sample: a genuinely empty axis is
/// treated as degenerate, never as absent.
pub proof fn lemma_axis_samples_nonempty(kind: AxisKind, resolution: u32, class: RangeClass)
    ensures
        axis_sample_seq(kind, resolution, class).len() >= 1,
{
}

/// Materialize the samples of one axis.
pub fn axis_samples(kind: AxisKind, resolution: u32, class: RangeClass) -> (samples: Vec<
    AxisSample,
>)
    ensures
        samples@ == axis_sample_seq(kind, resolution, class),
{
    let mut samples: Vec<AxisSample> = Vec::new();
    let is_zero = match class {
        RangeClass::Zero => true,
        _ => false,
    };
    if resolution <= 1 || is_zero {
        samples.push(AxisSample::Center);
        proof {
            assert(samples@ =~= axis_sample_seq(kind, resolution, class));
        }
        return samples;
    }
    let is_full = match class {
        RangeClass::Full => true,
        _ => false,
    };
    let first: u64 = if is_full {
        match kind {
            AxisKind::Longitude => 0,
            AxisKind::Latitude => 1,
        }
    } else {
        0
    };
    let last: u64 = if is_full {
        resolution as u64 - 1
    } else {
        resolution as u64
    };
    let mut j: u64 = first;
    while j <= last
        invariant
            first <= 1,
            first <= j <= last + 1,
            last <= u32::MAX as u64,
            samples@.len() == j - first,
            forall|k: int|
                0 <= k < samples@.len() ==> samples@[k] == AxisSample::Step(
                    (first + k) as u32,
                ),
        decreases last + 1 - j,
    {
        samples.push(AxisSample::Step(j as u32));
        j = j + 1;
    }
    proof {
        assert(samples@ =~= axis_sample_seq(kind, resolution, class));
    }
    samples
}

/// The number of samples an axis produces, without materializing them.
pub fn axis_sample_count(kind: AxisKind, resolution: u32, class: RangeClass) -> (n: u64)
    ensures
        n == axis_sample_seq(kind, resolution, class).len(),
{
    let is_zero = match class {
        RangeClass::Zero => true,
        _ => false,
    };
    if resolution <= 1 || is_zero {
        return 1;
    }
    let is_full = match class {
        RangeClass::Full => true,
        _ => false,
    };
    if is_full {
        match kind {
            AxisKind::Longitude => resolution as u64,
            AxisKind::Latitude => (resolution - 1) as u64,
        }
    } else {
        resolution as u64 + 1
    }
}

/// The samples of an axis come in strictly ascending subdivision order.
pub proof fn lemma_axis_samples_ascending(kind: AxisKind, resolution: u32, class: RangeClass)
    ensures
        forall|i: int, j: int|
            0 <= i < j < axis_sample_seq(kind, resolution, class).len() ==> {
                &&& (#[trigger] axis_sample_seq(kind, resolution, class)[i])
                    matches AxisSample::Step(a)
                &&& (#[trigger] axis_sample_seq(kind, resolution, class)[j])
                    matches AxisSample::Step(b)
                &&& a < b
            },
{
}

/// Full-circle duplicate removal: a full-turn longitude axis with an
/// active resolution yields exactly `resolution` samples, not
/// `resolution + 1`, and they are pairwise distinct. (A resolution of 1
/// is degenerate and yields its single sample.)
pub proof fn lemma_full_circle_dedup(resolution: u32)
    requires
        resolution >= 1,
    ensures
        axis_sample_seq(AxisKind::Longitude, resolution, RangeClass::Full).len() == resolution,
        forall|i: int, j: int|
            0 <= i < j < resolution
                ==> axis_sample_seq(AxisKind::Longitude, resolution, RangeClass::Full)[i]
                != axis_sample_seq(AxisKind::Longitude, resolution, RangeClass::Full)[j],
{
}

/// Full-span duplicate removal: a half-turn latitude axis yields exactly
/// `resolution - 1` samples (the poles are excluded) when the resolution
/// is at least 2, and is floored to the single degenerate sample
/// otherwise.
pub proof fn lemma_full_span_dedup(resolution: u32)
    ensures
        resolution >= 2 ==> axis_sample_seq(AxisKind::Latitude, resolution, RangeClass::Full).len()
            == resolution - 1,
        resolution < 2 ==> axis_sample_seq(AxisKind::Latitude, resolution, RangeClass::Full)
            =~= seq![AxisSample::Center],
{
}

} // verus!
