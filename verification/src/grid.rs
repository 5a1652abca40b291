//! Composition of the per-axis samples into a full grid.
//!
//! A grid configuration names a radial resolution and, for each angular
//! axis, a resolution and a range classification. The composer offers two
//! operations that must always agree: counting the points a configuration
//! produces, and generating those points. The generated sequence starts
//! with the single shared origin point and then walks the cross product of
//! the axis samples with the radius outermost, the latitude in the middle
//! and the longitude innermost, each axis in ascending sample order.

use vstd::arithmetic::div_mod::lemma_fundamental_div_mod_converse;
use vstd::pervasive::VecAdditionalExecFns;
use vstd::prelude::*;

use crate::axis::{axis_sample_count, axis_sample_seq, axis_samples, AxisKind, AxisSample,
    RangeClass};

verus! {

/// One point of a generated grid.
///
/// `Origin` is the shared point at radius zero. A `Sample` records which
/// radial step the point lies on (`radius_step` counts from 1) and which
/// sample of each angular axis it combines; the spherical offsets and the
/// Cartesian triple follow from those by a fixed per-point formula.
#[derive(Clone, Copy, Debug, PartialEq, Eq, Structural)]
pub enum GridPoint {
    Origin,
    Sample { radius_step: u32, latitude: AxisSample, longitude: AxisSample },
}

/// The latitude samples of a configuration.
pub open spec fn latitude_seq(latitude_class: RangeClass, latitude_resolution: u32) -> Seq<
    AxisSample,
> {
    axis_sample_seq(AxisKind::Latitude, latitude_resolution, latitude_class)
}

/// The longitude samples of a configuration.
pub open spec fn longitude_seq(longitude_class: RangeClass, longitude_resolution: u32) -> Seq<
    AxisSample,
> {
    axis_sample_seq(AxisKind::Longitude, longitude_resolution, longitude_class)
}

/// The exact number of points a configuration produces: one shared origin
/// point, plus one point for every combination of a radial step with a
/// latitude and a longitude sample. With a radial resolution of 0 the
/// product vanishes and the whole grid collapses to the origin alone.
pub open spec fn grid_count(
    radius_resolution: u32,
    longitude_class: RangeClass,
    longitude_resolution: u32,
    latitude_class: RangeClass,
    latitude_resolution: u32,
) -> nat {
    (1 + (radius_resolution as int) * ((latitude_seq(latitude_class, latitude_resolution).len()
        as int) * (longitude_seq(longitude_class, longitude_resolution).len() as int))) as nat
}

/// The grid point at position `k` of the cross-product part of the grid,
/// for the given latitude and longitude samples. Positions advance with
/// the longitude innermost, then the latitude, then the radius.
pub open spec fn grid_point_at(k: int, lats: Seq<AxisSample>, lons: Seq<AxisSample>) -> GridPoint {
    let g = lons.len() as int;
    let lg = (lats.len() as int) * g;
    GridPoint::Sample {
        radius_step: (k / lg + 1) as u32,
        latitude: lats[(k % lg) / g],
        longitude: lons[(k % lg) % g],
    }
}

/// The full sequence of points a configuration generates: the origin
/// first, then the cross product of the axis samples in nesting order.
pub open spec fn grid_seq(
    radius_resolution: u32,
    longitude_class: RangeClass,
    longitude_resolution: u32,
    latitude_class: RangeClass,
    latitude_resolution: u32,
) -> Seq<GridPoint> {
    let lats = latitude_seq(latitude_class, latitude_resolution);
    let lons = longitude_seq(longitude_class, longitude_resolution);
    seq![GridPoint::Origin] + Seq::new(
        ((radius_resolution as int) * ((lats.len() as int) * (lons.len() as int))) as nat,
        |k: int| grid_point_at(k, lats, lons),
    )
}

/// Count/generate duality: the number of points a configuration counts is
/// exactly the length of the sequence it generates, for every
/// configuration.
pub proof fn lemma_count_matches_generation(
    radius_resolution: u32,
    longitude_class: RangeClass,
    longitude_resolution: u32,
    latitude_class: RangeClass,
    latitude_resolution: u32,
)
    ensures
        grid_seq(
            radius_resolution,
            longitude_class,
            longitude_resolution,
            latitude_class,
            latitude_resolution,
        ).len() == grid_count(
            radius_resolution,
            longitude_class,
            longitude_resolution,
            latitude_class,
            latitude_resolution,
        ),
{
}

/// Determinism: the generated sequence is a function of the configuration
/// alone, so two generation results for one configuration are equal,
/// element for element and in the same order.
pub proof fn lemma_generation_deterministic(
    first: Seq<GridPoint>,
    second: Seq<GridPoint>,
    radius_resolution: u32,
    longitude_class: RangeClass,
    longitude_resolution: u32,
    latitude_class: RangeClass,
    latitude_resolution: u32,
)
    requires
        first == grid_seq(
            radius_resolution,
            longitude_class,
            longitude_resolution,
            latitude_class,
            latitude_resolution,
        ),
        second == grid_seq(
            radius_resolution,
            longitude_class,
            longitude_resolution,
            latitude_class,
            latitude_resolution,
        ),
    ensures
        first == second,
{
}

/// Degenerate collapse: with a radial resolution of 0 the grid is exactly
/// the one origin point, whatever the angular axes say.
pub proof fn lemma_degenerate_collapse(
    longitude_class: RangeClass,
    longitude_resolution: u32,
    latitude_class: RangeClass,
    latitude_resolution: u32,
)
    ensures
        grid_count(0, longitude_class, longitude_resolution, latitude_class, latitude_resolution)
            == 1,
        grid_seq(0, longitude_class, longitude_resolution, latitude_class, latitude_resolution)
            =~= seq![GridPoint::Origin],
{
}

/// Origin invariance: every generated sequence is non-empty and starts
/// with the origin point, regardless of the configuration.
pub proof fn lemma_origin_first(
    radius_resolution: u32,
    longitude_class: RangeClass,
    longitude_resolution: u32,
    latitude_class: RangeClass,
    latitude_resolution: u32,
)
    ensures
        grid_seq(
            radius_resolution,
            longitude_class,
            longitude_resolution,
            latitude_class,
            latitude_resolution,
        ).len() >= 1,
        grid_seq(
            radius_resolution,
            longitude_class,
            longitude_resolution,
            latitude_class,
            latitude_resolution,
        )[0] == GridPoint::Origin,
{
}

/// Places the flattened position `k == ri * (l * g) + li * g + gi` of the
/// cross product back onto its three nested indices.
proof fn lemma_grid_index(k: int, ri: int, li: int, gi: int, l: int, g: int)
    requires
        l >= 1,
        g >= 1,
        0 <= ri,
        0 <= li < l,
        0 <= gi < g,
        k == ri * (l * g) + li * g + gi,
    ensures
        k / (l * g) == ri,
        (k % (l * g)) / g == li,
        (k % (l * g)) % g == gi,
{
    let lg = l * g;
    assert(lg >= 1 && li * g + gi < lg && 0 <= li * g + gi) by (nonlinear_arith)
        requires
            lg == l * g,
            l >= 1,
            g >= 1,
            0 <= li < l,
            0 <= gi < g,
    ;
    lemma_fundamental_div_mod_converse(k, lg, ri, li * g + gi);
    lemma_fundamental_div_mod_converse(li * g + gi, g, li, gi);
}

/// Calculate the number of coordinates a configuration produces, without
/// generating them.
pub fn coordinates_count(
    radius_resolution: u32,
    longitude_class: RangeClass,
    longitude_resolution: u32,
    latitude_class: RangeClass,
    latitude_resolution: u32,
) -> (count: u64)
    requires
        grid_count(
            radius_resolution,
            longitude_class,
            longitude_resolution,
            latitude_class,
            latitude_resolution,
        ) <= u64::MAX,
    ensures
        count == grid_count(
            radius_resolution,
            longitude_class,
            longitude_resolution,
            latitude_class,
            latitude_resolution,
        ),
{
    if radius_resolution == 0 {
        proof {
            assert((radius_resolution as int) * ((latitude_seq(
                latitude_class,
                latitude_resolution,
            ).len() as int) * (longitude_seq(longitude_class, longitude_resolution).len() as int))
                == 0) by (nonlinear_arith)
                requires
                    radius_resolution == 0,
            ;
        }
        return 1;
    }
    let lat = axis_sample_count(AxisKind::Latitude, latitude_resolution, latitude_class);
    let lon = axis_sample_count(AxisKind::Longitude, longitude_resolution, longitude_class);
    proof {
        crate::axis::lemma_axis_samples_nonempty(
            AxisKind::Latitude,
            latitude_resolution,
            latitude_class,
        );
        crate::axis::lemma_axis_samples_nonempty(
            AxisKind::Longitude,
            longitude_resolution,
            longitude_class,
        );
        assert((radius_resolution as int) * (lat as int) <= (radius_resolution as int) * ((
        lat as int) * (lon as int)) && ((radius_resolution as int) * (lat as int)) * (lon as int)
            == (radius_resolution as int) * ((lat as int) * (lon as int)) && (
        radius_resolution as int) * ((lat as int) * (lon as int)) >= 1) by (nonlinear_arith)
            requires
                radius_resolution >= 1,
                lat >= 1,
                lon >= 1,
        ;
    }
    1 + radius_resolution as u64 * lat * lon
}

/// Generate the coordinates of a configuration: the origin first, then
/// one point for each radial step, latitude sample and longitude sample,
/// with the radius outermost and the longitude innermost, each axis in
/// ascending order.
pub fn calculate_coordinates(
    radius_resolution: u32,
    longitude_class: RangeClass,
    longitude_resolution: u32,
    latitude_class: RangeClass,
    latitude_resolution: u32,
) -> (points: Vec<GridPoint>)
    ensures
        points@ == grid_seq(
            radius_resolution,
            longitude_class,
            longitude_resolution,
            latitude_class,
            latitude_resolution,
        ),
{
    let lats = axis_samples(AxisKind::Latitude, latitude_resolution, latitude_class);
    let lons = axis_samples(AxisKind::Longitude, longitude_resolution, longitude_class);
    let ghost target = grid_seq(
        radius_resolution,
        longitude_class,
        longitude_resolution,
        latitude_class,
        latitude_resolution,
    );
    let ghost l = lats@.len() as int;
    let ghost g = lons@.len() as int;
    let mut points: Vec<GridPoint> = Vec::new();
    points.push(GridPoint::Origin);
    assert(points@ =~= target.take(1));
    let mut ri: u32 = 0;
    while ri < radius_resolution
        invariant
            lats@ == latitude_seq(latitude_class, latitude_resolution),
            lons@ == longitude_seq(longitude_class, longitude_resolution),
            l == lats@.len() && g == lons@.len(),
            l >= 1 && g >= 1,
            target == grid_seq(
                radius_resolution,
                longitude_class,
                longitude_resolution,
                latitude_class,
                latitude_resolution,
            ),
            ri <= radius_resolution,
            points@.len() == 1 + ri * (l * g),
            points@ == target.take(points@.len() as int),
        decreases radius_resolution - ri,
    {
        let mut li: usize = 0;
        while li < lats.len()
            invariant
                lats@ == latitude_seq(latitude_class, latitude_resolution),
                lons@ == longitude_seq(longitude_class, longitude_resolution),
                l == lats@.len() && g == lons@.len(),
                l >= 1 && g >= 1,
                target == grid_seq(
                    radius_resolution,
                    longitude_class,
                    longitude_resolution,
                    latitude_class,
                    latitude_resolution,
                ),
                ri < radius_resolution,
                li <= lats@.len(),
                points@.len() == 1 + ri * (l * g) + li * g,
                points@ == target.take(points@.len() as int),
            decreases lats@.len() - li,
        {
            let mut gi: usize = 0;
            while gi < lons.len()
                invariant
                    lats@ == latitude_seq(latitude_class, latitude_resolution),
                    lons@ == longitude_seq(longitude_class, longitude_resolution),
                    l == lats@.len() && g == lons@.len(),
                    l >= 1 && g >= 1,
                    target == grid_seq(
                        radius_resolution,
                        longitude_class,
                        longitude_resolution,
                        latitude_class,
                        latitude_resolution,
                    ),
                    ri < radius_resolution,
                    li < lats@.len(),
                    gi <= lons@.len(),
                    points@.len() == 1 + ri * (l * g) + li * g + gi,
                    points@ == target.take(points@.len() as int),
                decreases lons@.len() - gi,
            {
                let next = GridPoint::Sample {
                    radius_step: ri + 1,
                    latitude: lats[li],
                    longitude: lons[gi],
                };
                proof {
                    let k = ri * (l * g) + li * g + gi;
                    lemma_grid_index(k, ri as int, li as int, gi as int, l, g);
                    assert(k < radius_resolution * (l * g)) by (nonlinear_arith)
                        requires
                            k == ri * (l * g) + li * g + gi,
                            ri < radius_resolution,
                            0 <= li < l,
                            0 <= gi < g,
                    ;
                    assert(target[points@.len() as int] == next);
                    assert(points@.push(next) =~= target.take(points@.len() as int + 1));
                }
                points.push(next);
                gi = gi + 1;
            }
            li = li + 1;
            proof {
                assert(ri * (l * g) + li * g == ri * (l * g) + (li - 1) * g + g)
                    by (nonlinear_arith);
            }
        }
        ri = ri + 1;
        proof {
            assert(ri * (l * g) == (ri - 1) * (l * g) + l * g) by (nonlinear_arith);
        }
    }
    proof {
        assert(points@ =~= target);
    }
    points
}

/// Fill a caller-provided buffer with the points of a configuration: the
/// same points as [`calculate_coordinates`], in the same order, written in
/// increasing index order into the front of the buffer. The caller sizes
/// the buffer from [`coordinates_count`] first; slots past the point count
/// are left untouched.
pub fn fill_coordinates(
    radius_resolution: u32,
    longitude_class: RangeClass,
    longitude_resolution: u32,
    latitude_class: RangeClass,
    latitude_resolution: u32,
    out: &mut Vec<GridPoint>,
)
    requires
        old(out).len() >= grid_count(
            radius_resolution,
            longitude_class,
            longitude_resolution,
            latitude_class,
            latitude_resolution,
        ),
    ensures
        final(out).len() == old(out).len(),
        final(out)@.subrange(
            0,
            grid_count(
                radius_resolution,
                longitude_class,
                longitude_resolution,
                latitude_class,
                latitude_resolution,
            ) as int,
        ) == grid_seq(
            radius_resolution,
            longitude_class,
            longitude_resolution,
            latitude_class,
            latitude_resolution,
        ),
        forall|k: int|
            grid_count(
                radius_resolution,
                longitude_class,
                longitude_resolution,
                latitude_class,
                latitude_resolution,
            ) <= k < final(out).len() ==> final(out)@[k] == old(out)@[k],
{
    let points = calculate_coordinates(
        radius_resolution,
        longitude_class,
        longitude_resolution,
        latitude_class,
        latitude_resolution,
    );
    proof {
        lemma_count_matches_generation(
            radius_resolution,
            longitude_class,
            longitude_resolution,
            latitude_class,
            latitude_resolution,
        );
    }
    let mut i: usize = 0;
    while i < points.len()
        invariant
            points@ == grid_seq(
                radius_resolution,
                longitude_class,
                longitude_resolution,
                latitude_class,
                latitude_resolution,
            ),
            old(out).len() >= points@.len(),
            out.len() == old(out).len(),
            i <= points@.len(),
            forall|k: int| 0 <= k < i ==> out@[k] == points@[k],
            forall|k: int| i <= k < out.len() ==> out@[k] == old(out)@[k],
        decreases points@.len() - i,
    {
        let value = points[i];
        out.set(i, value);
        i = i + 1;
    }
    proof {
        assert(out@.subrange(
            0,
            grid_count(
                radius_resolution,
                longitude_class,
                longitude_resolution,
                latitude_class,
                latitude_resolution,
            ) as int,
        ) =~= grid_seq(
            radius_resolution,
            longitude_class,
            longitude_resolution,
            latitude_class,
            latitude_resolution,
        ));
    }
}

} // verus!
