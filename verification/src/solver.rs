//! The DORI parameter-range solver.
//!
//! Given one target distance and the camera parameters that the caller has
//! fixed, the solver says for each remaining parameter whether it is
//! determined (a range of one point), bounded (a proper range) or left at its
//! physical bounds.
//!
//! Two relations govern everything.  The DORI equation,
//! `distance = focal * pixels / (sensor * density)`, and the angular relation,
//! `sensor = 2 * focal * tan(fov / 2)`.  The target distance and the density
//! of its category enter only through their product, the *pixel demand*: the
//! number of pixels needed across a scene as wide as it is far.
//!
//! Policy where a fixed parameter is computed again: with the field of view
//! and the focal length both fixed, the sensor width that they imply is
//! always reported, even where the caller fixed a sensor width too, so that
//! the caller can compare.  With the field of view fixed, no pixel-width
//! range is reported for a fixed pixel width; with the focal length and the
//! sensor width fixed and the field of view free, the pixel-width
//! requirement is reported whether the pixel width is fixed or not.

use vstd::prelude::*;
use crate::fixed::{
    lemma_mul_div_rounds_down, mul_div, mul_div_u64, whole, whole_u64, HALF, SCALE, UNBOUNDED,
};
use crate::types::{
    interval_of, point, value_of, ConstraintView, DoriCategory, DoriParameterRanges,
    DoriTargets, Interval, ParameterConstraint, ParameterRange, RangesView, SolverError,
    TargetsView,
};

verus! {

/// Fewest pixels across that the solver will propose: 640.
pub const MIN_PIXEL_WIDTH: u64 = 640_000_000_000;

/// Most pixels across that the solver will propose: 8192.
pub const MAX_PIXEL_WIDTH: u64 = 8_192_000_000_000;

/// Narrowest sensor that the solver will propose: 3 mm.
pub const MIN_SENSOR_WIDTH_MM: u64 = 3_000_000_000;

/// Widest sensor that the solver will propose: 50 mm.
pub const MAX_SENSOR_WIDTH_MM: u64 = 50_000_000_000;

/// Shortest focal length that the solver will propose: 2 mm.
pub const MIN_FOCAL_LENGTH_MM: u64 = 2_000_000_000;

/// Longest focal length that the solver will propose: 400 mm.
pub const MAX_FOCAL_LENGTH_MM: u64 = 400_000_000_000;

impl TargetsView {
    /// The target that governs: the first one present, from the most
    /// demanding category to the least.
    pub open spec fn selected(self) -> Option<(nat, DoriCategory)> {
        if let Some(d) = self.identification {
            Some((d, DoriCategory::Identification))
        } else if let Some(d) = self.recognition {
            Some((d, DoriCategory::Recognition))
        } else if let Some(d) = self.observation {
            Some((d, DoriCategory::Observation))
        } else if let Some(d) = self.detection {
            Some((d, DoriCategory::Detection))
        } else {
            None
        }
    }

    /// The pixel demand of the governing target: its distance times the
    /// density of its category.
    pub open spec fn demand(self) -> Option<nat> {
        match self.selected() {
            Some((distance, category)) => Some(mul_div(distance, category.density(), SCALE as nat)),
            None => None,
        }
    }
}

impl ConstraintView {
    /// The fixed pixel width as a fixed-point number.
    pub open spec fn pixels(self) -> Option<nat> {
        match self.pixel_width {
            Some(count) => Some(whole(count)),
            None => None,
        }
    }
}

/// The larger of two numbers.
pub open spec fn larger(a: nat, b: nat) -> nat {
    if a >= b {
        a
    } else {
        b
    }
}

/// The smaller of two numbers.
pub open spec fn smaller(a: nat, b: nat) -> nat {
    if a <= b {
        a
    } else {
        b
    }
}

/// Angular relation, solved for the sensor width: `2 * focal * tan`.
pub open spec fn sensor_for_angle(focal: nat, tan: nat) -> nat {
    mul_div(focal, tan, HALF as nat)
}

/// Angular relation, solved for the focal length: `sensor / (2 * tan)`.
pub open spec fn focal_for_angle(sensor: nat, tan: nat) -> nat {
    mul_div(sensor, HALF as nat, tan)
}

/// Angular relation, solved for the tangent: `sensor / (2 * focal)`.
pub open spec fn tan_for(sensor: nat, focal: nat) -> nat {
    mul_div(sensor, HALF as nat, focal)
}

/// DORI equation, solved for the pixel width: `demand * sensor / focal`.
pub open spec fn pixels_for(demand: nat, sensor: nat, focal: nat) -> nat {
    mul_div(demand, sensor, focal)
}

/// Both relations together, with the focal length cancelled out:
/// `2 * demand * tan`.
pub open spec fn pixels_at_angle(demand: nat, tan: nat) -> nat {
    mul_div(demand, tan, HALF as nat)
}

/// DORI equation, solved for the sensor width: `focal * pixels / demand`.
pub open spec fn sensor_for_pixels(demand: nat, focal: nat, pixels: nat) -> nat {
    mul_div(focal, pixels, demand)
}

/// DORI equation, solved for the focal length: `demand * sensor / pixels`.
pub open spec fn focal_for_pixels(demand: nat, sensor: nat, pixels: nat) -> nat {
    mul_div(demand, sensor, pixels)
}

/// The pixel widths that meet a requirement: from the requirement, or the
/// smallest width proposed if that is more, up to the largest width proposed.
pub open spec fn pixels_from(required: nat) -> Interval {
    Interval { min: larger(required, MIN_PIXEL_WIDTH as nat), max: MAX_PIXEL_WIDTH as nat }
}

/// All sensor widths that the solver proposes.
pub open spec fn any_sensor() -> Interval {
    Interval { min: MIN_SENSOR_WIDTH_MM as nat, max: MAX_SENSOR_WIDTH_MM as nat }
}

/// All focal lengths that the solver proposes.
pub open spec fn any_focal() -> Interval {
    Interval { min: MIN_FOCAL_LENGTH_MM as nat, max: MAX_FOCAL_LENGTH_MM as nat }
}

/// The focal lengths that, at a given field of view, keep the sensor width
/// within its bounds, cut to the bounds of the focal length itself.
pub open spec fn focal_at_angle(tan: nat) -> Interval {
    Interval {
        min: larger(focal_for_angle(MIN_SENSOR_WIDTH_MM as nat, tan), MIN_FOCAL_LENGTH_MM as nat),
        max: smaller(focal_for_angle(MAX_SENSOR_WIDTH_MM as nat, tan), MAX_FOCAL_LENGTH_MM as nat),
    }
}

/// The range reported for the focal length.
pub open spec fn focal_length_range(demand: nat, c: ConstraintView) -> Option<Interval> {
    match (c.fov_tan, c.focal_length, c.sensor_width, c.pixels()) {
        (_, Some(_), _, _) => None,
        (Some(t), None, Some(s), _) => Some(point(focal_for_angle(s, t))),
        (Some(t), None, None, _) => Some(focal_at_angle(t)),
        (None, None, Some(s), Some(x)) => Some(
            Interval {
                min: larger(focal_for_pixels(demand, s, x), MIN_FOCAL_LENGTH_MM as nat),
                max: MAX_FOCAL_LENGTH_MM as nat,
            },
        ),
        (None, None, Some(_), None) => Some(any_focal()),
        (None, None, None, Some(x)) => Some(
            Interval {
                min: larger(
                    focal_for_pixels(demand, MIN_SENSOR_WIDTH_MM as nat, x),
                    MIN_FOCAL_LENGTH_MM as nat,
                ),
                max: smaller(
                    focal_for_pixels(demand, MAX_SENSOR_WIDTH_MM as nat, x),
                    MAX_FOCAL_LENGTH_MM as nat,
                ),
            },
        ),
        (None, None, None, None) => Some(any_focal()),
    }
}

/// The range reported for the sensor width.
pub open spec fn sensor_width_range(demand: nat, c: ConstraintView) -> Option<Interval> {
    match (c.fov_tan, c.focal_length, c.sensor_width, c.pixels()) {
        (Some(t), Some(f), _, _) => Some(point(sensor_for_angle(f, t))),
        (_, _, Some(_), _) => None,
        (Some(t), None, None, _) => Some(
            Interval {
                min: sensor_for_angle(focal_at_angle(t).min, t),
                max: sensor_for_angle(focal_at_angle(t).max, t),
            },
        ),
        (None, Some(f), None, Some(x)) => Some(point(sensor_for_pixels(demand, f, x))),
        (None, Some(_), None, None) => Some(any_sensor()),
        (None, None, None, Some(x)) => Some(
            Interval {
                min: larger(
                    sensor_for_pixels(demand, MIN_FOCAL_LENGTH_MM as nat, x),
                    MIN_SENSOR_WIDTH_MM as nat,
                ),
                max: smaller(
                    sensor_for_pixels(demand, MAX_FOCAL_LENGTH_MM as nat, x),
                    MAX_SENSOR_WIDTH_MM as nat,
                ),
            },
        ),
        (None, None, None, None) => Some(any_sensor()),
    }
}

/// The range reported for the pixel width.
pub open spec fn pixel_width_range(demand: nat, c: ConstraintView) -> Option<Interval> {
    match (c.fov_tan, c.focal_length, c.sensor_width, c.pixels()) {
        (Some(_), _, _, Some(_)) => None,
        (Some(t), Some(f), _, None) => Some(
            pixels_from(pixels_for(demand, sensor_for_angle(f, t), f)),
        ),
        (Some(t), None, Some(s), None) => Some(
            pixels_from(pixels_for(demand, s, focal_for_angle(s, t))),
        ),
        (Some(t), None, None, None) => Some(pixels_from(pixels_at_angle(demand, t))),
        (None, Some(f), Some(s), _) => Some(pixels_from(pixels_for(demand, s, f))),
        (None, _, _, Some(_)) => None,
        (None, _, _, None) => Some(
            Interval { min: MIN_PIXEL_WIDTH as nat, max: MAX_PIXEL_WIDTH as nat },
        ),
    }
}

/// Where a parameter stands after the widths are solved: its reported range
/// if there is one, else the value that the caller fixed.
pub open spec fn extent(range: Option<Interval>, fixed: Option<nat>) -> Option<Interval> {
    match (range, fixed) {
        (Some(r), _) => Some(r),
        (None, Some(v)) => Some(point(v)),
        (None, None) => None,
    }
}

/// The range reported for the tangent of half the field of view: none where
/// the field of view is fixed, else from the narrowest sensor at the longest
/// focal length to the widest sensor at the shortest focal length.
pub open spec fn fov_tan_range(demand: nat, c: ConstraintView) -> Option<Interval> {
    if c.fov_tan is Some {
        None
    } else {
        match (
            extent(sensor_width_range(demand, c), c.sensor_width),
            extent(focal_length_range(demand, c), c.focal_length),
        ) {
            (Some(s), Some(f)) => Some(
                Interval { min: tan_for(s.min, f.max), max: tan_for(s.max, f.min) },
            ),
            _ => None,
        }
    }
}

/// The height that goes with a width at the default aspect ratio of 4:3.
pub open spec fn height_for(width: nat) -> nat {
    mul_div(width, 3, 4)
}

/// The heights that go with a range of widths, end by end.
pub open spec fn heights_for(widths: Option<Interval>) -> Option<Interval> {
    match widths {
        Some(w) => Some(Interval { min: height_for(w.min), max: height_for(w.max) }),
        None => None,
    }
}

/// The range reported for the sensor height: none where it is fixed, else
/// three quarters of where the sensor width stands.
pub open spec fn sensor_height_range(demand: nat, c: ConstraintView) -> Option<Interval> {
    if c.sensor_height is Some {
        None
    } else {
        heights_for(extent(sensor_width_range(demand, c), c.sensor_width))
    }
}

/// The range reported for the pixel height.
///
/// Where it is not fixed: three quarters of where the pixel width stands.
/// Where it is fixed, one case still reports a range: with the focal length,
/// the sensor width and the sensor height fixed and the field of view free,
/// the pixel-width requirement is carried over by the sensor's own aspect
/// ratio.
pub open spec fn pixel_height_range(demand: nat, c: ConstraintView) -> Option<Interval> {
    if c.pixel_height is None {
        heights_for(extent(pixel_width_range(demand, c), c.pixels()))
    } else {
        match (c.fov_tan, c.focal_length, c.sensor_width, c.sensor_height) {
            (None, Some(f), Some(s), Some(h)) => Some(
                Interval {
                    min: mul_div(pixels_from(pixels_for(demand, s, f)).min, h, s),
                    max: mul_div(MAX_PIXEL_WIDTH as nat, h, s),
                },
            ),
            _ => None,
        }
    }
}

/// What the solver reports for a pixel demand and a set of fixed parameters.
pub open spec fn solve(demand: nat, c: ConstraintView) -> RangesView {
    RangesView {
        sensor_width: sensor_width_range(demand, c),
        sensor_height: sensor_height_range(demand, c),
        pixel_width: pixel_width_range(demand, c),
        pixel_height: pixel_height_range(demand, c),
        focal_length: focal_length_range(demand, c),
        fov_tan: fov_tan_range(demand, c),
    }
}

/// The larger of two fixed-point numbers.
fn at_least(value: u64, floor: u64) -> (r: u64)
    ensures
        r as nat == larger(value as nat, floor as nat),
{
    if value >= floor {
        value
    } else {
        floor
    }
}

/// The smaller of two fixed-point numbers.
fn at_most(value: u64, ceiling: u64) -> (r: u64)
    ensures
        r as nat == smaller(value as nat, ceiling as nat),
{
    if value <= ceiling {
        value
    } else {
        ceiling
    }
}

/// A range of one point.
fn exactly(value: u64) -> (r: ParameterRange)
    ensures
        r@ == point(value as nat),
{
    ParameterRange { min: value, max: value }
}

/// The pixel widths that meet a requirement.
fn pixel_widths_from(required: u64) -> (r: ParameterRange)
    ensures
        r@ == pixels_from(required as nat),
{
    ParameterRange { min: at_least(required, MIN_PIXEL_WIDTH), max: MAX_PIXEL_WIDTH }
}

/// The focal lengths that keep the sensor width within its bounds at a given
/// field of view.
fn focal_lengths_at_angle(tan: u64) -> (r: ParameterRange)
    ensures
        r@ == focal_at_angle(tan as nat),
{
    ParameterRange {
        min: at_least(mul_div_u64(MIN_SENSOR_WIDTH_MM, HALF, tan), MIN_FOCAL_LENGTH_MM),
        max: at_most(mul_div_u64(MAX_SENSOR_WIDTH_MM, HALF, tan), MAX_FOCAL_LENGTH_MM),
    }
}

/// Where a parameter stands: its range if it has one, else its fixed value.
fn standing(range: Option<ParameterRange>, fixed: Option<u64>) -> (r: Option<ParameterRange>)
    ensures
        interval_of(r) == extent(interval_of(range), value_of(fixed)),
{
    match range {
        Some(found) => Some(found),
        None => match fixed {
            Some(value) => Some(exactly(value)),
            None => None,
        },
    }
}

/// The heights that go with a range of widths at the aspect ratio 4:3.
fn heights(widths: Option<ParameterRange>) -> (r: Option<ParameterRange>)
    ensures
        interval_of(r) == heights_for(interval_of(widths)),
{
    match widths {
        Some(w) => Some(
            ParameterRange { min: mul_div_u64(w.min, 3, 4), max: mul_div_u64(w.max, 3, 4) },
        ),
        None => None,
    }
}

/// A supplied pixel count as a fixed-point number.
fn pixel_count(count: Option<u32>) -> (r: Option<u64>)
    ensures
        r is Some <==> count is Some,
        r matches Some(v) ==> v as nat == whole(count.unwrap() as nat),
{
    match count {
        Some(n) => Some(whole_u64(n)),
        None => None,
    }
}

/// Solves for a pixel demand that is already known.
///
/// The three widths are settled first, by the combination of parameters
/// that are fixed; the field of view and the two heights follow from where
/// the widths then stand.
pub fn ranges_for_demand(demand: u64, constraints: &ParameterConstraint) -> (r: DoriParameterRanges)
    ensures
        r@ == solve(demand as nat, constraints@),
{
    let pixels = pixel_count(constraints.pixel_width);
    let mut sensor: Option<ParameterRange> = None;
    let mut focal: Option<ParameterRange> = None;
    let mut width: Option<ParameterRange> = None;
    let mut by_sensor_aspect: Option<ParameterRange> = None;
    match (
        constraints.horizontal_fov_tan,
        constraints.focal_length_mm,
        constraints.sensor_width_mm,
        pixels,
    ) {
        (Some(t), Some(f), _, x) => {
            let implied: u64 = mul_div_u64(f, t, HALF);
            sensor = Some(exactly(implied));
            if x.is_none() {
                width = Some(pixel_widths_from(mul_div_u64(demand, implied, f)));
            }
        },
        (Some(t), None, Some(s), x) => {
            let implied: u64 = mul_div_u64(s, HALF, t);
            focal = Some(exactly(implied));
            if x.is_none() {
                width = Some(pixel_widths_from(mul_div_u64(demand, s, implied)));
            }
        },
        (Some(t), None, None, x) => {
            let lengths = focal_lengths_at_angle(t);
            focal = Some(lengths);
            sensor = Some(
                ParameterRange {
                    min: mul_div_u64(lengths.min, t, HALF),
                    max: mul_div_u64(lengths.max, t, HALF),
                },
            );
            if x.is_none() {
                width = Some(pixel_widths_from(mul_div_u64(demand, t, HALF)));
            }
        },
        (None, Some(f), Some(s), _) => {
            let required = pixel_widths_from(mul_div_u64(demand, s, f));
            width = Some(required);
            if let Some(h) = constraints.sensor_height_mm {
                by_sensor_aspect = Some(
                    ParameterRange {
                        min: mul_div_u64(required.min, h, s),
                        max: mul_div_u64(required.max, h, s),
                    },
                );
            }
        },
        (None, Some(f), None, Some(x)) => {
            sensor = Some(exactly(mul_div_u64(f, x, demand)));
        },
        (None, Some(_), None, None) => {
            sensor = Some(ParameterRange { min: MIN_SENSOR_WIDTH_MM, max: MAX_SENSOR_WIDTH_MM });
            width = Some(ParameterRange { min: MIN_PIXEL_WIDTH, max: MAX_PIXEL_WIDTH });
        },
        (None, None, Some(s), Some(x)) => {
            focal = Some(
                ParameterRange {
                    min: at_least(mul_div_u64(demand, s, x), MIN_FOCAL_LENGTH_MM),
                    max: MAX_FOCAL_LENGTH_MM,
                },
            );
        },
        (None, None, Some(_), None) => {
            focal = Some(ParameterRange { min: MIN_FOCAL_LENGTH_MM, max: MAX_FOCAL_LENGTH_MM });
            width = Some(ParameterRange { min: MIN_PIXEL_WIDTH, max: MAX_PIXEL_WIDTH });
        },
        (None, None, None, Some(x)) => {
            focal = Some(
                ParameterRange {
                    min: at_least(mul_div_u64(demand, MIN_SENSOR_WIDTH_MM, x), MIN_FOCAL_LENGTH_MM),
                    max: at_most(mul_div_u64(demand, MAX_SENSOR_WIDTH_MM, x), MAX_FOCAL_LENGTH_MM),
                },
            );
            sensor = Some(
                ParameterRange {
                    min: at_least(mul_div_u64(MIN_FOCAL_LENGTH_MM, x, demand), MIN_SENSOR_WIDTH_MM),
                    max: at_most(mul_div_u64(MAX_FOCAL_LENGTH_MM, x, demand), MAX_SENSOR_WIDTH_MM),
                },
            );
        },
        (None, None, None, None) => {
            focal = Some(ParameterRange { min: MIN_FOCAL_LENGTH_MM, max: MAX_FOCAL_LENGTH_MM });
            sensor = Some(ParameterRange { min: MIN_SENSOR_WIDTH_MM, max: MAX_SENSOR_WIDTH_MM });
            width = Some(ParameterRange { min: MIN_PIXEL_WIDTH, max: MAX_PIXEL_WIDTH });
        },
    }
    let sensor_stands = standing(sensor, constraints.sensor_width_mm);
    let mut fov: Option<ParameterRange> = None;
    if constraints.horizontal_fov_tan.is_none() {
        if let Some(s) = sensor_stands {
            if let Some(f) = standing(focal, constraints.focal_length_mm) {
                fov = Some(
                    ParameterRange {
                        min: mul_div_u64(s.min, HALF, f.max),
                        max: mul_div_u64(s.max, HALF, f.min),
                    },
                );
            }
        }
    }
    let sensor_height = if constraints.sensor_height_mm.is_none() {
        heights(sensor_stands)
    } else {
        None
    };
    let pixel_height = if constraints.pixel_height.is_none() {
        heights(standing(width, pixels))
    } else {
        by_sensor_aspect
    };
    DoriParameterRanges {
        sensor_width_mm: sensor,
        sensor_height_mm: sensor_height,
        pixel_width: width,
        pixel_height,
        focal_length_mm: focal,
        horizontal_fov_tan: fov,
    }
}

/// Calculates the ranges of camera parameters that satisfy a DORI target.
///
/// The first target present governs, from identification down to detection.
/// Fails if no target is given at all; otherwise every combination of fixed
/// parameters has an answer.
pub fn calculate_dori_parameter_ranges(
    targets: &DoriTargets,
    constraints: &ParameterConstraint,
) -> (res: Result<DoriParameterRanges, SolverError>)
    ensures
        res is Err <==> targets@.selected() is None,
        res matches Err(e) ==> e == SolverError::NoTarget,
        res matches Ok(r) ==> r@ == solve(targets@.demand().unwrap(), constraints@),
{
    let (distance, category) = if let Some(d) = targets.identification_m {
        (d, DoriCategory::Identification)
    } else if let Some(d) = targets.recognition_m {
        (d, DoriCategory::Recognition)
    } else if let Some(d) = targets.observation_m {
        (d, DoriCategory::Observation)
    } else if let Some(d) = targets.detection_m {
        (d, DoriCategory::Detection)
    } else {
        return Err(SolverError::NoTarget);
    };
    let demand: u64 = mul_div_u64(distance, category.px_per_m(), SCALE);
    Ok(ranges_for_demand(demand, constraints))
}

/// Which fields the answer holds.  A parameter that is not fixed always has
/// a range.  A parameter that is fixed has none, with three exceptions: the
/// sensor width that a fixed field of view and a fixed focal length imply;
/// the pixel width that a fixed focal length and a fixed sensor width
/// require while the field of view is free; and, in that same case with the
/// sensor height fixed as well, the pixel height.
pub proof fn lemma_fields_present(demand: nat, c: ConstraintView)
    ensures
        solve(demand, c).focal_length is Some <==> c.focal_length is None,
        solve(demand, c).fov_tan is Some <==> c.fov_tan is None,
        solve(demand, c).sensor_height is Some <==> c.sensor_height is None,
        solve(demand, c).sensor_width is Some <==> c.sensor_width is None || (c.fov_tan is Some
            && c.focal_length is Some),
        solve(demand, c).pixel_width is Some <==> c.pixel_width is None || (c.fov_tan is None
            && c.focal_length is Some && c.sensor_width is Some),
        solve(demand, c).pixel_height is Some <==> c.pixel_height is None || (c.fov_tan is None
            && c.focal_length is Some && c.sensor_width is Some && c.sensor_height is Some),
{
}

/// With nothing fixed, the answer does not depend on the target: every
/// width has its full physical range, and the field of view runs from the
/// narrowest sensor at the longest focal length to the widest sensor at the
/// shortest.
pub proof fn lemma_nothing_fixed(demand: nat, c: ConstraintView)
    requires
        c.fov_tan is None,
        c.focal_length is None,
        c.sensor_width is None,
        c.pixel_width is None,
    ensures
        solve(demand, c).sensor_width == Some(any_sensor()),
        solve(demand, c).focal_length == Some(any_focal()),
        solve(demand, c).pixel_width == Some(
            Interval { min: MIN_PIXEL_WIDTH as nat, max: MAX_PIXEL_WIDTH as nat },
        ),
        solve(demand, c).fov_tan == Some(
            Interval {
                min: tan_for(MIN_SENSOR_WIDTH_MM as nat, MAX_FOCAL_LENGTH_MM as nat),
                max: tan_for(MAX_SENSOR_WIDTH_MM as nat, MIN_FOCAL_LENGTH_MM as nat),
            },
        ),
{
}

/// Two of field of view, focal length and sensor width determine the third,
/// and the solver reports it as a range of one point: the sensor width that
/// the field of view and the focal length imply, the focal length that the
/// field of view and the sensor width imply, and the field of view that the
/// focal length and the sensor width imply.
pub proof fn lemma_two_determine_the_third(demand: nat, c: ConstraintView)
    ensures
        c.fov_tan is Some && c.focal_length is Some ==> solve(demand, c).sensor_width == Some(
            point(sensor_for_angle(c.focal_length.unwrap(), c.fov_tan.unwrap())),
        ),
        c.fov_tan is Some && c.sensor_width is Some && c.focal_length is None ==> solve(
            demand,
            c,
        ).focal_length == Some(point(focal_for_angle(c.sensor_width.unwrap(), c.fov_tan.unwrap()))),
        c.focal_length is Some && c.sensor_width is Some && c.fov_tan is None ==> solve(
            demand,
            c,
        ).fov_tan == Some(point(tan_for(c.sensor_width.unwrap(), c.focal_length.unwrap()))),
{
}

/// A camera meets a pixel demand if it puts at least that many pixels on
/// a scene as wide as it is far: `focal * pixels >= demand * sensor`, which
/// is the DORI equation with the target distance as the least to be reached.
pub open spec fn meets(demand: nat, sensor: nat, pixels: nat, focal: nat) -> bool {
    focal * pixels >= demand * sensor
}

/// The pixel requirement is right.  Where the answer holds a pixel-width
/// range that is a requirement, a camera with one billionth of a pixel more
/// than any bounded width from the least of the range on meets the demand.
/// That is so with the sensor width and the focal length fixed and the field
/// of view free; with the field of view and the focal length fixed, for the
/// sensor width that they imply; and with the field of view and the sensor
/// width fixed, for the focal length that they imply.
pub proof fn lemma_required_pixels_meet_the_demand(demand: nat, c: ConstraintView, pixels: nat)
    requires
        solve(demand, c).pixel_width is Some,
        solve(demand, c).pixel_width.unwrap().min <= pixels < UNBOUNDED,
    ensures
        c.fov_tan is None && c.focal_length is Some && c.sensor_width is Some
            && c.focal_length.unwrap() < UNBOUNDED ==> meets(
            demand,
            c.sensor_width.unwrap(),
            pixels + 1,
            c.focal_length.unwrap(),
        ),
        c.fov_tan is Some && c.focal_length is Some && c.focal_length.unwrap() < UNBOUNDED
            ==> meets(
            demand,
            sensor_for_angle(c.focal_length.unwrap(), c.fov_tan.unwrap()),
            pixels + 1,
            c.focal_length.unwrap(),
        ),
        c.fov_tan is Some && c.focal_length is None && c.sensor_width is Some
            && focal_for_angle(c.sensor_width.unwrap(), c.fov_tan.unwrap()) < UNBOUNDED
            ==> meets(
            demand,
            c.sensor_width.unwrap(),
            pixels + 1,
            focal_for_angle(c.sensor_width.unwrap(), c.fov_tan.unwrap()),
        ),
{
    if c.fov_tan is None && c.focal_length is Some && c.sensor_width is Some
        && c.focal_length.unwrap() < UNBOUNDED {
        lemma_enough_pixels(demand, c.sensor_width.unwrap(), c.focal_length.unwrap(), pixels);
    }
    if c.fov_tan is Some && c.focal_length is Some {
        let focal = c.focal_length.unwrap();
        lemma_enough_pixels(demand, sensor_for_angle(focal, c.fov_tan.unwrap()), focal, pixels);
    }
    if c.fov_tan is Some && c.focal_length is None && c.sensor_width is Some && focal_for_angle(
        c.sensor_width.unwrap(),
        c.fov_tan.unwrap(),
    ) < UNBOUNDED {
        let sensor = c.sensor_width.unwrap();
        lemma_enough_pixels(demand, sensor, focal_for_angle(sensor, c.fov_tan.unwrap()), pixels);
    }
}

/// A pixel width at or above what the DORI equation gives for a sensor
/// width and a bounded focal length is enough, but for one unit.
proof fn lemma_enough_pixels(demand: nat, sensor: nat, focal: nat, pixels: nat)
    requires
        focal < UNBOUNDED,
        pixels_for(demand, sensor, focal) <= pixels < UNBOUNDED,
    ensures
        meets(demand, sensor, pixels + 1, focal),
{
    let required = pixels_for(demand, sensor, focal);
    lemma_mul_div_rounds_down(demand, sensor, focal);
    assert(focal * (pixels + 1) >= (required + 1) * focal) by (nonlinear_arith)
        requires
            pixels >= required,
    ;
}

/// With the focal length and the pixel width fixed and nothing else, the
/// sensor width in the answer is the widest that meets the demand, as long
/// as the demand and that width are bounded numbers.
pub proof fn lemma_determined_sensor_is_the_widest(demand: nat, c: ConstraintView)
    requires
        c.fov_tan is None,
        c.focal_length is Some,
        c.sensor_width is None,
        c.pixel_width is Some,
        demand < UNBOUNDED,
        sensor_for_pixels(demand, c.focal_length.unwrap(), c.pixels().unwrap()) < UNBOUNDED,
    ensures
        solve(demand, c).sensor_width is Some,
        solve(demand, c).sensor_width.unwrap().min == solve(demand, c).sensor_width.unwrap().max,
        meets(
            demand,
            solve(demand, c).sensor_width.unwrap().min,
            c.pixels().unwrap(),
            c.focal_length.unwrap(),
        ),
        !meets(
            demand,
            solve(demand, c).sensor_width.unwrap().min + 1,
            c.pixels().unwrap(),
            c.focal_length.unwrap(),
        ),
{
    let focal = c.focal_length.unwrap();
    let pixels = c.pixels().unwrap();
    let sensor = sensor_for_pixels(demand, focal, pixels);
    lemma_mul_div_rounds_down(focal, pixels, demand);
    assert(demand * sensor == sensor * demand) by (nonlinear_arith);
    assert(demand * (sensor + 1) == (sensor + 1) * demand) by (nonlinear_arith);
}

/// With the sensor width and the pixel width fixed and nothing else, a lens
/// one billionth of a millimetre longer than any bounded focal length from
/// the least of the answer on meets the demand.  The pixel width must be a
/// bounded number, as every 32-bit count is.
pub proof fn lemma_required_focal_length_meets_the_demand(
    demand: nat,
    c: ConstraintView,
    focal: nat,
)
    requires
        c.fov_tan is None,
        c.focal_length is None,
        c.sensor_width is Some,
        c.pixel_width is Some,
        c.pixels().unwrap() < UNBOUNDED,
        solve(demand, c).focal_length is Some,
        solve(demand, c).focal_length.unwrap().min <= focal < UNBOUNDED,
    ensures
        meets(demand, c.sensor_width.unwrap(), c.pixels().unwrap(), focal + 1),
{
    let sensor = c.sensor_width.unwrap();
    let pixels = c.pixels().unwrap();
    let required = focal_for_pixels(demand, sensor, pixels);
    lemma_mul_div_rounds_down(demand, sensor, pixels);
    assert((focal + 1) * pixels >= (required + 1) * pixels) by (nonlinear_arith)
        requires
            focal >= required,
    ;
}

/// A width and the height that goes with it at 4:3: the height is three
/// quarters of the width, rounded down to the next billionth, and unbounded
/// where the width is.
pub open spec fn four_to_three(width: nat, height: nat) -> bool {
    if width < UNBOUNDED {
        4 * height <= 3 * width < 4 * height + 4
    } else {
        height == UNBOUNDED
    }
}

/// Both ends of a range of widths and of a range of heights at 4:3.
pub open spec fn ranges_four_to_three(widths: Option<Interval>, heights: Option<Interval>) -> bool {
    &&& widths is Some
    &&& heights is Some
    &&& four_to_three(widths.unwrap().min, heights.unwrap().min)
    &&& four_to_three(widths.unwrap().max, heights.unwrap().max)
}

/// Whenever the sensor height is not fixed, a range is reported for it, and
/// it stands at 4:3 to the sensor width, end by end: to the range reported
/// for the width or, where there is none, to the fixed width.  The same
/// holds of the pixel height and the pixel width.
pub proof fn lemma_heights_follow_widths(demand: nat, c: ConstraintView)
    ensures
        c.sensor_height is None ==> ranges_four_to_three(
            extent(solve(demand, c).sensor_width, c.sensor_width),
            solve(demand, c).sensor_height,
        ),
        c.pixel_height is None ==> ranges_four_to_three(
            extent(solve(demand, c).pixel_width, c.pixels()),
            solve(demand, c).pixel_height,
        ),
{
}

/// What 4:3 means as a quotient: for a height of at least one unit, the
/// width over the height is four thirds or more, and above it by no more
/// than a billionth.
pub proof fn lemma_four_to_three_is_close(width: nat, height: nat)
    requires
        four_to_three(width, height),
        width < UNBOUNDED,
        height >= SCALE,
    ensures
        0 <= (3 * width - 4 * height) * SCALE <= 3 * height,
{
}

} // verus!
