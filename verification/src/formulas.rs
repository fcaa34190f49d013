//! The closed-form calculations: field of view, hyperfocal distance, depth
//! of field, and the focal length for a field of view.
//!
//! This crate does no trigonometry.  Where an angle is wanted in degrees the
//! caller supplies it, and where a formula needs the tangent of half an
//! angle, the caller supplies that.

use vstd::prelude::*;
use vstd::string::StringExecFns;
use crate::camera::{CameraSystem, CameraView};
use crate::dori::{calculate_dori_distances, distances_of};
use crate::fixed::{
    difference, difference_u64, lemma_mul_div_shrinks_with_divisor, mul_div, mul_div_u64, sum,
    sum_u64, whole, whole_u64, HALF, SCALE, UNBOUNDED,
};
use crate::text::{decimal_text, push_decimal};
use crate::types::{DistancesView, DoriDistances};

verus! {

/// Millimetres per metre, as a plain factor.
pub const MM_PER_M: u64 = 1000;

/// The view of [`FovResult`].
pub struct FovView {
    pub horizontal_fov_deg: nat,
    pub vertical_fov_deg: nat,
    pub horizontal_fov_m: nat,
    pub vertical_fov_m: nat,
    pub horizontal_ppm: nat,
    pub vertical_ppm: nat,
    pub distance_m: nat,
    pub dori: Option<DistancesView>,
}

/// What a camera sees at a working distance.
#[derive(Debug, Clone, Copy, PartialEq, Eq)]
pub struct FovResult {
    /// Horizontal field of view in degrees.
    pub horizontal_fov_deg: u64,
    /// Vertical field of view in degrees.
    pub vertical_fov_deg: u64,
    /// Width of the scene at the working distance, in metres.
    pub horizontal_fov_m: u64,
    /// Height of the scene at the working distance, in metres.
    pub vertical_fov_m: u64,
    /// Horizontal pixels per metre of scene.
    pub horizontal_ppm: u64,
    /// Vertical pixels per metre of scene.
    pub vertical_ppm: u64,
    /// The working distance in metres.
    pub distance_m: u64,
    /// The DORI distances of the camera.
    pub dori: Option<DoriDistances>,
}

impl View for FovResult {
    type V = FovView;

    open spec fn view(&self) -> FovView {
        FovView {
            horizontal_fov_deg: self.horizontal_fov_deg as nat,
            vertical_fov_deg: self.vertical_fov_deg as nat,
            horizontal_fov_m: self.horizontal_fov_m as nat,
            vertical_fov_m: self.vertical_fov_m as nat,
            horizontal_ppm: self.horizontal_ppm as nat,
            vertical_ppm: self.vertical_ppm as nat,
            distance_m: self.distance_m as nat,
            dori: match self.dori {
                Some(distances) => Some(distances@),
                None => None,
            },
        }
    }
}

impl FovView {
    /// The result in two lines: the two angles, the extent of the scene and
    /// the working distance; then the pixel densities.
    pub open spec fn description(self) -> Seq<char> {
        "FOV: "@ + decimal_text(self.horizontal_fov_deg, 2) + "° × "@ + decimal_text(
            self.vertical_fov_deg,
            2,
        ) + "° ("@ + decimal_text(self.horizontal_fov_m, 3) + " × "@ + decimal_text(
            self.vertical_fov_m,
            3,
        ) + " m @ "@ + decimal_text(self.distance_m, 2) + " m)\nResolution: "@ + decimal_text(
            self.horizontal_ppm,
            1,
        ) + " × "@ + decimal_text(self.vertical_ppm, 1) + " px/m"@
    }
}

impl FovResult {
    /// Describes the result in two lines of text.
    pub fn describe(&self) -> (text: String)
        ensures
            text@ == self@.description(),
    {
        let mut text = String::from_str("FOV: ");
        push_decimal(&mut text, self.horizontal_fov_deg, 2);
        text.append("° × ");
        push_decimal(&mut text, self.vertical_fov_deg, 2);
        text.append("° (");
        push_decimal(&mut text, self.horizontal_fov_m, 3);
        text.append(" × ");
        push_decimal(&mut text, self.vertical_fov_m, 3);
        text.append(" m @ ");
        push_decimal(&mut text, self.distance_m, 2);
        text.append(" m)\nResolution: ");
        push_decimal(&mut text, self.horizontal_ppm, 1);
        text.append(" × ");
        push_decimal(&mut text, self.vertical_ppm, 1);
        text.append(" px/m");
        text
    }
}

/// A length in metres, given in millimetres.
pub open spec fn in_metres(millimetres: nat) -> nat {
    mul_div(millimetres, 1, MM_PER_M as nat)
}

/// The extent of the scene, in metres, that one side of the sensor sees at
/// a distance: `distance * sensor / focal`, which is twice the distance
/// times the tangent of half the angle of view.
pub open spec fn scene_extent(distance_mm: nat, sensor: nat, focal: nat) -> nat {
    in_metres(mul_div(distance_mm, sensor, focal))
}

/// Pixels per metre along one side: `pixels / extent`.
pub open spec fn pixels_per_metre(pixels: nat, extent_m: nat) -> nat {
    mul_div(whole(pixels), SCALE as nat, extent_m)
}

/// What a camera sees at a working distance, the two angles of view taken
/// as given.
pub open spec fn fov_of(
    camera: CameraView,
    distance_mm: nat,
    horizontal_fov_deg: nat,
    vertical_fov_deg: nat,
) -> FovView {
    let width = scene_extent(distance_mm, camera.sensor_width, camera.focal_length);
    let height = scene_extent(distance_mm, camera.sensor_height, camera.focal_length);
    FovView {
        horizontal_fov_deg,
        vertical_fov_deg,
        horizontal_fov_m: width,
        vertical_fov_m: height,
        horizontal_ppm: pixels_per_metre(camera.pixel_width, width),
        vertical_ppm: pixels_per_metre(camera.pixel_height, height),
        distance_m: in_metres(distance_mm),
        dori: Some(distances_of(camera)),
    }
}

/// The hyperfocal distance: `focal^2 / (f_number * coc) + focal`, divided
/// first by the f-number and then by the circle of confusion.
pub open spec fn hyperfocal(focal: nat, f_number: nat, coc: nat) -> nat {
    sum(mul_div(mul_div(focal, focal, f_number), SCALE as nat, coc), focal)
}

/// The near limit of sharpness for an object at distance `s`:
/// `H * s / (H + (s - focal))`.
pub open spec fn near_limit(hyperfocal: nat, object: nat, focal: nat) -> nat {
    mul_div(hyperfocal, object, difference(sum(hyperfocal, object), focal))
}

/// The far limit of sharpness for an object at distance `s`:
/// `H * s / (H - (s - focal))` for an object nearer than the hyperfocal
/// distance, unbounded from there on.
pub open spec fn far_limit(hyperfocal: nat, object: nat, focal: nat) -> nat {
    if object < hyperfocal {
        mul_div(hyperfocal, object, difference(sum(hyperfocal, focal), object))
    } else {
        UNBOUNDED as nat
    }
}

/// The depth that stands for "unbounded": the largest 128-bit integer.
pub const UNBOUNDED_DEPTH: i128 = 0x7FFF_FFFF_FFFF_FFFF_FFFF_FFFF_FFFF_FFFF;

/// The depth between two limits: `far - near`, unbounded where the far limit
/// is.  It is negative where the far limit lies before the near limit.
pub open spec fn depth_between(near: nat, far: nat) -> int {
    if far >= UNBOUNDED {
        UNBOUNDED_DEPTH as int
    } else {
        far - near
    }
}

/// Near limit, far limit and the depth between them.
pub open spec fn depth_of_field(object: nat, focal: nat, f_number: nat, coc: nat) -> (
    nat,
    nat,
    int,
) {
    let h = hyperfocal(focal, f_number, coc);
    let near = near_limit(h, object, focal);
    let far = far_limit(h, object, focal);
    (near, far, depth_between(near, far))
}

/// The focal length that shows a sensor side under a given angle of view:
/// `(sensor / 2) / tan`, with the tangent of half the angle.
pub open spec fn focal_for_fov(sensor: nat, half_fov_tan: nat) -> nat {
    mul_div(sensor, HALF as nat, half_fov_tan)
}

/// The tangents of half the horizontal and half the vertical angle of view
/// of a camera: `sensor / (2 * focal)` for the width and the height of the
/// sensor.
pub open spec fn half_fov_tangents(camera: CameraView) -> (nat, nat) {
    (
        mul_div(camera.sensor_width, HALF as nat, camera.focal_length),
        mul_div(camera.sensor_height, HALF as nat, camera.focal_length),
    )
}

/// Calculates the tangents of half the horizontal and half the vertical
/// angle of view of a camera.  Twice the arc tangent of each is the angle.
pub fn calculate_half_fov_tangents(camera: &CameraSystem) -> (tangents: (u64, u64))
    ensures
        tangents.0 as nat == half_fov_tangents(camera@).0,
        tangents.1 as nat == half_fov_tangents(camera@).1,
{
    (
        mul_div_u64(camera.sensor_width_mm, HALF, camera.focal_length_mm),
        mul_div_u64(camera.sensor_height_mm, HALF, camera.focal_length_mm),
    )
}

/// A length in metres, given in millimetres.
fn metres(millimetres: u64) -> (r: u64)
    ensures
        r as nat == in_metres(millimetres as nat),
{
    mul_div_u64(millimetres, 1, MM_PER_M)
}

/// Calculates what a camera sees at a working distance: the extent of the
/// scene, the pixel density on it, and the DORI distances.
///
/// The two angles of view are the caller's, and are handed through as they
/// come: twice the arc tangent, in degrees, of what
/// [`calculate_half_fov_tangents`] gives for the camera.
pub fn calculate_fov(
    camera: &CameraSystem,
    distance_mm: u64,
    horizontal_fov_deg: u64,
    vertical_fov_deg: u64,
) -> (result: FovResult)
    ensures
        result@ == fov_of(
            camera@,
            distance_mm as nat,
            horizontal_fov_deg as nat,
            vertical_fov_deg as nat,
        ),
{
    let width: u64 = metres(mul_div_u64(distance_mm, camera.sensor_width_mm, camera.focal_length_mm));
    let height: u64 = metres(mul_div_u64(distance_mm, camera.sensor_height_mm, camera.focal_length_mm));
    FovResult {
        horizontal_fov_deg,
        vertical_fov_deg,
        horizontal_fov_m: width,
        vertical_fov_m: height,
        horizontal_ppm: mul_div_u64(whole_u64(camera.pixel_width), SCALE, width),
        vertical_ppm: mul_div_u64(whole_u64(camera.pixel_height), SCALE, height),
        distance_m: metres(distance_mm),
        dori: Some(calculate_dori_distances(camera)),
    }
}

/// Calculates what each of several cameras sees at one working distance.
///
/// The angles of view of a camera, horizontal and then vertical, stand at
/// the camera's position in `angles`.  A camera without angles, or angles
/// without a camera, are left out.
pub fn calculate_multiple_fov(
    cameras: &[CameraSystem],
    distance_mm: u64,
    angles: &[(u64, u64)],
) -> (results: Vec<FovResult>)
    ensures
        results@.len() == if cameras@.len() <= angles@.len() {
            cameras@.len()
        } else {
            angles@.len()
        },
        forall|i: int|
            0 <= i < results@.len() ==> (#[trigger] results@[i])@ == fov_of(
                cameras@[i]@,
                distance_mm as nat,
                angles@[i].0 as nat,
                angles@[i].1 as nat,
            ),
{
    let count: usize = if cameras.len() <= angles.len() {
        cameras.len()
    } else {
        angles.len()
    };
    let mut results: Vec<FovResult> = Vec::new();
    let mut next: usize = 0;
    while next < count
        invariant
            next <= count,
            count <= cameras@.len(),
            count <= angles@.len(),
            results@.len() == next,
            forall|i: int|
                0 <= i < next ==> (#[trigger] results@[i])@ == fov_of(
                    cameras@[i]@,
                    distance_mm as nat,
                    angles@[i].0 as nat,
                    angles@[i].1 as nat,
                ),
        decreases count - next,
    {
        let (horizontal, vertical) = angles[next];
        results.push(calculate_fov(&cameras[next], distance_mm, horizontal, vertical));
        next = next + 1;
    }
    results
}

/// Calculates the hyperfocal distance for a focal length, an aperture and a
/// circle of confusion.
pub fn calculate_hyperfocal(focal_length_mm: u64, f_number: u64, coc_mm: u64) -> (distance: u64)
    ensures
        distance as nat == hyperfocal(focal_length_mm as nat, f_number as nat, coc_mm as nat),
{
    let per_stop: u64 = mul_div_u64(focal_length_mm, focal_length_mm, f_number);
    sum_u64(mul_div_u64(per_stop, SCALE, coc_mm), focal_length_mm)
}

/// Calculates the depth of field: the near limit, the far limit and the
/// depth between them.  The depth is a signed number, because the far limit
/// lies before the near limit for an object nearer than the focal length.
pub fn calculate_dof(object_distance_mm: u64, focal_length_mm: u64, f_number: u64, coc_mm: u64) -> (limits: (
    u64,
    u64,
    i128,
))
    ensures
        limits.0 as nat == depth_of_field(
            object_distance_mm as nat,
            focal_length_mm as nat,
            f_number as nat,
            coc_mm as nat,
        ).0,
        limits.1 as nat == depth_of_field(
            object_distance_mm as nat,
            focal_length_mm as nat,
            f_number as nat,
            coc_mm as nat,
        ).1,
        limits.2 as int == depth_of_field(
            object_distance_mm as nat,
            focal_length_mm as nat,
            f_number as nat,
            coc_mm as nat,
        ).2,
{
    let h: u64 = calculate_hyperfocal(focal_length_mm, f_number, coc_mm);
    let near: u64 = mul_div_u64(
        h,
        object_distance_mm,
        difference_u64(sum_u64(h, object_distance_mm), focal_length_mm),
    );
    let far: u64 = if object_distance_mm < h {
        mul_div_u64(
            h,
            object_distance_mm,
            difference_u64(sum_u64(h, focal_length_mm), object_distance_mm),
        )
    } else {
        UNBOUNDED
    };
    let depth: i128 = if far == UNBOUNDED {
        UNBOUNDED_DEPTH
    } else {
        far as i128 - near as i128
    };
    (near, far, depth)
}

/// Calculates the focal length from a sensor size and the tangent of half
/// the angle of view.
pub fn calculate_focal_length_from_fov(sensor_size_mm: u64, half_fov_tan: u64) -> (focal: u64)
    ensures
        focal as nat == focal_for_fov(sensor_size_mm as nat, half_fov_tan as nat),
{
    mul_div_u64(sensor_size_mm, HALF, half_fov_tan)
}

/// For an object no nearer than the focal length, the far limit of
/// sharpness is not before the near limit, and the depth between them is
/// not negative.
pub proof fn lemma_far_is_beyond_near(object: nat, focal: nat, f_number: nat, coc: nat)
    requires
        focal <= object,
    ensures
        depth_of_field(object, focal, f_number, coc).0 <= depth_of_field(
            object,
            focal,
            f_number,
            coc,
        ).1,
        depth_of_field(object, focal, f_number, coc).2 >= 0,
{
    let h = hyperfocal(focal, f_number, coc);
    if object < h {
        let before = difference(sum(h, focal), object);
        let behind = difference(sum(h, object), focal);
        lemma_mul_div_shrinks_with_divisor(h, object, before, behind);
    }
}

} // verus!
