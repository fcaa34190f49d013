//! DORI distances: how far away each surveillance task can still be done.
//!
//! The standard asks for a pixel density on the target: 25, 62.5, 125 and
//! 250 pixels per metre for detection, observation, recognition and
//! identification.  The four distances of one camera therefore always stand
//! in the ratios 10 : 4 : 2 : 1.

use vstd::prelude::*;
use vstd::arithmetic::div_mod::lemma_mod_mod;
use vstd::string::StringExecFns;
use crate::camera::{CameraSystem, CameraView};
use crate::fixed::{
    lemma_common_factor_cancels, lemma_mul_div_by_same, lemma_mul_div_grows_with_first,
    lemma_mul_div_grows_with_second, lemma_mul_div_shrinks_with_divisor, mul_div, mul_div_u64,
    whole, whole_u64, SCALE, UNBOUNDED,
};
use crate::types::{DistancesView, DoriCategory, DoriDistances};

verus! {

/// The largest density that divides all four: 12.5 px/m.
pub const DENSITY_STEP: u64 = 12_500_000_000;

/// Density that detection asks for: 25 px/m.
pub const DETECTION_PX_PER_M: u64 = 25_000_000_000;

/// Density that observation asks for: 62.5 px/m.
pub const OBSERVATION_PX_PER_M: u64 = 62_500_000_000;

/// Density that recognition asks for: 125 px/m.
pub const RECOGNITION_PX_PER_M: u64 = 125_000_000_000;

/// Density that identification asks for: 250 px/m.
pub const IDENTIFICATION_PX_PER_M: u64 = 250_000_000_000;

impl DoriCategory {
    /// The pixel density that the task asks for, in pixels per metre.
    pub open spec fn density(self) -> nat {
        match self {
            DoriCategory::Detection => DETECTION_PX_PER_M as nat,
            DoriCategory::Observation => OBSERVATION_PX_PER_M as nat,
            DoriCategory::Recognition => RECOGNITION_PX_PER_M as nat,
            DoriCategory::Identification => IDENTIFICATION_PX_PER_M as nat,
        }
    }

    /// The density in steps of 12.5 px/m: 2, 5, 10 and 20.
    pub open spec fn steps(self) -> nat {
        match self {
            DoriCategory::Detection => 2,
            DoriCategory::Observation => 5,
            DoriCategory::Recognition => 10,
            DoriCategory::Identification => 20,
        }
    }

    /// The pixel density that the task asks for, in pixels per metre.
    pub fn px_per_m(self) -> (r: u64)
        ensures
            r as nat == self.density(),
    {
        match self {
            DoriCategory::Detection => DETECTION_PX_PER_M,
            DoriCategory::Observation => OBSERVATION_PX_PER_M,
            DoriCategory::Recognition => RECOGNITION_PX_PER_M,
            DoriCategory::Identification => IDENTIFICATION_PX_PER_M,
        }
    }
}

impl DistancesView {
    /// The distances never increase from detection to identification.
    pub open spec fn descending(self) -> bool {
        self.detection >= self.observation >= self.recognition >= self.identification
    }

    /// The distance of one category.
    pub open spec fn at(self, category: DoriCategory) -> nat {
        match category {
            DoriCategory::Detection => self.detection,
            DoriCategory::Observation => self.observation,
            DoriCategory::Recognition => self.recognition,
            DoriCategory::Identification => self.identification,
        }
    }
}

/// The pixels that a camera puts on one metre of scene, one metre away:
/// `focal * pixels / sensor`.
pub open spec fn pixels_at_one_metre(camera: CameraView) -> nat {
    mul_div(camera.focal_length, whole(camera.pixel_width), camera.sensor_width)
}

/// The distance at which a camera still reaches the density of a category:
/// `focal * pixels / (sensor * density)`.
pub open spec fn reach(camera: CameraView, category: DoriCategory) -> nat {
    mul_div(pixels_at_one_metre(camera), SCALE as nat, category.density())
}

/// The four DORI distances of a camera.
pub open spec fn distances_of(camera: CameraView) -> DistancesView {
    DistancesView {
        detection: reach(camera, DoriCategory::Detection),
        observation: reach(camera, DoriCategory::Observation),
        recognition: reach(camera, DoriCategory::Recognition),
        identification: reach(camera, DoriCategory::Identification),
    }
}

/// The distance of one category that goes with a known distance of another:
/// `distance * density(source) / density(target)`.
pub open spec fn carried_over(distance: nat, source: DoriCategory, target: DoriCategory) -> nat {
    mul_div(distance, source.density(), target.density())
}

/// All four distances, filled in from one of them.
pub open spec fn distances_from(distance: nat, source: DoriCategory) -> DistancesView {
    DistancesView {
        detection: carried_over(distance, source, DoriCategory::Detection),
        observation: carried_over(distance, source, DoriCategory::Observation),
        recognition: carried_over(distance, source, DoriCategory::Recognition),
        identification: carried_over(distance, source, DoriCategory::Identification),
    }
}

/// The category that a lower-case name stands for.  Any text that is not one
/// of the four names stands for identification, the most demanding category.
pub open spec fn category_named(name: Seq<char>) -> DoriCategory {
    if name == "detection"@ {
        DoriCategory::Detection
    } else if name == "observation"@ {
        DoriCategory::Observation
    } else if name == "recognition"@ {
        DoriCategory::Recognition
    } else {
        DoriCategory::Identification
    }
}

/// What `str::to_lowercase` makes of a text.
pub uninterp spec fn lowercase_of(text: Seq<char>) -> Seq<char>;

/// Calls `str::to_lowercase` of the standard library.  Nothing is proved of
/// the result; the contract only gives it the name `lowercase_of`, which is
/// sound because the result depends on the characters of the text alone.
#[verifier::external_body]
fn lowercase(text: &str) -> (lowered: String)
    ensures
        lowered@ == lowercase_of(text@),
{
    text.to_lowercase()
}

/// Calculates the DORI distances of a camera.
///
/// The distances never increase from detection to identification.
pub fn calculate_dori_distances(camera: &CameraSystem) -> (distances: DoriDistances)
    ensures
        distances@ == distances_of(camera@),
        distances@.descending(),
{
    let at_one_metre: u64 = mul_div_u64(
        camera.focal_length_mm,
        whole_u64(camera.pixel_width),
        camera.sensor_width_mm,
    );
    DoriDistances {
        detection_m: mul_div_u64(at_one_metre, SCALE, DETECTION_PX_PER_M),
        observation_m: mul_div_u64(at_one_metre, SCALE, OBSERVATION_PX_PER_M),
        recognition_m: mul_div_u64(at_one_metre, SCALE, RECOGNITION_PX_PER_M),
        identification_m: mul_div_u64(at_one_metre, SCALE, IDENTIFICATION_PX_PER_M),
    }
}

/// Fills in all four DORI distances from the distance of one category.
///
/// The distances never increase from detection to identification.
pub fn dori_from_category(distance_m: u64, source: DoriCategory) -> (distances: DoriDistances)
    ensures
        distances@ == distances_from(distance_m as nat, source),
        distances@.descending(),
{
    let density: u64 = source.px_per_m();
    proof {
        let d = distance_m as nat;
        let p = density as nat;
        lemma_mul_div_shrinks_with_divisor(
            d,
            p,
            DETECTION_PX_PER_M as nat,
            OBSERVATION_PX_PER_M as nat,
        );
        lemma_mul_div_shrinks_with_divisor(
            d,
            p,
            OBSERVATION_PX_PER_M as nat,
            RECOGNITION_PX_PER_M as nat,
        );
        lemma_mul_div_shrinks_with_divisor(
            d,
            p,
            RECOGNITION_PX_PER_M as nat,
            IDENTIFICATION_PX_PER_M as nat,
        );
    }
    DoriDistances {
        detection_m: mul_div_u64(distance_m, density, DETECTION_PX_PER_M),
        observation_m: mul_div_u64(distance_m, density, OBSERVATION_PX_PER_M),
        recognition_m: mul_div_u64(distance_m, density, RECOGNITION_PX_PER_M),
        identification_m: mul_div_u64(distance_m, density, IDENTIFICATION_PX_PER_M),
    }
}

/// Reads a category from its lower-case name.
pub fn category_from_name(name: &str) -> (category: DoriCategory)
    ensures
        category == category_named(name@),
{
    let given = String::from_str(name);
    if given == String::from_str("detection") {
        DoriCategory::Detection
    } else if given == String::from_str("observation") {
        DoriCategory::Observation
    } else if given == String::from_str("recognition") {
        DoriCategory::Recognition
    } else {
        DoriCategory::Identification
    }
}

/// Fills in all four DORI distances from one distance and the name of its
/// category, in any mix of upper and lower case.
///
/// The distances never increase from detection to identification.
pub fn calculate_dori_from_single(distance_m: u64, dori_type: &str) -> (distances: DoriDistances)
    ensures
        distances@ == distances_from(distance_m as nat, category_named(lowercase_of(dori_type@))),
        distances@.descending(),
{
    let lowered = lowercase(dori_type);
    dori_from_category(distance_m, category_from_name(lowered.as_str()))
}

/// Largest difference, in billionths of a metre, that a round trip through
/// another category can make to a distance.
pub const ROUND_TRIP_SLACK: u64 = 10;

/// Two sets of distances that agree, each pair to within the slack, the
/// second set never above the first.
pub open spec fn agree(first: DistancesView, second: DistancesView) -> bool {
    &&& second.detection <= first.detection <= second.detection + ROUND_TRIP_SLACK
    &&& second.observation <= first.observation <= second.observation + ROUND_TRIP_SLACK
    &&& second.recognition <= first.recognition <= second.recognition + ROUND_TRIP_SLACK
    &&& second.identification <= first.identification <= second.identification
        + ROUND_TRIP_SLACK
}

/// A number times the steps of a category.
#[verifier::opaque]
spec fn in_steps(value: nat, category: DoriCategory) -> nat {
    match category {
        DoriCategory::Detection => 2 * value,
        DoriCategory::Observation => 5 * value,
        DoriCategory::Recognition => 10 * value,
        DoriCategory::Identification => 20 * value,
    }
}

/// A number over the steps of a category, rounded down.
#[verifier::opaque]
spec fn per_steps(value: nat, category: DoriCategory) -> nat {
    match category {
        DoriCategory::Detection => value / 2,
        DoriCategory::Observation => value / 5,
        DoriCategory::Recognition => value / 10,
        DoriCategory::Identification => value / 20,
    }
}

/// A number in steps is at most twenty times the number, and exactly that
/// for identification.
proof fn lemma_in_steps_is_bounded(value: nat, category: DoriCategory)
    ensures
        in_steps(value, category) <= 20 * value,
        category == DoriCategory::Identification ==> in_steps(value, category) == 20 * value,
{
    reveal(in_steps);
}

/// Multiplying by the steps of a category and dividing again changes
/// nothing.
proof fn lemma_steps_undone(value: nat, category: DoriCategory)
    ensures
        per_steps(in_steps(value, category), category) == value,
{
    reveal(in_steps);
    reveal(per_steps);
}

/// A number, or the unbounded number in its place if it is none of the
/// bounded ones.
spec fn bounded(value: nat) -> nat {
    if value >= UNBOUNDED {
        UNBOUNDED as nat
    } else {
        value
    }
}

/// Carrying a bounded distance over is multiplying by the ratio of the
/// densities in their lowest terms, as far as the bounded numbers go.
proof fn lemma_carried_over(distance: nat, source: DoriCategory, target: DoriCategory)
    requires
        distance < UNBOUNDED,
    ensures
        carried_over(distance, source, target) == bounded(
            per_steps(in_steps(distance, source), target),
        ),
{
    reveal(in_steps);
    reveal(per_steps);
    let a = source.steps();
    let b = target.steps();
    lemma_common_factor_cancels(distance, a, b, DENSITY_STEP as nat);
    assert(distance * a == in_steps(distance, source)) by (nonlinear_arith)
        requires
            a == source.steps(),
            in_steps(distance, source) == match source {
                DoriCategory::Detection => 2 * distance,
                DoriCategory::Observation => 5 * distance,
                DoriCategory::Recognition => 10 * distance,
                DoriCategory::Identification => 20 * distance,
            },
    {
        match source {
            DoriCategory::Detection => {},
            DoriCategory::Observation => {},
            DoriCategory::Recognition => {},
            DoriCategory::Identification => {},
        }
    }
}

/// Dividing by two and multiplying again.
proof fn lemma_halves(value: nat)
    ensures
        2 * (value / 2) <= value < 2 * (value / 2) + 2,
        value % 20 == 0 ==> 2 * (value / 2) == value,
{
    lemma_mod_mod(value as int, 2, 10);
}

/// Dividing by five and multiplying again.
proof fn lemma_fifths(value: nat)
    ensures
        5 * (value / 5) <= value < 5 * (value / 5) + 5,
        value % 20 == 0 ==> 5 * (value / 5) == value,
{
    lemma_mod_mod(value as int, 5, 4);
}

/// Dividing by ten and multiplying again.
proof fn lemma_tenths(value: nat)
    ensures
        10 * (value / 10) <= value < 10 * (value / 10) + 10,
        value % 20 == 0 ==> 10 * (value / 10) == value,
{
    lemma_mod_mod(value as int, 10, 2);
}

/// Dividing by twenty and multiplying again.
proof fn lemma_twentieths(value: nat)
    ensures
        20 * (value / 20) <= value < 20 * (value / 20) + 20,
        value % 20 == 0 ==> 20 * (value / 20) == value,
{
}

/// Dividing by the steps of a category and multiplying again loses less
/// than twenty, and nothing where the number is a multiple of twenty.
proof fn lemma_steps_there_and_back(value: nat, category: DoriCategory)
    ensures
        in_steps(per_steps(value, category), category) <= value,
        value < in_steps(per_steps(value, category), category) + 20,
        value % 20 == 0 ==> in_steps(per_steps(value, category), category) == value,
{
    reveal(in_steps);
    reveal(per_steps);
    match category {
        DoriCategory::Detection => lemma_halves(value),
        DoriCategory::Observation => lemma_fifths(value),
        DoriCategory::Recognition => lemma_tenths(value),
        DoriCategory::Identification => lemma_twentieths(value),
    }
}

/// Two numbers less than twenty apart are at most ten apart after division
/// by the steps of a category.
proof fn lemma_steps_keep_close(low: nat, high: nat, category: DoriCategory)
    requires
        low <= high < low + 20,
    ensures
        per_steps(low, category) <= per_steps(high, category) <= per_steps(low, category) + 10,
{
    reveal(per_steps);
}

/// The round trip of one distance: from `source` to `again`, and from there
/// to `target`, against the direct way from `source` to `target`.
proof fn lemma_round_trip_of_one(
    distance: nat,
    source: DoriCategory,
    again: DoriCategory,
    target: DoriCategory,
)
    requires
        carried_over(distance, source, again) < UNBOUNDED,
    ensures
        carried_over(carried_over(distance, source, again), again, target) <= carried_over(
            distance,
            source,
            target,
        ),
        carried_over(distance, source, target) <= carried_over(
            carried_over(distance, source, again),
            again,
            target,
        ) + ROUND_TRIP_SLACK,
        again == source || source == DoriCategory::Identification ==> carried_over(
            carried_over(distance, source, again),
            again,
            target,
        ) == carried_over(distance, source, target),
{
    let scaled = in_steps(distance, source);
    lemma_in_steps_is_bounded(distance, source);
    lemma_carried_over(distance, source, target);
    lemma_carried_over(distance, source, again);
    let halfway = per_steps(scaled, again);
    let back = in_steps(halfway, again);
    lemma_steps_there_and_back(scaled, again);
    lemma_steps_keep_close(back, scaled, target);
    lemma_carried_over(halfway, again, target);
    if again == source {
        lemma_steps_undone(distance, source);
    }
}

/// Round trip.  Fill in the four distances from one of them, take any of the
/// four and fill in again from that: the second set agrees with the first to
/// within ten billionths of a metre, which is what rounding down can lose.
/// Nothing at all is lost where the second filling starts from the category
/// of the first, or the first from identification.
///
/// The distance that the second filling starts from must be a bounded
/// number: an unbounded one cannot be carried back.
pub proof fn lemma_round_trip(distance: nat, source: DoriCategory, again: DoriCategory)
    requires
        distances_from(distance, source).at(again) < UNBOUNDED,
    ensures
        agree(
            distances_from(distance, source),
            distances_from(distances_from(distance, source).at(again), again),
        ),
        again == source || source == DoriCategory::Identification ==> distances_from(
            distances_from(distance, source).at(again),
            again,
        ) == distances_from(distance, source),
{
    lemma_round_trip_of_one(distance, source, again, DoriCategory::Detection);
    lemma_round_trip_of_one(distance, source, again, DoriCategory::Observation);
    lemma_round_trip_of_one(distance, source, again, DoriCategory::Recognition);
    lemma_round_trip_of_one(distance, source, again, DoriCategory::Identification);
}

/// The distances filled in from an identification distance are its exact
/// multiples: twice for recognition, four times for observation, ten times
/// for detection.
pub proof fn lemma_ratios(distance: nat)
    requires
        10 * distance < UNBOUNDED,
    ensures
        distances_from(distance, DoriCategory::Identification) == (DistancesView {
            detection: 10 * distance,
            observation: 4 * distance,
            recognition: 2 * distance,
            identification: distance,
        }),
{
    reveal(in_steps);
    reveal(per_steps);
    lemma_carried_over(distance, DoriCategory::Identification, DoriCategory::Detection);
    lemma_carried_over(distance, DoriCategory::Identification, DoriCategory::Observation);
    lemma_carried_over(distance, DoriCategory::Identification, DoriCategory::Recognition);
    lemma_carried_over(distance, DoriCategory::Identification, DoriCategory::Identification);
}

/// Filling in from a bounded distance keeps that distance in its own
/// category.
pub proof fn lemma_own_distance_is_kept(distance: nat, source: DoriCategory)
    requires
        distance < UNBOUNDED,
    ensures
        distances_from(distance, source).at(source) == distance,
{
    lemma_mul_div_by_same(distance, source.density());
}

/// A camera with a longer lens, more pixels across and a narrower sensor
/// reaches at least as far in every category.
pub proof fn lemma_reach_grows(weaker: CameraView, stronger: CameraView, category: DoriCategory)
    requires
        weaker.focal_length <= stronger.focal_length,
        weaker.pixel_width <= stronger.pixel_width,
        weaker.sensor_width >= stronger.sensor_width,
    ensures
        reach(weaker, category) <= reach(stronger, category),
{
    let pixels = whole(weaker.pixel_width);
    let more_pixels = whole(stronger.pixel_width);
    assert(pixels <= more_pixels) by (nonlinear_arith)
        requires
            pixels == weaker.pixel_width * SCALE as nat,
            more_pixels == stronger.pixel_width * SCALE as nat,
            weaker.pixel_width <= stronger.pixel_width,
    ;
    lemma_mul_div_grows_with_first(
        weaker.focal_length,
        stronger.focal_length,
        pixels,
        weaker.sensor_width,
    );
    lemma_mul_div_grows_with_second(
        stronger.focal_length,
        pixels,
        more_pixels,
        weaker.sensor_width,
    );
    lemma_mul_div_shrinks_with_divisor(
        stronger.focal_length,
        more_pixels,
        stronger.sensor_width,
        weaker.sensor_width,
    );
    lemma_mul_div_grows_with_first(
        pixels_at_one_metre(weaker),
        pixels_at_one_metre(stronger),
        SCALE as nat,
        category.density(),
    );
}

} // verus!
