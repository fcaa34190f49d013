//! Plausibility checks on a camera and on what was calculated for it.
//!
//! A check is a list of rules, applied in a fixed order.  Each rule that
//! fires adds one finding: a message and how serious it is.

use vstd::prelude::*;
use vstd::string::StringExecFns;
use crate::camera::{CameraSystem, CameraView};
use crate::fixed::{gap, gap_u64, mul_div, mul_div_u64, SCALE};
use crate::formulas::{FovResult, FovView};
use crate::text::{decimal_text, digits, push_decimal, push_digits};
use crate::types::{DistancesView, DoriDistances};

verus! {

/// How serious a finding is.
#[derive(Debug, Clone, Copy, PartialEq, Eq)]
pub enum ValidationSeverity {
    /// Unusual, but possible.
    Warning,
    /// Cannot be right.
    Error,
}

/// The view of [`ValidationWarning`].
pub struct WarningView {
    pub message: Seq<char>,
    pub severity: ValidationSeverity,
}

/// One finding of a plausibility check.
#[derive(Debug, Clone)]
pub struct ValidationWarning {
    pub message: String,
    pub severity: ValidationSeverity,
}

impl View for ValidationWarning {
    type V = WarningView;

    open spec fn view(&self) -> WarningView {
        WarningView { message: self.message@, severity: self.severity }
    }
}

/// A camera together with what was calculated for it.
#[derive(Debug, Clone)]
pub struct CameraWithResult {
    pub camera: CameraSystem,
    pub result: FovResult,
}

/// Smallest plausible side of a sensor, and shortest plausible focal
/// length: 1 mm.
pub const SHORTEST_MM: u64 = 1_000_000_000;

/// Largest plausible side of a sensor: 100 mm.
pub const LARGEST_SENSOR_MM: u64 = 100_000_000_000;

/// Longest plausible focal length: 2000 mm.
pub const LONGEST_FOCAL_MM: u64 = 2_000_000_000_000;

/// Fewest plausible pixels along a side.
pub const FEWEST_PIXELS: u32 = 100;

/// Most plausible pixels along a side.
pub const MOST_PIXELS: u32 = 50_000;

/// Smallest plausible pixel pitch: 0.5 micrometres.
pub const SMALLEST_PITCH_UM: u64 = 500_000_000;

/// Largest usual pixel pitch: 20 micrometres.
pub const LARGEST_PITCH_UM: u64 = 20_000_000_000;

/// How far the aspect ratio of the pixel grid may be from that of the
/// sensor, as a part of the latter: 0.05.
pub const ASPECT_TOLERANCE: u64 = 50_000_000;

/// How far apart the two pixel pitches may be, in percent of the
/// horizontal one, for the pixels to count as square: 5.
pub const SQUARE_TOLERANCE_PERCENT: u64 = 5_000_000_000;

/// Widest possible angle of view: 180 degrees.
pub const WIDEST_FOV_DEG: u64 = 180_000_000_000;

/// Narrowest plausible angle of view: 0.1 degrees.
pub const NARROWEST_FOV_DEG: u64 = 100_000_000;

/// Highest plausible pixel density: 100000 px/m.
pub const HIGHEST_PPM: u64 = 100_000_000_000_000;

/// Lowest plausible pixel density: 0.001 px/m.
pub const LOWEST_PPM: u64 = 1_000_000;

/// Shortest plausible detection distance: 0.1 m.
pub const SHORTEST_DETECTION_M: u64 = 100_000_000;

/// Longest plausible detection distance: 10000 m.
pub const LONGEST_DETECTION_M: u64 = 10_000_000_000_000;

/// One hundred, as a plain factor: percent per unit.
pub const PERCENT: u64 = 100;

/// A finding, if its rule fires.
pub open spec fn when(fires: bool, message: Seq<char>, severity: ValidationSeverity) -> Seq<
    WarningView,
> {
    if fires {
        seq![WarningView { message, severity }]
    } else {
        Seq::empty()
    }
}

/// The views of a list of findings.
pub open spec fn views(findings: Seq<ValidationWarning>) -> Seq<WarningView> {
    findings.map_values(|w: ValidationWarning| w@)
}

/// The finding that a rule gave, as a list of none or one.
pub open spec fn found(finding: Option<ValidationWarning>) -> Seq<WarningView> {
    match finding {
        Some(w) => seq![w@],
        None => Seq::empty(),
    }
}

/// How far `other` is from `base`, as a part of `base`.
pub open spec fn deviation(base: nat, other: nat) -> nat {
    mul_div(gap(base, other), SCALE as nat, base)
}

/// A part as a percentage.
pub open spec fn percent(part: nat) -> nat {
    mul_div(part, PERCENT as nat, 1)
}

/// The findings on a camera, in the order of the rules: the sensor's
/// width and height, the focal length, the pixel counts, the pixel pitch
/// across and down, the aspect ratios of sensor and pixel grid, and the
/// squareness of the pixels.
pub open spec fn camera_findings(c: CameraView) -> Seq<WarningView> {
    let pitch = c.pixel_pitch();
    let aspect = c.aspect_ratio();
    Seq::empty() + when(
        c.sensor_width < SHORTEST_MM,
        "Sensor width ("@ + decimal_text(c.sensor_width, 2) + " mm) is unrealistically small"@,
        ValidationSeverity::Error,
    ) + when(
        c.sensor_width > LARGEST_SENSOR_MM,
        "Sensor width ("@ + decimal_text(c.sensor_width, 2) + " mm) is unrealistically large"@,
        ValidationSeverity::Warning,
    ) + when(
        c.sensor_height < SHORTEST_MM,
        "Sensor height ("@ + decimal_text(c.sensor_height, 2) + " mm) is unrealistically small"@,
        ValidationSeverity::Error,
    ) + when(
        c.sensor_height > LARGEST_SENSOR_MM,
        "Sensor height ("@ + decimal_text(c.sensor_height, 2) + " mm) is unrealistically large"@,
        ValidationSeverity::Warning,
    ) + when(
        c.focal_length < SHORTEST_MM,
        "Focal length ("@ + decimal_text(c.focal_length, 2) + " mm) is unrealistically short"@,
        ValidationSeverity::Error,
    ) + when(
        c.focal_length > LONGEST_FOCAL_MM,
        "Focal length ("@ + decimal_text(c.focal_length, 0) + " mm) is extremely long"@,
        ValidationSeverity::Warning,
    ) + when(
        c.pixel_width < FEWEST_PIXELS,
        "Pixel width ("@ + digits(c.pixel_width) + " px) is unrealistically low"@,
        ValidationSeverity::Error,
    ) + when(
        c.pixel_width > MOST_PIXELS,
        "Pixel width ("@ + digits(c.pixel_width) + " px) is unrealistically high"@,
        ValidationSeverity::Warning,
    ) + when(
        c.pixel_height < FEWEST_PIXELS,
        "Pixel height ("@ + digits(c.pixel_height) + " px) is unrealistically low"@,
        ValidationSeverity::Error,
    ) + when(
        c.pixel_height > MOST_PIXELS,
        "Pixel height ("@ + digits(c.pixel_height) + " px) is unrealistically high"@,
        ValidationSeverity::Warning,
    ) + when(
        pitch.0 < SMALLEST_PITCH_UM,
        "Horizontal pixel pitch ("@ + decimal_text(pitch.0, 2) + " µm) is unrealistically small"@,
        ValidationSeverity::Error,
    ) + when(
        pitch.0 > LARGEST_PITCH_UM,
        "Horizontal pixel pitch ("@ + decimal_text(pitch.0, 2) + " µm) is unusually large"@,
        ValidationSeverity::Warning,
    ) + when(
        pitch.1 < SMALLEST_PITCH_UM,
        "Vertical pixel pitch ("@ + decimal_text(pitch.1, 2) + " µm) is unrealistically small"@,
        ValidationSeverity::Error,
    ) + when(
        pitch.1 > LARGEST_PITCH_UM,
        "Vertical pixel pitch ("@ + decimal_text(pitch.1, 2) + " µm) is unusually large"@,
        ValidationSeverity::Warning,
    ) + when(
        deviation(aspect.0, aspect.1) > ASPECT_TOLERANCE,
        "Sensor aspect ratio ("@ + decimal_text(aspect.0, 3)
            + ":1) doesn't match pixel aspect ratio ("@ + decimal_text(aspect.1, 3)
            + ":1) - difference: "@ + decimal_text(percent(deviation(aspect.0, aspect.1)), 1)
            + "%"@,
        ValidationSeverity::Error,
    ) + when(
        percent(deviation(pitch.0, pitch.1)) > SQUARE_TOLERANCE_PERCENT,
        "Pixels are not square: horizontal pitch ("@ + decimal_text(pitch.0, 2)
            + " µm) differs from vertical pitch ("@ + decimal_text(pitch.1, 2) + " µm) by "@
            + decimal_text(percent(deviation(pitch.0, pitch.1)), 1) + "%"@,
        ValidationSeverity::Warning,
    )
}

/// The findings on a set of DORI distances: an implausible detection
/// distance, and each pair of neighbours that stands the wrong way round.
pub open spec fn distance_findings(d: DistancesView) -> Seq<WarningView> {
    Seq::empty() + when(
        d.detection < SHORTEST_DETECTION_M || d.detection > LONGEST_DETECTION_M,
        "Detection distance ("@ + decimal_text(d.detection, 0) + " m) seems unrealistic"@,
        ValidationSeverity::Warning,
    ) + when(
        d.detection < d.observation,
        "Detection distance should be greater than Observation distance"@,
        ValidationSeverity::Error,
    ) + when(
        d.observation < d.recognition,
        "Observation distance should be greater than Recognition distance"@,
        ValidationSeverity::Error,
    ) + when(
        d.recognition < d.identification,
        "Recognition distance should be greater than Identification distance"@,
        ValidationSeverity::Error,
    )
}

/// The findings on a result, in the order of the rules: the horizontal and
/// the vertical angle of view, the pixel densities, and the DORI distances
/// where the result holds them.
pub open spec fn result_findings(r: FovView) -> Seq<WarningView> {
    Seq::empty() + when(
        r.horizontal_fov_deg > WIDEST_FOV_DEG,
        "Horizontal FOV ("@ + decimal_text(r.horizontal_fov_deg, 1)
            + "°) exceeds 180° - physically impossible"@,
        ValidationSeverity::Error,
    ) + when(
        r.horizontal_fov_deg < NARROWEST_FOV_DEG,
        "Horizontal FOV ("@ + decimal_text(r.horizontal_fov_deg, 2)
            + "°) is extremely narrow - may be unrealistic"@,
        ValidationSeverity::Warning,
    ) + when(
        r.vertical_fov_deg > WIDEST_FOV_DEG,
        "Vertical FOV ("@ + decimal_text(r.vertical_fov_deg, 1)
            + "°) exceeds 180° - physically impossible"@,
        ValidationSeverity::Error,
    ) + when(
        r.vertical_fov_deg < NARROWEST_FOV_DEG,
        "Vertical FOV ("@ + decimal_text(r.vertical_fov_deg, 2)
            + "°) is extremely narrow - may be unrealistic"@,
        ValidationSeverity::Warning,
    ) + when(
        r.horizontal_ppm > HIGHEST_PPM || r.vertical_ppm > HIGHEST_PPM,
        "Pixels per meter ("@ + decimal_text(r.horizontal_ppm, 1) + " × "@ + decimal_text(
            r.vertical_ppm,
            1,
        ) + " px/m) is unrealistically high"@,
        ValidationSeverity::Warning,
    ) + when(
        r.horizontal_ppm < LOWEST_PPM || r.vertical_ppm < LOWEST_PPM,
        "Pixels per meter ("@ + decimal_text(r.horizontal_ppm, 6) + " × "@ + decimal_text(
            r.vertical_ppm,
            6,
        ) + " px/m) is unrealistically low"@,
        ValidationSeverity::Warning,
    ) + match r.dori {
        Some(d) => distance_findings(d),
        None => Seq::empty(),
    }
}

/// A text as a message of its own.
fn message_of(text: &str) -> (message: String)
    ensures
        message@ == text@,
{
    String::from_str(text)
}

/// The finding of a rule about one measure, if the rule fires.
fn measure_rule(
    fires: bool,
    before: &str,
    value: u64,
    places: u32,
    after: &str,
    severity: ValidationSeverity,
) -> (finding: Option<ValidationWarning>)
    ensures
        found(finding) == when(
            fires,
            before@ + decimal_text(value as nat, places as nat) + after@,
            severity,
        ),
{
    if fires {
        let mut message = message_of(before);
        push_decimal(&mut message, value, places);
        message.append(after);
        Some(ValidationWarning { message, severity })
    } else {
        None
    }
}

/// The finding of a rule about a pixel count, if the rule fires.
fn count_rule(fires: bool, before: &str, count: u32, after: &str, severity: ValidationSeverity) -> (finding:
    Option<ValidationWarning>)
    ensures
        found(finding) == when(fires, before@ + digits(count as nat) + after@, severity),
{
    if fires {
        let mut message = message_of(before);
        push_digits(&mut message, count as u64);
        message.append(after);
        Some(ValidationWarning { message, severity })
    } else {
        None
    }
}

/// The finding of a rule about two measures, if the rule fires.
fn pair_rule(
    fires: bool,
    before: &str,
    first: u64,
    between: &str,
    second: u64,
    places: u32,
    after: &str,
    severity: ValidationSeverity,
) -> (finding: Option<ValidationWarning>)
    ensures
        found(finding) == when(
            fires,
            before@ + decimal_text(first as nat, places as nat) + between@ + decimal_text(
                second as nat,
                places as nat,
            ) + after@,
            severity,
        ),
{
    if fires {
        let mut message = message_of(before);
        push_decimal(&mut message, first, places);
        message.append(between);
        push_decimal(&mut message, second, places);
        message.append(after);
        Some(ValidationWarning { message, severity })
    } else {
        None
    }
}

/// The finding of a rule that compares two measures of one kind and says
/// by how many percent they differ, if the rule fires.
fn mismatch_rule(
    fires: bool,
    before: &str,
    first: u64,
    between: &str,
    second: u64,
    places: u32,
    then: &str,
    percentage: u64,
    severity: ValidationSeverity,
) -> (finding: Option<ValidationWarning>)
    ensures
        found(finding) == when(
            fires,
            before@ + decimal_text(first as nat, places as nat) + between@ + decimal_text(
                second as nat,
                places as nat,
            ) + then@ + decimal_text(percentage as nat, 1) + "%"@,
            severity,
        ),
{
    if fires {
        let mut message = message_of(before);
        push_decimal(&mut message, first, places);
        message.append(between);
        push_decimal(&mut message, second, places);
        message.append(then);
        push_decimal(&mut message, percentage, 1);
        message.append("%");
        Some(ValidationWarning { message, severity })
    } else {
        None
    }
}

/// The finding of a rule whose message holds no measure, if the rule fires.
fn plain_rule(fires: bool, text: &str, severity: ValidationSeverity) -> (finding: Option<
    ValidationWarning,
>)
    ensures
        found(finding) == when(fires, text@, severity),
{
    if fires {
        Some(ValidationWarning { message: message_of(text), severity })
    } else {
        None
    }
}

/// Adds the finding of a rule to the list, if there is one.
fn keep(list: &mut Vec<ValidationWarning>, finding: Option<ValidationWarning>)
    ensures
        views(final(list)@) == views(old(list)@) + found(finding),
{
    if let Some(warning) = finding {
        list.push(warning);
    }
}

/// How far `other` is from `base`, as a part of `base`.
fn deviation_of(base: u64, other: u64) -> (part: u64)
    ensures
        part as nat == deviation(base as nat, other as nat),
{
    mul_div_u64(gap_u64(base, other), SCALE, base)
}

/// A part as a percentage.
fn in_percent(part: u64) -> (r: u64)
    ensures
        r as nat == percent(part as nat),
{
    mul_div_u64(part, PERCENT, 1)
}

impl CameraSystem {
    /// Checks the camera for implausible values and returns the findings.
    pub fn validate(&self) -> (warnings: Vec<ValidationWarning>)
        ensures
            views(warnings@) == camera_findings(self@),
    {
        let mut list: Vec<ValidationWarning> = Vec::new();
        assert(views(list@) =~= Seq::empty());
        keep(
            &mut list,
            measure_rule(
                self.sensor_width_mm < SHORTEST_MM,
                "Sensor width (",
                self.sensor_width_mm,
                2,
                " mm) is unrealistically small",
                ValidationSeverity::Error,
            ),
        );
        keep(
            &mut list,
            measure_rule(
                self.sensor_width_mm > LARGEST_SENSOR_MM,
                "Sensor width (",
                self.sensor_width_mm,
                2,
                " mm) is unrealistically large",
                ValidationSeverity::Warning,
            ),
        );
        keep(
            &mut list,
            measure_rule(
                self.sensor_height_mm < SHORTEST_MM,
                "Sensor height (",
                self.sensor_height_mm,
                2,
                " mm) is unrealistically small",
                ValidationSeverity::Error,
            ),
        );
        keep(
            &mut list,
            measure_rule(
                self.sensor_height_mm > LARGEST_SENSOR_MM,
                "Sensor height (",
                self.sensor_height_mm,
                2,
                " mm) is unrealistically large",
                ValidationSeverity::Warning,
            ),
        );
        keep(
            &mut list,
            measure_rule(
                self.focal_length_mm < SHORTEST_MM,
                "Focal length (",
                self.focal_length_mm,
                2,
                " mm) is unrealistically short",
                ValidationSeverity::Error,
            ),
        );
        keep(
            &mut list,
            measure_rule(
                self.focal_length_mm > LONGEST_FOCAL_MM,
                "Focal length (",
                self.focal_length_mm,
                0,
                " mm) is extremely long",
                ValidationSeverity::Warning,
            ),
        );
        keep(
            &mut list,
            count_rule(
                self.pixel_width < FEWEST_PIXELS,
                "Pixel width (",
                self.pixel_width,
                " px) is unrealistically low",
                ValidationSeverity::Error,
            ),
        );
        keep(
            &mut list,
            count_rule(
                self.pixel_width > MOST_PIXELS,
                "Pixel width (",
                self.pixel_width,
                " px) is unrealistically high",
                ValidationSeverity::Warning,
            ),
        );
        keep(
            &mut list,
            count_rule(
                self.pixel_height < FEWEST_PIXELS,
                "Pixel height (",
                self.pixel_height,
                " px) is unrealistically low",
                ValidationSeverity::Error,
            ),
        );
        keep(
            &mut list,
            count_rule(
                self.pixel_height > MOST_PIXELS,
                "Pixel height (",
                self.pixel_height,
                " px) is unrealistically high",
                ValidationSeverity::Warning,
            ),
        );
        let (across, down) = self.pixel_pitch_um();
        keep(
            &mut list,
            measure_rule(
                across < SMALLEST_PITCH_UM,
                "Horizontal pixel pitch (",
                across,
                2,
                " µm) is unrealistically small",
                ValidationSeverity::Error,
            ),
        );
        keep(
            &mut list,
            measure_rule(
                across > LARGEST_PITCH_UM,
                "Horizontal pixel pitch (",
                across,
                2,
                " µm) is unusually large",
                ValidationSeverity::Warning,
            ),
        );
        keep(
            &mut list,
            measure_rule(
                down < SMALLEST_PITCH_UM,
                "Vertical pixel pitch (",
                down,
                2,
                " µm) is unrealistically small",
                ValidationSeverity::Error,
            ),
        );
        keep(
            &mut list,
            measure_rule(
                down > LARGEST_PITCH_UM,
                "Vertical pixel pitch (",
                down,
                2,
                " µm) is unusually large",
                ValidationSeverity::Warning,
            ),
        );
        let (of_sensor, of_pixels) = self.aspect_ratio();
        let aspect_off: u64 = deviation_of(of_sensor, of_pixels);
        keep(
            &mut list,
            mismatch_rule(
                aspect_off > ASPECT_TOLERANCE,
                "Sensor aspect ratio (",
                of_sensor,
                ":1) doesn't match pixel aspect ratio (",
                of_pixels,
                3,
                ":1) - difference: ",
                in_percent(aspect_off),
                ValidationSeverity::Error,
            ),
        );
        let pitch_off: u64 = in_percent(deviation_of(across, down));
        keep(
            &mut list,
            mismatch_rule(
                pitch_off > SQUARE_TOLERANCE_PERCENT,
                "Pixels are not square: horizontal pitch (",
                across,
                " µm) differs from vertical pitch (",
                down,
                2,
                " µm) by ",
                pitch_off,
                ValidationSeverity::Warning,
            ),
        );
        list
    }
}

/// Checks a set of DORI distances and returns the findings.
pub fn validate_distances(distances: &DoriDistances) -> (warnings: Vec<ValidationWarning>)
    ensures
        views(warnings@) == distance_findings(distances@),
{
    let mut list: Vec<ValidationWarning> = Vec::new();
    assert(views(list@) =~= Seq::empty());
    keep(
        &mut list,
        measure_rule(
            distances.detection_m < SHORTEST_DETECTION_M || distances.detection_m
                > LONGEST_DETECTION_M,
            "Detection distance (",
            distances.detection_m,
            0,
            " m) seems unrealistic",
            ValidationSeverity::Warning,
        ),
    );
    keep(
        &mut list,
        plain_rule(
            distances.detection_m < distances.observation_m,
            "Detection distance should be greater than Observation distance",
            ValidationSeverity::Error,
        ),
    );
    keep(
        &mut list,
        plain_rule(
            distances.observation_m < distances.recognition_m,
            "Observation distance should be greater than Recognition distance",
            ValidationSeverity::Error,
        ),
    );
    keep(
        &mut list,
        plain_rule(
            distances.recognition_m < distances.identification_m,
            "Recognition distance should be greater than Identification distance",
            ValidationSeverity::Error,
        ),
    );
    list
}

impl FovResult {
    /// Checks the result for implausible values and returns the findings.
    pub fn validate(&self) -> (warnings: Vec<ValidationWarning>)
        ensures
            views(warnings@) == result_findings(self@),
    {
        let mut list: Vec<ValidationWarning> = Vec::new();
        assert(views(list@) =~= Seq::empty());
        keep(
            &mut list,
            measure_rule(
                self.horizontal_fov_deg > WIDEST_FOV_DEG,
                "Horizontal FOV (",
                self.horizontal_fov_deg,
                1,
                "°) exceeds 180° - physically impossible",
                ValidationSeverity::Error,
            ),
        );
        keep(
            &mut list,
            measure_rule(
                self.horizontal_fov_deg < NARROWEST_FOV_DEG,
                "Horizontal FOV (",
                self.horizontal_fov_deg,
                2,
                "°) is extremely narrow - may be unrealistic",
                ValidationSeverity::Warning,
            ),
        );
        keep(
            &mut list,
            measure_rule(
                self.vertical_fov_deg > WIDEST_FOV_DEG,
                "Vertical FOV (",
                self.vertical_fov_deg,
                1,
                "°) exceeds 180° - physically impossible",
                ValidationSeverity::Error,
            ),
        );
        keep(
            &mut list,
            measure_rule(
                self.vertical_fov_deg < NARROWEST_FOV_DEG,
                "Vertical FOV (",
                self.vertical_fov_deg,
                2,
                "°) is extremely narrow - may be unrealistic",
                ValidationSeverity::Warning,
            ),
        );
        keep(
            &mut list,
            pair_rule(
                self.horizontal_ppm > HIGHEST_PPM || self.vertical_ppm > HIGHEST_PPM,
                "Pixels per meter (",
                self.horizontal_ppm,
                " × ",
                self.vertical_ppm,
                1,
                " px/m) is unrealistically high",
                ValidationSeverity::Warning,
            ),
        );
        keep(
            &mut list,
            pair_rule(
                self.horizontal_ppm < LOWEST_PPM || self.vertical_ppm < LOWEST_PPM,
                "Pixels per meter (",
                self.horizontal_ppm,
                " × ",
                self.vertical_ppm,
                6,
                " px/m) is unrealistically low",
                ValidationSeverity::Warning,
            ),
        );
        let ghost before = views(list@);
        match self.dori {
            Some(distances) => {
                let mut others = validate_distances(&distances);
                let ghost added = others@;
                list.append(&mut others);
                assert(views(list@) =~= before + views(added));
            },
            None => {
                assert(views(list@) =~= before + Seq::empty());
            },
        }
        list
    }
}

impl CameraWithResult {
    /// Checks the camera and then the result, and returns all findings.
    pub fn validate(&self) -> (warnings: Vec<ValidationWarning>)
        ensures
            views(warnings@) == camera_findings(self.camera@) + result_findings(self.result@),
    {
        let mut list = self.camera.validate();
        let mut others = self.result.validate();
        let ghost first = list@;
        let ghost second = others@;
        list.append(&mut others);
        assert(views(list@) =~= views(first) + views(second));
        list
    }
}

} // verus!
