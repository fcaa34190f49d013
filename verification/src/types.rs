//! The records that travel between a caller and the calculations.
//!
//! Every record is plain data.  Lengths, distances, densities and tangents are
//! fixed-point numbers (see [`crate::fixed`]); pixel counts that a caller
//! supplies are whole numbers.  Each record has a view that holds the same
//! data as natural numbers, so that the contracts can be written in ordinary
//! arithmetic.

use vstd::prelude::*;

verus! {

/// A closed interval of fixed-point numbers, as the contracts see it.
pub struct Interval {
    pub min: nat,
    pub max: nat,
}

/// The interval that holds a single value.
pub open spec fn point(value: nat) -> Interval {
    Interval { min: value, max: value }
}

/// Range of possible values for a parameter.
///
/// A range whose two ends are equal says that the value is computed, not
/// free.  A range whose `min` exceeds its `max` says that no value satisfies
/// the requirement.
#[derive(Debug, Clone, Copy, PartialEq, Eq)]
pub struct ParameterRange {
    pub min: u64,
    pub max: u64,
}

impl View for ParameterRange {
    type V = Interval;

    open spec fn view(&self) -> Interval {
        Interval { min: self.min as nat, max: self.max as nat }
    }
}

/// The view of a range that may be absent.
pub open spec fn interval_of(range: Option<ParameterRange>) -> Option<Interval> {
    match range {
        Some(r) => Some(r@),
        None => None,
    }
}

/// A fixed-point number that may be absent, as a natural number.
pub open spec fn value_of(field: Option<u64>) -> Option<nat> {
    match field {
        Some(v) => Some(v as nat),
        None => None,
    }
}

/// A pixel count that may be absent, as a natural number.
pub open spec fn count_of(field: Option<u32>) -> Option<nat> {
    match field {
        Some(n) => Some(n as nat),
        None => None,
    }
}

/// The four surveillance tasks of the DORI standard.
#[derive(Debug, Clone, Copy, PartialEq, Eq)]
pub enum DoriCategory {
    /// Notice that an object is present (25 px/m).
    Detection,
    /// Make out general characteristics (62.5 px/m).
    Observation,
    /// Recognise a familiar person or object (125 px/m).
    Recognition,
    /// Identify a specific person beyond reasonable doubt (250 px/m).
    Identification,
}

/// The view of [`DoriDistances`].
pub struct DistancesView {
    pub detection: nat,
    pub observation: nat,
    pub recognition: nat,
    pub identification: nat,
}

/// The distance, in metres, up to which each DORI task can be performed.
#[derive(Debug, Clone, Copy, PartialEq, Eq)]
pub struct DoriDistances {
    pub detection_m: u64,
    pub observation_m: u64,
    pub recognition_m: u64,
    pub identification_m: u64,
}

impl View for DoriDistances {
    type V = DistancesView;

    open spec fn view(&self) -> DistancesView {
        DistancesView {
            detection: self.detection_m as nat,
            observation: self.observation_m as nat,
            recognition: self.recognition_m as nat,
            identification: self.identification_m as nat,
        }
    }
}

/// The view of [`DoriTargets`].
pub struct TargetsView {
    pub detection: Option<nat>,
    pub observation: Option<nat>,
    pub recognition: Option<nat>,
    pub identification: Option<nat>,
}

/// Target DORI distances, in metres, for the inverse calculation.
///
/// At least one of them must be present for the solver to work.
#[derive(Debug, Clone, Copy, PartialEq, Eq)]
pub struct DoriTargets {
    pub detection_m: Option<u64>,
    pub observation_m: Option<u64>,
    pub recognition_m: Option<u64>,
    pub identification_m: Option<u64>,
}

impl View for DoriTargets {
    type V = TargetsView;

    open spec fn view(&self) -> TargetsView {
        TargetsView {
            detection: value_of(self.detection_m),
            observation: value_of(self.observation_m),
            recognition: value_of(self.recognition_m),
            identification: value_of(self.identification_m),
        }
    }
}

/// The view of [`ParameterConstraint`].
pub struct ConstraintView {
    pub sensor_width: Option<nat>,
    pub sensor_height: Option<nat>,
    pub pixel_width: Option<nat>,
    pub pixel_height: Option<nat>,
    pub focal_length: Option<nat>,
    pub fov_tan: Option<nat>,
}

/// The camera parameters that the caller has fixed.
///
/// The horizontal field of view is given by the tangent of half its angle,
/// which is the ratio of half the sensor width to the focal length.
#[derive(Debug, Clone, Copy, PartialEq, Eq)]
pub struct ParameterConstraint {
    pub sensor_width_mm: Option<u64>,
    pub sensor_height_mm: Option<u64>,
    pub pixel_width: Option<u32>,
    pub pixel_height: Option<u32>,
    pub focal_length_mm: Option<u64>,
    pub horizontal_fov_tan: Option<u64>,
}

impl View for ParameterConstraint {
    type V = ConstraintView;

    open spec fn view(&self) -> ConstraintView {
        ConstraintView {
            sensor_width: value_of(self.sensor_width_mm),
            sensor_height: value_of(self.sensor_height_mm),
            pixel_width: count_of(self.pixel_width),
            pixel_height: count_of(self.pixel_height),
            focal_length: value_of(self.focal_length_mm),
            fov_tan: value_of(self.horizontal_fov_tan),
        }
    }
}

/// The view of [`DoriParameterRanges`].
pub struct RangesView {
    pub sensor_width: Option<Interval>,
    pub sensor_height: Option<Interval>,
    pub pixel_width: Option<Interval>,
    pub pixel_height: Option<Interval>,
    pub focal_length: Option<Interval>,
    pub fov_tan: Option<Interval>,
}

/// Ranges of camera parameters that satisfy a DORI requirement.
///
/// A field is absent where the parameter was a fixed input.  Pixel ranges are
/// fixed-point numbers like the others; the field of view is again given by
/// the tangent of half its angle.
#[derive(Debug, Clone, Copy, PartialEq, Eq)]
pub struct DoriParameterRanges {
    pub sensor_width_mm: Option<ParameterRange>,
    pub sensor_height_mm: Option<ParameterRange>,
    pub pixel_width: Option<ParameterRange>,
    pub pixel_height: Option<ParameterRange>,
    pub focal_length_mm: Option<ParameterRange>,
    pub horizontal_fov_tan: Option<ParameterRange>,
}

impl View for DoriParameterRanges {
    type V = RangesView;

    open spec fn view(&self) -> RangesView {
        RangesView {
            sensor_width: interval_of(self.sensor_width_mm),
            sensor_height: interval_of(self.sensor_height_mm),
            pixel_width: interval_of(self.pixel_width),
            pixel_height: interval_of(self.pixel_height),
            focal_length: interval_of(self.focal_length_mm),
            fov_tan: interval_of(self.horizontal_fov_tan),
        }
    }
}

/// Why the solver gave no ranges.
#[derive(Debug, Clone, Copy, PartialEq, Eq)]
pub enum SolverError {
    /// None of the four target distances was given.
    NoTarget,
}

} // verus!
