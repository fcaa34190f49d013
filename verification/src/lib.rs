//! Camera optics for surveillance planning, in exact integer arithmetic.
//!
//! The crate answers two kinds of question.  Forwards: what does a camera
//! see at a distance, how far does it reach for each of the four DORI tasks
//! (detection, observation, recognition, identification), where does
//! sharpness begin and end.  Backwards: which sensor widths, pixel counts,
//! focal lengths and fields of view reach a given DORI distance, when some
//! of them are fixed already.
//!
//! Three conventions hold throughout.
//!
//! * Numbers are non-negative fixed-point decimals with nine places, held
//!   in a `u64`; the largest `u64` means "unbounded".  See [`fixed`].
//! * The crate does no trigonometry.  A field of view enters and leaves the
//!   solver as the tangent of half its angle, which is the sensor width
//!   over twice the focal length; degrees are the caller's business.
//! * Every function works on every input.  What a caller cannot sensibly
//!   mean, such as a focal length of zero, runs through the arithmetic and
//!   comes out unbounded or zero.
//!
//! Each function states what it returns as a function of its arguments,
//! and the functions marked `proof` state laws that follow.

pub mod camera;
pub mod dori;
pub mod fixed;
pub mod formulas;
pub mod solver;
pub mod text;
pub mod types;
pub mod validation;
