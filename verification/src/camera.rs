//! The camera: a sensor, its pixel grid and a lens.

use vstd::prelude::*;
use vstd::string::StringExecFns;
use crate::fixed::{mul_div, mul_div_u64, SCALE};
use crate::text::{decimal_text, digits, exact_text, push_decimal, push_digits, push_exact};

verus! {

/// One thousand, as a plain factor: micrometres per millimetre.
pub const MICRONS_PER_MM: u64 = 1000;

/// The view of [`CameraSystem`].
pub struct CameraView {
    pub sensor_width: nat,
    pub sensor_height: nat,
    pub pixel_width: nat,
    pub pixel_height: nat,
    pub focal_length: nat,
    pub name: Option<Seq<char>>,
}

/// A camera sensor with its lens.
#[derive(Debug, Clone)]
pub struct CameraSystem {
    /// Sensor width in millimetres.
    pub sensor_width_mm: u64,
    /// Sensor height in millimetres.
    pub sensor_height_mm: u64,
    /// Horizontal pixel count.
    pub pixel_width: u32,
    /// Vertical pixel count.
    pub pixel_height: u32,
    /// Lens focal length in millimetres.
    pub focal_length_mm: u64,
    /// Optional name for identification.
    pub name: Option<String>,
}

impl View for CameraSystem {
    type V = CameraView;

    open spec fn view(&self) -> CameraView {
        CameraView {
            sensor_width: self.sensor_width_mm as nat,
            sensor_height: self.sensor_height_mm as nat,
            pixel_width: self.pixel_width as nat,
            pixel_height: self.pixel_height as nat,
            focal_length: self.focal_length_mm as nat,
            name: match self.name {
                Some(text) => Some(text@),
                None => None,
            },
        }
    }
}

impl CameraView {
    /// Pixel pitch in micrometres, across and down: the sensor's size in
    /// micrometres over its pixel count.
    pub open spec fn pixel_pitch(self) -> (nat, nat) {
        (
            mul_div(self.sensor_width, MICRONS_PER_MM as nat, self.pixel_width),
            mul_div(self.sensor_height, MICRONS_PER_MM as nat, self.pixel_height),
        )
    }

    /// Width over height, of the sensor and of the pixel grid.
    pub open spec fn aspect_ratio(self) -> (nat, nat) {
        (
            mul_div(self.sensor_width, SCALE as nat, self.sensor_height),
            mul_div(self.pixel_width, SCALE as nat, self.pixel_height),
        )
    }

    /// The camera in one line: its name, or `Unnamed`; the sensor's sides
    /// and the focal length as exact decimals; the pixel counts; the pixel
    /// pitch to two decimal places.
    pub open spec fn description(self) -> Seq<char> {
        (match self.name {
            Some(name) => name,
            None => "Unnamed"@,
        }) + ": "@ + exact_text(self.sensor_width) + "x"@ + exact_text(self.sensor_height)
            + " mm sensor, "@ + digits(self.pixel_width) + "x"@ + digits(self.pixel_height)
            + " px ("@ + decimal_text(self.pixel_pitch().0, 2) + "x"@ + decimal_text(
            self.pixel_pitch().1,
            2,
        ) + " µm), "@ + exact_text(self.focal_length) + " mm lens"@
    }
}

impl CameraSystem {
    /// Creates a camera system without a name.
    pub fn new(
        sensor_width_mm: u64,
        sensor_height_mm: u64,
        pixel_width: u32,
        pixel_height: u32,
        focal_length_mm: u64,
    ) -> (camera: Self)
        ensures
            camera@ == (CameraView {
                sensor_width: sensor_width_mm as nat,
                sensor_height: sensor_height_mm as nat,
                pixel_width: pixel_width as nat,
                pixel_height: pixel_height as nat,
                focal_length: focal_length_mm as nat,
                name: None,
            }),
    {
        Self {
            sensor_width_mm,
            sensor_height_mm,
            pixel_width,
            pixel_height,
            focal_length_mm,
            name: None,
        }
    }

    /// Gives the camera system a name, replacing any earlier one.
    pub fn with_name(self, name: &str) -> (camera: Self)
        ensures
            camera@ == (CameraView { name: Some(name@), ..self@ }),
    {
        Self {
            sensor_width_mm: self.sensor_width_mm,
            sensor_height_mm: self.sensor_height_mm,
            pixel_width: self.pixel_width,
            pixel_height: self.pixel_height,
            focal_length_mm: self.focal_length_mm,
            name: Some(String::from_str(name)),
        }
    }

    /// Pixel pitch in micrometres, across and down.
    pub fn pixel_pitch_um(&self) -> (pitch: (u64, u64))
        ensures
            pitch.0 as nat == self@.pixel_pitch().0,
            pitch.1 as nat == self@.pixel_pitch().1,
    {
        (
            mul_div_u64(self.sensor_width_mm, MICRONS_PER_MM, self.pixel_width as u64),
            mul_div_u64(self.sensor_height_mm, MICRONS_PER_MM, self.pixel_height as u64),
        )
    }

    /// Aspect ratio, width over height, of the sensor and of the pixel grid.
    pub fn aspect_ratio(&self) -> (ratio: (u64, u64))
        ensures
            ratio.0 as nat == self@.aspect_ratio().0,
            ratio.1 as nat == self@.aspect_ratio().1,
    {
        (
            mul_div_u64(self.sensor_width_mm, SCALE, self.sensor_height_mm),
            mul_div_u64(self.pixel_width as u64, SCALE, self.pixel_height as u64),
        )
    }

    /// Describes the camera in one line of text.
    pub fn describe(&self) -> (text: String)
        ensures
            text@ == self@.description(),
    {
        let mut text = match &self.name {
            Some(name) => name.clone(),
            None => String::from_str("Unnamed"),
        };
        let (across, down) = self.pixel_pitch_um();
        text.append(": ");
        push_exact(&mut text, self.sensor_width_mm);
        text.append("x");
        push_exact(&mut text, self.sensor_height_mm);
        text.append(" mm sensor, ");
        push_digits(&mut text, self.pixel_width as u64);
        text.append("x");
        push_digits(&mut text, self.pixel_height as u64);
        text.append(" px (");
        push_decimal(&mut text, across, 2);
        text.append("x");
        push_decimal(&mut text, down, 2);
        text.append(" µm), ");
        push_exact(&mut text, self.focal_length_mm);
        text.append(" mm lens");
        text
    }
}

} // verus!
