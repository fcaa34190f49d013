//! The camera record and what follows from it directly.

use camera_optics::camera::CameraSystem;

#[test]
fn a_new_camera_has_no_name() {
    let camera = CameraSystem::new(36_000_000_000, 24_000_000_000, 6000, 4000, 50_000_000_000);
    assert_eq!(camera.sensor_width_mm, 36_000_000_000);
    assert_eq!(camera.sensor_height_mm, 24_000_000_000);
    assert_eq!(camera.pixel_width, 6000);
    assert_eq!(camera.pixel_height, 4000);
    assert_eq!(camera.focal_length_mm, 50_000_000_000);
    assert_eq!(camera.name, None);
}

#[test]
fn a_name_is_kept_and_replaced() {
    let camera = CameraSystem::new(36_000_000_000, 24_000_000_000, 6000, 4000, 50_000_000_000)
        .with_name("Full Frame - 50mm");
    assert_eq!(camera.name.as_deref(), Some("Full Frame - 50mm"));
    assert_eq!(camera.pixel_width, 6000);
    let camera = camera.with_name("");
    assert_eq!(camera.name.as_deref(), Some(""));
    assert_eq!(camera.focal_length_mm, 50_000_000_000);
}

#[test]
fn pixel_pitch_is_the_sensor_in_micrometres_over_the_pixels() {
    let camera = CameraSystem::new(36_000_000_000, 24_000_000_000, 6000, 4000, 50_000_000_000);
    assert_eq!(camera.pixel_pitch_um(), (6_000_000_000, 6_000_000_000));
    // 6.4 mm over 1920 pixels: 3.333333333 micrometres; 4.8 mm over 1080: 4.444444444.
    let camera = CameraSystem::new(6_400_000_000, 4_800_000_000, 1920, 1080, 4_000_000_000);
    assert_eq!(camera.pixel_pitch_um(), (3_333_333_333, 4_444_444_444));
    let camera = CameraSystem::new(6_400_000_000, 4_800_000_000, 0, 1080, 4_000_000_000);
    assert_eq!(camera.pixel_pitch_um(), (u64::MAX, 4_444_444_444));
}

#[test]
fn aspect_ratios_are_width_over_height() {
    let camera = CameraSystem::new(36_000_000_000, 24_000_000_000, 6000, 4000, 50_000_000_000);
    assert_eq!(camera.aspect_ratio(), (1_500_000_000, 1_500_000_000));
    let camera = CameraSystem::new(6_400_000_000, 4_800_000_000, 1920, 1080, 4_000_000_000);
    assert_eq!(camera.aspect_ratio(), (1_333_333_333, 1_777_777_777));
    let camera = CameraSystem::new(6_400_000_000, 0, 1920, 0, 4_000_000_000);
    assert_eq!(camera.aspect_ratio(), (u64::MAX, u64::MAX));
}

#[test]
fn a_camera_is_described_in_one_line() {
    let camera = CameraSystem::new(36_000_000_000, 24_000_000_000, 6000, 4000, 50_000_000_000);
    assert_eq!(
        camera.describe(),
        "Unnamed: 36x24 mm sensor, 6000x4000 px (6.00x6.00 µm), 50 mm lens"
    );
    let camera = CameraSystem::new(23_500_000_000, 15_600_000_000, 6000, 4000, 35_000_000_000)
        .with_name("APS-C - 35mm");
    assert_eq!(
        camera.describe(),
        "APS-C - 35mm: 23.5x15.6 mm sensor, 6000x4000 px (3.92x3.90 µm), 35 mm lens"
    );
    let camera = CameraSystem::new(17_300_000_000, 13_000_000_000, 5184, 3888, 25_000_000_000)
        .with_name("Micro 4/3 - 25mm");
    assert_eq!(
        camera.describe(),
        "Micro 4/3 - 25mm: 17.3x13 mm sensor, 5184x3888 px (3.34x3.34 µm), 25 mm lens"
    );
}

#[test]
fn a_camera_of_extremes_is_described_too() {
    let camera = CameraSystem::new(1, u64::MAX, 0, u32::MAX, 1_000_000_010).with_name("");
    assert_eq!(
        camera.describe(),
        ": 0.000000001xinf mm sensor, 0x4294967295 px (infxinf µm), 1.00000001 mm lens"
    );
}
