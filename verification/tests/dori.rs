//! DORI distances in everyday numbers: millimetres and metres as decimals,
//! turned into fixed-point values on the way in and back on the way out.

use camera_optics::camera::CameraSystem;
use camera_optics::dori::{
    calculate_dori_distances, calculate_dori_from_single, category_from_name, dori_from_category,
};
use camera_optics::types::{DoriCategory, DoriDistances};

/// The four distances in metres.
struct Distances {
    detection_m: f64,
    observation_m: f64,
    recognition_m: f64,
    identification_m: f64,
}

fn to_fixed(value: f64) -> u64 {
    (value * 1e9).round() as u64
}

fn to_real(value: u64) -> f64 {
    value as f64 / 1e9
}

fn everyday(distances: DoriDistances) -> Distances {
    Distances {
        detection_m: to_real(distances.detection_m),
        observation_m: to_real(distances.observation_m),
        recognition_m: to_real(distances.recognition_m),
        identification_m: to_real(distances.identification_m),
    }
}

fn camera(
    sensor_width_mm: f64,
    sensor_height_mm: f64,
    pixel_width: u32,
    pixel_height: u32,
    focal_length_mm: f64,
) -> CameraSystem {
    CameraSystem::new(
        to_fixed(sensor_width_mm),
        to_fixed(sensor_height_mm),
        pixel_width,
        pixel_height,
        to_fixed(focal_length_mm),
    )
}

fn distances_of(camera: &CameraSystem) -> Distances {
    everyday(calculate_dori_distances(camera))
}

fn distances_from(distance_m: f64, dori_type: &str) -> Distances {
    everyday(calculate_dori_from_single(to_fixed(distance_m), dori_type))
}

#[test]
fn test_dori_calculation() {
    // 1/2.8" sensor (6.4x4.8mm), 1920x1080, 4mm lens (typical CCTV camera)
    let camera = camera(6.4, 4.8, 1920, 1080, 4.0);
    let dori = distances_of(&camera);

    // At 25 px/m (detection), should be able to detect at ~48m
    assert!((dori.detection_m - 48.0).abs() < 1.0);

    // At 250 px/m (identification), should be ~4.8m
    assert!((dori.identification_m - 4.8).abs() < 0.1);

    // DORI distances should be in descending order
    assert!(dori.detection_m > dori.observation_m);
    assert!(dori.observation_m > dori.recognition_m);
    assert!(dori.recognition_m > dori.identification_m);
}

#[test]
fn test_dori_with_longer_focal_length() {
    // Same sensor but with 12mm lens (3x telephoto)
    let camera = camera(6.4, 4.8, 1920, 1080, 12.0);
    let dori = distances_of(&camera);

    // With 3x the focal length, all DORI distances should be ~3x farther
    assert!((dori.detection_m - 144.0).abs() < 2.0);
    assert!((dori.identification_m - 14.4).abs() < 0.2);
}

#[test]
fn test_dori_from_single_identification() {
    // If identification is at 5m, calculate all others
    let dori = distances_from(5.0, "identification");

    // Identification should be the input value
    assert!((dori.identification_m - 5.0).abs() < 0.01);

    // Recognition should be 2x farther (250/125 = 2)
    assert!((dori.recognition_m - 10.0).abs() < 0.01);

    // Observation should be 4x farther (250/62.5 = 4)
    assert!((dori.observation_m - 20.0).abs() < 0.01);

    // Detection should be 10x farther (250/25 = 10)
    assert!((dori.detection_m - 50.0).abs() < 0.01);
}

#[test]
fn test_dori_from_single_detection() {
    // If detection is at 100m, calculate all others
    let dori = distances_from(100.0, "detection");

    // Detection should be the input value
    assert!((dori.detection_m - 100.0).abs() < 0.01);

    // Observation should be 2.5x closer (25/62.5 = 0.4)
    assert!((dori.observation_m - 40.0).abs() < 0.01);

    // Recognition should be 5x closer (25/125 = 0.2)
    assert!((dori.recognition_m - 20.0).abs() < 0.01);

    // Identification should be 10x closer (25/250 = 0.1)
    assert!((dori.identification_m - 10.0).abs() < 0.01);
}

#[test]
fn test_dori_from_single_maintains_ratios() {
    // Test that ratios are maintained regardless of starting point
    let from_id = distances_from(8.0, "identification");
    let from_rec = distances_from(16.0, "recognition");
    let from_obs = distances_from(32.0, "observation");
    let from_det = distances_from(80.0, "detection");

    // All should produce the same DORI distances
    assert!((from_id.identification_m - 8.0).abs() < 0.01);
    assert!((from_rec.identification_m - 8.0).abs() < 0.01);
    assert!((from_obs.identification_m - 8.0).abs() < 0.01);
    assert!((from_det.identification_m - 8.0).abs() < 0.01);

    assert!((from_id.detection_m - 80.0).abs() < 0.01);
    assert!((from_rec.detection_m - 80.0).abs() < 0.01);
    assert!((from_obs.detection_m - 80.0).abs() < 0.01);
    assert!((from_det.detection_m - 80.0).abs() < 0.01);
}

#[test]
fn distances_of_a_cctv_camera_are_exact() {
    // 4 mm lens, 1920 pixels on 6.4 mm: 1200 pixels per metre at one metre.
    let distances = calculate_dori_distances(&camera(6.4, 4.8, 1920, 1080, 4.0));
    assert_eq!(distances.detection_m, 48_000_000_000);
    assert_eq!(distances.observation_m, 19_200_000_000);
    assert_eq!(distances.recognition_m, 9_600_000_000);
    assert_eq!(distances.identification_m, 4_800_000_000);
}

#[test]
fn distances_never_increase_down_the_categories() {
    let cameras = [
        camera(6.4, 4.8, 1920, 1080, 4.0),
        camera(36.0, 24.0, 6000, 4000, 50.0),
        camera(0.000000001, 1.0, 1, 1, 0.000000001),
        camera(7.0, 5.0, 4_294_967_295, 7, 18_446_744_073.0),
        camera(0.0, 0.0, 0, 0, 0.0),
    ];
    for camera in cameras.iter() {
        let d = calculate_dori_distances(camera);
        assert!(d.detection_m >= d.observation_m);
        assert!(d.observation_m >= d.recognition_m);
        assert!(d.recognition_m >= d.identification_m);
    }
}

#[test]
fn distances_of_a_camera_without_sensor_width_are_unbounded() {
    let d = calculate_dori_distances(&camera(0.0, 4.8, 1920, 1080, 4.0));
    assert_eq!(d.detection_m, u64::MAX);
    assert_eq!(d.identification_m, u64::MAX);
}

#[test]
fn filling_from_identification_multiplies_exactly() {
    let d = dori_from_category(1_234_567_891, DoriCategory::Identification);
    assert_eq!(d.identification_m, 1_234_567_891);
    assert_eq!(d.recognition_m, 2_469_135_782);
    assert_eq!(d.observation_m, 4_938_271_564);
    assert_eq!(d.detection_m, 12_345_678_910);
}

#[test]
fn filling_from_detection_rounds_down() {
    // 0.000000007 m at detection: 2/5 of it is 2.8 billionths, 1/5 is 1.4, 1/10 is 0.7.
    let d = dori_from_category(7, DoriCategory::Detection);
    assert_eq!(d.detection_m, 7);
    assert_eq!(d.observation_m, 2);
    assert_eq!(d.recognition_m, 1);
    assert_eq!(d.identification_m, 0);
}

#[test]
fn round_trip_stays_within_ten_billionths() {
    let categories = [
        DoriCategory::Detection,
        DoriCategory::Observation,
        DoriCategory::Recognition,
        DoriCategory::Identification,
    ];
    let distances = [
        0u64,
        1,
        7,
        999_999_999,
        16_000_000_003,
        1_844_674_407_370_955_161,
        1_844_674_407_370_955_162,
        7_378_697_629_483_820_647,
        u64::MAX - 1,
    ];
    for distance in distances {
        for source in categories {
            let first = dori_from_category(distance, source);
            let firsts = [
                first.detection_m,
                first.observation_m,
                first.recognition_m,
                first.identification_m,
            ];
            for (position, again) in categories.iter().enumerate() {
                if firsts[position] == u64::MAX {
                    continue;
                }
                let second = dori_from_category(firsts[position], *again);
                let seconds = [
                    second.detection_m,
                    second.observation_m,
                    second.recognition_m,
                    second.identification_m,
                ];
                for k in 0..4 {
                    assert!(seconds[k] <= firsts[k]);
                    assert!(firsts[k] - seconds[k] <= 10);
                }
                if *again == source || source == DoriCategory::Identification {
                    assert_eq!(first, second);
                }
            }
        }
    }
}

#[test]
fn an_unbounded_distance_cannot_be_carried_back() {
    // Ten times this identification distance is no bounded number any more.
    let distance = 1_844_674_407_370_955_162;
    let first = dori_from_category(distance, DoriCategory::Identification);
    assert_eq!(first.detection_m, u64::MAX);
    assert_eq!(first.observation_m, 7_378_697_629_483_820_648);
    let second = dori_from_category(first.detection_m, DoriCategory::Detection);
    assert_eq!(second.identification_m, u64::MAX);
    // From the bounded observation distance the way back is exact.
    let second = dori_from_category(first.observation_m, DoriCategory::Observation);
    assert_eq!(second, first);
}

#[test]
fn category_names_are_read_in_lower_case() {
    assert_eq!(category_from_name("detection"), DoriCategory::Detection);
    assert_eq!(category_from_name("observation"), DoriCategory::Observation);
    assert_eq!(category_from_name("recognition"), DoriCategory::Recognition);
    assert_eq!(category_from_name("identification"), DoriCategory::Identification);
}

#[test]
fn unknown_category_names_stand_for_identification() {
    assert_eq!(category_from_name(""), DoriCategory::Identification);
    assert_eq!(category_from_name("Detection"), DoriCategory::Identification);
    assert_eq!(category_from_name("detection "), DoriCategory::Identification);
    assert_eq!(category_from_name("sighting"), DoriCategory::Identification);
    let d = calculate_dori_from_single(5_000_000_000, "sighting");
    assert_eq!(d.identification_m, 5_000_000_000);
    assert_eq!(d.detection_m, 50_000_000_000);
}

#[test]
fn category_names_in_capitals_are_lowered_first() {
    let d = calculate_dori_from_single(100_000_000_000, "DETECTION");
    assert_eq!(d.detection_m, 100_000_000_000);
    assert_eq!(d.observation_m, 40_000_000_000);
    assert_eq!(d.recognition_m, 20_000_000_000);
    assert_eq!(d.identification_m, 10_000_000_000);
    let d = calculate_dori_from_single(32_000_000_000, "Observation");
    assert_eq!(d.identification_m, 8_000_000_000);
}

#[test]
fn an_unbounded_distance_fills_in_unbounded() {
    let d = dori_from_category(u64::MAX, DoriCategory::Detection);
    assert_eq!(d.detection_m, u64::MAX);
    assert_eq!(d.identification_m, u64::MAX);
}

#[test]
fn densities_of_the_categories() {
    assert_eq!(DoriCategory::Detection.px_per_m(), 25_000_000_000);
    assert_eq!(DoriCategory::Observation.px_per_m(), 62_500_000_000);
    assert_eq!(DoriCategory::Recognition.px_per_m(), 125_000_000_000);
    assert_eq!(DoriCategory::Identification.px_per_m(), 250_000_000_000);
}

#[test]
fn a_stronger_camera_reaches_further() {
    let weaker = calculate_dori_distances(&camera(6.4, 4.8, 1920, 1080, 4.0));
    let longer = calculate_dori_distances(&camera(6.4, 4.8, 1920, 1080, 12.0));
    let finer = calculate_dori_distances(&camera(6.4, 4.8, 3840, 1080, 4.0));
    let narrower = calculate_dori_distances(&camera(3.2, 4.8, 1920, 1080, 4.0));
    for stronger in [longer, finer, narrower] {
        assert!(weaker.detection_m <= stronger.detection_m);
        assert!(weaker.observation_m <= stronger.observation_m);
        assert!(weaker.recognition_m <= stronger.recognition_m);
        assert!(weaker.identification_m <= stronger.identification_m);
    }
    assert_eq!(longer.detection_m, 144_000_000_000);
    assert_eq!(finer.detection_m, 96_000_000_000);
    assert_eq!(narrower.detection_m, 96_000_000_000);
}

#[test]
fn filling_in_keeps_the_distance_of_its_own_category() {
    for distance in [0u64, 1, 7, 123_456_789_012, u64::MAX - 1] {
        assert_eq!(dori_from_category(distance, DoriCategory::Detection).detection_m, distance);
        assert_eq!(dori_from_category(distance, DoriCategory::Observation).observation_m, distance);
        assert_eq!(dori_from_category(distance, DoriCategory::Recognition).recognition_m, distance);
        assert_eq!(
            dori_from_category(distance, DoriCategory::Identification).identification_m,
            distance
        );
    }
}
