use device_core::motion::{isqrt, ConfigError, MotionConfig, MotionDetector, MotionState, SensorData};

fn sample(accel: (i32, i32, i32), gyro: (i32, i32, i32), t: u64) -> SensorData {
    SensorData {
        accel_x: accel.0,
        accel_y: accel.1,
        accel_z: accel.2,
        gyro_x: gyro.0,
        gyro_y: gyro.1,
        gyro_z: gyro.2,
        temperature: 2500,
        timestamp: t,
    }
}

/// Strong rotation, with the magnitude alternating between 2000 mg (odd
/// `i`) and 1000 mg (even `i`): after a 1000 mg sample, `shake(1)`,
/// `shake(2)`, ... each qualify.
fn shake(i: u64) -> SensorData {
    let z = if i % 2 == 1 { 2000 } else { 1000 };
    sample((0, 0, z), (200_000, 0, 0), i)
}

#[test]
fn calm_rate_never_shakes() {
    let mut d = MotionDetector::new();
    for i in 0..200u64 {
        // Same magnitude (1000 mg), direction changing, no rotation.
        let a = if i % 2 == 0 { (0, 0, 1000) } else { (0, 600, 800) };
        assert_ne!(d.detect_motion(&sample(a, (0, 0, 0), i)), MotionState::Shaking);
    }
}

#[test]
fn big_acceleration_without_rotation_never_shakes() {
    let mut d = MotionDetector::new();
    for i in 0..50u64 {
        let z = if i % 2 == 0 { 3000 } else { 500 };
        assert_ne!(d.detect_motion(&sample((0, 0, z), (0, 0, 0), i)), MotionState::Shaking);
    }
}

#[test]
fn twelve_qualifying_samples_confirm_shaking() {
    let mut d = MotionDetector::new();
    d.detect_motion(&sample((0, 0, 1000), (0, 0, 0), 0));
    let mut results = Vec::new();
    for i in 1..=15u64 {
        results.push(d.detect_motion(&shake(i)));
    }
    for (k, r) in results.iter().enumerate() {
        if k + 1 < 12 {
            assert_ne!(*r, MotionState::Shaking, "cycle {}", k + 1);
        } else {
            assert_eq!(*r, MotionState::Shaking, "cycle {}", k + 1);
        }
    }
}

#[test]
fn first_sample_has_no_baseline() {
    let mut d = MotionDetector::with_config(MotionConfig {
        shake_count_threshold: 1,
        ..MotionConfig::default()
    })
    .unwrap();
    assert_eq!(d.detect_motion(&shake(0)), MotionState::Still);
    assert_eq!(d.get_shake_count(), 0);
    assert_eq!(d.detect_motion(&shake(1)), MotionState::Shaking);
}

#[test]
fn short_break_keeps_the_count() {
    let mut d = MotionDetector::new();
    d.detect_motion(&sample((0, 0, 1000), (0, 0, 0), 0));
    for i in 1..=11u64 {
        assert_ne!(d.detect_motion(&shake(i)), MotionState::Shaking);
    }
    // shake(11) has magnitude 1000; a calm sample of the same magnitude.
    assert_eq!(d.detect_motion(&sample((0, 0, 1000), (0, 0, 0), 100)), MotionState::Still);
    assert_eq!(d.get_shake_count(), 11);
    assert_eq!(d.get_stable_count(), 1);
    // The next qualifying sample (2000 mg after 1000 mg) is the twelfth counted.
    assert_eq!(d.detect_motion(&shake(13)), MotionState::Shaking);
}

#[test]
fn ten_calm_samples_rearm() {
    let mut d = MotionDetector::new();
    d.detect_motion(&sample((0, 0, 1000), (0, 0, 0), 0));
    for i in 1..=11u64 {
        d.detect_motion(&shake(i));
    }
    for i in 0..9u64 {
        d.detect_motion(&sample((0, 0, 1000), (0, 0, 0), 100 + i));
        assert_eq!(d.get_shake_count(), 11);
    }
    d.detect_motion(&sample((0, 0, 1000), (0, 0, 0), 200));
    assert_eq!(d.get_stable_count(), 10);
    assert_eq!(d.get_shake_count(), 0);
    for i in 1..=11u64 {
        assert_ne!(d.detect_motion(&shake(i + 1000)), MotionState::Shaking);
    }
    assert_eq!(d.detect_motion(&shake(1012)), MotionState::Shaking);
}

#[test]
fn repeated_sample_is_idempotent() {
    let mut d = MotionDetector::new();
    d.detect_motion(&sample((0, 0, 1000), (0, 0, 0), 0));
    let s = shake(1);
    let first = d.detect_motion(&s);
    let counts = (d.get_shake_count(), d.get_stable_count());
    assert!(d.has_cached_result());
    let second = d.detect_motion(&s);
    assert_eq!(first, second);
    assert_eq!(counts, (d.get_shake_count(), d.get_stable_count()));
    assert_eq!(d.get_shake_count(), 1);
}

#[test]
fn tilt_follows_the_angle_from_vertical() {
    let mut d = MotionDetector::new();
    assert_eq!(d.detect_motion(&sample((0, 0, 1000), (0, 0, 0), 0)), MotionState::Still);
    assert_eq!(d.detect_motion(&sample((500, 0, 866), (0, 0, 0), 1)), MotionState::Still);
    assert_eq!(d.detect_motion(&sample((866, 0, 500), (0, 0, 0), 2)), MotionState::Tilting);
    assert_eq!(d.detect_motion(&sample((0, 1000, 0), (0, 0, 0), 3)), MotionState::Tilting);
    assert_eq!(d.detect_motion(&sample((0, 0, -1000), (0, 0, 0), 4)), MotionState::Still);
    // Below the validity floor no angle is defined.
    assert_eq!(d.detect_motion(&sample((9, 0, 0), (0, 0, 0), 5)), MotionState::Still);
    assert!(d.is_tilting(&sample((700, 0, 700), (0, 0, 0), 6)) == false);
    assert!(d.is_tilting(&sample((710, 0, 700), (0, 0, 0), 7)));
}

#[test]
fn tilt_threshold_can_change() {
    let mut d = MotionDetector::new();
    assert_eq!(d.set_tilt_threshold(0), Err(ConfigError::TiltThreshold));
    assert_eq!(d.set_tilt_threshold(91), Err(ConfigError::TiltThreshold));
    assert_eq!(d.get_thresholds(), (800, 120_000, 45));
    d.set_tilt_threshold(20).unwrap();
    assert!(!d.has_cached_result());
    assert_eq!(d.detect_motion(&sample((500, 0, 866), (0, 0, 0), 1)), MotionState::Tilting);
    d.set_tilt_threshold(90).unwrap();
    assert_eq!(d.detect_motion(&sample((1000, 0, 0), (0, 0, 0), 2)), MotionState::Still);
}

#[test]
fn thresholds_are_validated() {
    let mut d = MotionDetector::new();
    assert_eq!(d.set_thresholds(0, 5), Err(ConfigError::AccelThreshold));
    assert_eq!(d.set_thresholds(5, 0), Err(ConfigError::GyroThreshold));
    assert_eq!(d.get_thresholds(), (800, 120_000, 45));
    assert_eq!(d.set_thresholds(5, 6), Ok(()));
    assert_eq!(d.get_thresholds(), (5, 6, 45));
}

#[test]
fn config_errors_name_the_first_bad_field() {
    let good = MotionConfig::default();
    assert_eq!(good.validate(), Ok(()));
    let cases = [
        (MotionConfig { accel_threshold: 0, ..good }, ConfigError::AccelThreshold),
        (MotionConfig { gyro_threshold: 0, ..good }, ConfigError::GyroThreshold),
        (MotionConfig { tilt_threshold: 0, ..good }, ConfigError::TiltThreshold),
        (MotionConfig { tilt_threshold: 91, ..good }, ConfigError::TiltThreshold),
        (MotionConfig { shake_count_threshold: 0, ..good }, ConfigError::ShakeCount),
        (MotionConfig { stable_count_threshold: 0, ..good }, ConfigError::StableCount),
        (MotionConfig { accel_threshold: 0, gyro_threshold: 0, ..good }, ConfigError::AccelThreshold),
    ];
    for (c, e) in cases {
        assert_eq!(MotionDetector::with_config(c).err(), Some(e));
        assert!(!e.message().is_empty());
    }
    let d = MotionDetector::with_config(MotionConfig { tilt_threshold: 90, ..good }).unwrap();
    assert_eq!(d.config().tilt_threshold, 90);
}

#[test]
fn reset_clears_history() {
    let mut d = MotionDetector::new();
    d.detect_motion(&sample((0, 0, 1000), (0, 0, 0), 0));
    d.detect_motion(&shake(1));
    assert_eq!(d.get_prev_accel_magnitude(), 2000);
    d.reset();
    assert_eq!(d.get_shake_count(), 0);
    assert_eq!(d.get_stable_count(), 0);
    assert_eq!(d.get_prev_accel_magnitude(), 0);
    assert!(!d.has_cached_result());
}

#[test]
fn detailed_result_gives_magnitudes() {
    let mut d = MotionDetector::new();
    let (state, a, g) = d.get_detailed_result(&sample((300, 400, 0), (0, 3000, 4000), 0));
    assert_eq!(state, MotionState::Tilting);
    assert_eq!(a, 500);
    assert_eq!(g, 5000);
    let (_, a, _) = d.get_detailed_result(&sample((1, 1, 1), (0, 0, 0), 1));
    assert_eq!(a, 1);
    assert!(d.is_still(&sample((0, 0, 1000), (0, 0, 0), 2)));
    assert!(!d.is_shaking(&sample((0, 0, 1000), (0, 0, 0), 2)));
}

#[test]
fn integer_square_root_rounds_down() {
    assert_eq!(isqrt(0), 0);
    assert_eq!(isqrt(1), 1);
    assert_eq!(isqrt(15), 3);
    assert_eq!(isqrt(16), 4);
    assert_eq!(isqrt(u64::MAX), 4_294_967_295);
    assert_eq!(isqrt(3 * (1u64 << 62)), 3_719_550_786);
}

#[test]
fn confirmed_shaking_holds_until_rearmed() {
    let mut d = MotionDetector::new();
    d.detect_motion(&sample((0, 0, 1000), (0, 0, 0), 0));
    for i in 1..=12u64 {
        d.detect_motion(&shake(i));
    }
    assert_eq!(d.get_shake_count(), 12);
    // Nine calm samples: still confirmed.
    for i in 0..9u64 {
        assert_eq!(d.detect_motion(&sample((0, 0, 1000), (0, 0, 0), 100 + i)), MotionState::Shaking, "calm {}", i);
    }
    // The tenth re-arms.
    assert_eq!(d.detect_motion(&sample((0, 0, 1000), (0, 0, 0), 200)), MotionState::Still);
    assert_eq!(d.get_shake_count(), 0);
    // A tilted calm sample after re-arming reads as tilt.
    assert_eq!(d.detect_motion(&sample((1000, 0, 0), (0, 0, 0), 201)), MotionState::Tilting);
}

#[test]
fn calm_run_from_fresh_keeps_count_zero() {
    let mut d = MotionDetector::new();
    for i in 0..30u64 {
        let a = if i % 2 == 0 { (0, 0, 1000) } else { (0, 600, 800) };
        assert_ne!(d.detect_motion(&sample(a, (0, 0, 0), i)), MotionState::Shaking);
        assert_eq!(d.get_shake_count(), 0);
    }
}
