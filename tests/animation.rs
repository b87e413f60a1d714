use device_core::animation::{EspInstant, FrameAnimation};

static A: [u8; 1] = [1];
static B: [u8; 1] = [2];
static C: [u8; 1] = [3];

#[test]
fn instants_measure_forward_only() {
    let start = EspInstant::from_micros(1_000);
    assert_eq!(start.elapsed_us(EspInstant::from_micros(4_500)), 3_500);
    assert_eq!(start.elapsed_ms(EspInstant::from_micros(4_500)), 3);
    assert_eq!(start.elapsed_us(EspInstant::from_micros(10)), 0);
    assert_eq!(start.micros(), 1_000);
}

#[test]
fn looping_animation_wraps() {
    let mut a = FrameAnimation::with_fps(10, 0);
    assert_eq!(a.get_current_frame(), None);
    assert!(!a.update(1_000_000));
    a.add_frame(&A);
    a.add_frame(&B);
    assert_eq!(a.get_frame_count(), 2);
    assert_eq!(a.get_current_frame(), Some(&A[..]));
    assert!(!a.update(99_999));
    assert!(a.update(100_000));
    assert_eq!(a.get_current_frame_index(), 1);
    assert!(!a.update(150_000));
    assert!(a.update(200_000));
    assert_eq!(a.get_current_frame_index(), 0);
    assert!(!a.is_finished());
}

#[test]
fn one_shot_animation_stops_on_last() {
    let mut a = FrameAnimation::new(20, 0);
    a.set_loop(false);
    a.add_frame(&A);
    a.add_frame(&B);
    a.add_frame(&C);
    assert!(a.update(20_000));
    assert!(a.update(40_000));
    assert!(a.update(60_000));
    assert!(a.is_finished());
    assert_eq!(a.get_current_frame(), Some(&C[..]));
    assert!(!a.update(1_000_000));
    a.reset(1_000_000);
    assert_eq!(a.get_current_frame_index(), 0);
    assert!(!a.is_finished());
    a.jump_to_frame(5, 1_000_001);
    assert_eq!(a.get_current_frame_index(), 0);
    a.jump_to_frame(2, 1_000_001);
    assert_eq!(a.get_current_frame_index(), 2);
    a.set_fps(50);
    assert!(!a.update(1_019_000));
    a.set_frame_duration_ms(1);
    assert!(a.update(1_002_001));
}
