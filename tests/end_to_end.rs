use device_core::display::{Display, DisplayState, TICK_PERIOD_MS};
use device_core::events::{AppEvent, SystemEvent, TimerEvent};
use device_core::motion::{MotionDetector, MotionState, SensorData};
use device_core::orchestrator::App;
use device_core::wifi::WifiEvent;

const TICK_US: u64 = TICK_PERIOD_MS as u64 * 1000;

fn sample(z: i32, gyro: i32, t: u64) -> SensorData {
    SensorData {
        accel_x: 0,
        accel_y: 0,
        accel_z: z,
        gyro_x: gyro,
        gyro_y: 0,
        gyro_z: 0,
        temperature: 2500,
        timestamp: t,
    }
}

#[test]
fn gentle_handling_then_shaking_reaches_dizziness() {
    let mut detector = MotionDetector::new();
    let mut app = App::new(Display::new(0));
    let mut now = 0;
    for i in 0..100u64 {
        now += TICK_US;
        let z = if i % 2 == 0 { 1000 } else { 1100 };
        let state = detector.detect_motion(&sample(z, 50_000, now));
        assert_eq!(state, MotionState::Still, "gentle cycle {}", i);
        assert!(!app.handle_event(AppEvent::Motion(state), now));
    }
    assert_eq!(app.display().get_state(), &DisplayState::Main);
    for cycle in 1..=15u64 {
        now += TICK_US;
        let z = if cycle % 2 == 1 { 2500 } else { 1000 };
        let state = detector.detect_motion(&sample(z, 200_000, now));
        let changed = app.handle_event(AppEvent::Motion(state), now);
        if cycle < 12 {
            assert_ne!(state, MotionState::Shaking, "cycle {}", cycle);
            assert_eq!(app.display().get_state(), &DisplayState::Main);
        } else {
            assert_eq!(state, MotionState::Shaking, "cycle {}", cycle);
            assert_eq!(app.display().get_state(), &DisplayState::Dizziness);
            assert_eq!(changed, cycle == 12);
        }
    }
}

#[test]
fn still_at_cycle_one_then_sixty_leaves_dizziness() {
    let mut app = App::new(Display::new(0));
    let entry = 1_000_000;
    assert!(app.handle_event(AppEvent::Motion(MotionState::Shaking), entry));
    assert!(!app.handle_event(AppEvent::Motion(MotionState::Still), entry + TICK_US));
    assert_eq!(app.display().get_state(), &DisplayState::Dizziness);
    for k in 2..60u64 {
        app.update(entry + k * TICK_US);
    }
    assert!(app.handle_event(AppEvent::Motion(MotionState::Still), entry + 60 * TICK_US));
    assert_eq!(app.display().get_state(), &DisplayState::Main);
}

#[test]
fn faults_show_their_messages() {
    let mut app = App::new(Display::new(0));
    assert!(app.handle_event(AppEvent::System(SystemEvent::LowBattery), 1));
    assert_eq!(app.display().get_state(), &DisplayState::Error("电量不足".to_string()));
    assert!(app.handle_event(AppEvent::System(SystemEvent::LowMemory), 2));
    assert_eq!(app.display().get_state(), &DisplayState::Error("内存不足".to_string()));
    assert!(app.handle_event(AppEvent::System(SystemEvent::HardwareError("imu".to_string())), 3));
    assert_eq!(app.display().get_state(), &DisplayState::Error("硬件错误: imu".to_string()));
    assert!(app.handle_event(AppEvent::Wifi(WifiEvent::ConnectionFailed("auth".to_string())), 4));
    assert_eq!(app.display().get_state(), &DisplayState::Error("WiFi连接失败: auth".to_string()));
    assert!(!app.handle_event(AppEvent::Wifi(WifiEvent::Disconnected), 5));
    assert!(!app.handle_event(AppEvent::System(SystemEvent::Shutdown), 6));
    for k in 1..60u64 {
        assert!(!app.handle_event(AppEvent::Timer(TimerEvent::MainLoop), 6 + k));
    }
    assert!(!app.handle_event(AppEvent::Timer(TimerEvent::AnimationFrame), 100));
    assert!(app.handle_event(AppEvent::Timer(TimerEvent::MainLoop), 101));
    assert_eq!(app.display().get_state(), &DisplayState::Welcome);
}
