use device_core::channel::ChannelError;
use device_core::wifi::{
    WifiActor, WifiActorManager, WifiCommand, WifiConfig, WifiConfigError, WifiCredentials,
    WifiEvent, WifiStatus, next_step, WifiActorStep,
};
use std::time::Duration;

#[test]
fn config_validation() {
    let c = WifiConfig::new("home", "12345678");
    assert!(c.auto_connect);
    assert_eq!(c.validate(), Ok(()));
    assert_eq!(WifiConfig::new("", "12345678").validate(), Err(WifiConfigError::EmptySsid));
    assert_eq!(WifiConfig::new("", "1").validate(), Err(WifiConfigError::EmptySsid));
    assert_eq!(WifiConfig::new("home", "1234567").validate(), Err(WifiConfigError::PasswordTooShort));
    // Eight bytes in four characters.
    assert_eq!(WifiConfig::new("home", "éééé").validate(), Ok(()));
    assert_eq!(WifiConfig::new("home", "ééé").validate(), Err(WifiConfigError::PasswordTooShort));
    let creds = WifiCredentials::from(c);
    assert_eq!(creds.ssid, "home");
    assert_eq!(creds.password, "12345678");
    let n = WifiCredentials::new("a", "b");
    assert_eq!((n.ssid.as_str(), n.password.as_str()), ("a", "b"));
}

fn status_of(e: &WifiEvent) -> Option<String> {
    match e {
        WifiEvent::StatusUpdate(s) => Some(format!("{:?}", s)),
        _ => None,
    }
}

#[test]
fn connect_success_and_failure() {
    let mut a = WifiActor::new();
    let ev = a.begin_connect();
    assert_eq!(ev.len(), 1);
    assert!(matches!(a.current_status(), WifiStatus::Connecting));
    let ev = a.finish_connect(Ok(Some("10.0.0.2".to_string())));
    assert!(matches!(&ev[0], WifiEvent::Connected(ip) if ip == "10.0.0.2"));
    assert_eq!(status_of(&ev[1]), Some("Connected".to_string()));
    let ev = a.finish_connect(Ok(None));
    assert!(matches!(&ev[0], WifiEvent::Connected(ip) if ip == "Unknown IP"));
    let ev = a.finish_connect(Err("auth".to_string()));
    assert!(matches!(&ev[0], WifiEvent::ConnectionFailed(m) if m == "WiFi connection failed: auth"));
    assert_eq!(status_of(&ev[1]), Some("Disconnected".to_string()));
    assert!(matches!(a.current_status(), WifiStatus::Error(m) if m == "WiFi connection failed: auth"));
}

#[test]
fn disconnect_scan_and_status() {
    let mut a = WifiActor::new();
    let ev = a.finish_disconnect(Err("busy".to_string()));
    assert!(matches!(&ev[0], WifiEvent::StatusUpdate(WifiStatus::Error(m)) if m == "WiFi disconnect failed: busy"));
    let ev = a.finish_disconnect(Ok(()));
    assert!(matches!(ev[0], WifiEvent::Disconnected));
    assert_eq!(ev.len(), 2);
    a.begin_scan();
    assert!(matches!(a.current_status(), WifiStatus::Scanning));
    let ev = a.finish_scan(Ok(vec!["x".to_string(), "y".to_string()]), true);
    assert!(matches!(&ev[0], WifiEvent::ScanResult(n) if n.len() == 2));
    assert!(matches!(a.current_status(), WifiStatus::Connected));
    let ev = a.finish_scan(Err("radio".to_string()), false);
    assert!(matches!(&ev[0], WifiEvent::StatusUpdate(WifiStatus::Error(m)) if m == "WiFi scan failed: radio"));
    assert_eq!(status_of(&ev[1]), Some("Disconnected".to_string()));
    let ev = a.report_status();
    assert_eq!(status_of(&ev[0]), Some("Disconnected".to_string()));
}

#[test]
fn connectivity_poll() {
    let mut a = WifiActor::new();
    assert!(a.check_connection_status(false, None).is_empty());
    let ev = a.check_connection_status(true, Some("1.2.3.4".to_string()));
    assert_eq!(ev.len(), 2);
    assert!(a.check_connection_status(true, None).is_empty());
    let ev = a.check_connection_status(false, None);
    assert!(matches!(ev[0], WifiEvent::Disconnected));
    let ev = a.check_connection_status(true, None);
    assert_eq!(ev.len(), 1);
}

#[test]
fn manager_and_endpoint_talk() {
    let (mut m, mut e) = WifiActorManager::new();
    assert!(m.connect(WifiConfig::new("n", "password")).is_ok());
    assert!(m.scan_networks().is_ok());
    assert!(matches!(e.next_command(Duration::from_millis(10)), Ok(WifiCommand::Connect(_))));
    assert!(matches!(e.next_command(Duration::from_millis(10)), Ok(WifiCommand::Scan)));
    assert!(matches!(e.next_command(Duration::from_millis(1)), Err(ChannelError::Timeout)));
    assert!(matches!(m.try_recv_event(), Err(ChannelError::Empty)));
    assert!(e.publish(vec![WifiEvent::Disconnected]).is_ok());
    assert!(matches!(m.recv_event(), Ok(WifiEvent::Disconnected)));
    assert!(matches!(m.recv_event_timeout(Duration::from_millis(1)), Err(ChannelError::Timeout)));
    drop(e);
    assert!(matches!(m.disconnect(), Err(WifiCommand::Disconnect)));
    assert!(matches!(m.get_status(), Err(WifiCommand::GetStatus)));
    assert!(matches!(m.try_recv_event(), Err(ChannelError::Disconnected)));
}

#[test]
fn endpoint_reports_undelivered_event() {
    let (mut m, mut e) = WifiActorManager::new();
    drop(m);
    let r = e.publish(vec![WifiEvent::Connected("ip".to_string())]);
    assert!(matches!(r, Err(WifiEvent::Connected(ip)) if ip == "ip"));
    assert!(matches!(e.next_command(Duration::from_millis(1)), Err(ChannelError::Disconnected)));
}

#[test]
fn actor_step_follows_the_wait() {
    assert!(matches!(next_step(Ok(WifiCommand::Scan)), WifiActorStep::Handle(WifiCommand::Scan)));
    assert!(matches!(next_step(Err(ChannelError::Timeout)), WifiActorStep::Poll));
    assert!(matches!(next_step(Err(ChannelError::Empty)), WifiActorStep::Poll));
    assert!(matches!(next_step(Err(ChannelError::Disconnected)), WifiActorStep::Stop));
}
