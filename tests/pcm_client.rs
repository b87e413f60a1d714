use device_core::api::{PcmClient, PcmClientConfig};

#[test]
fn test_pcm_client_creation() {
    let config = PcmClientConfig::default();
    let client = PcmClient::new(config);
    assert_eq!(client.session_id(), "esp32_device_001");
}

#[test]
fn pcm_session_can_change() {
    let mut client = PcmClient::new(PcmClientConfig::default());
    client.set_session_id("abc".to_string());
    assert_eq!(client.session_id(), "abc");
    assert_eq!(client.pcm_url(), "http://192.168.1.100:8080/pcm/abc");
    assert_eq!(client.timeout_secs(), 30);
}
