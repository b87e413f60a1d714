use device_core::api::{create_api_error, ApiClient, ApiConfig, ApiError, ApiResponse, SessionInfo};

#[test]
fn default_config_and_urls() {
    let c = ApiConfig::default();
    assert_eq!(c.base_url, "http://localhost:3000/api");
    assert_eq!(c.fingerprint, "esp32-device");
    assert_eq!(c.timeout_secs, 300);
    let client = ApiClient::new(c);
    assert_eq!(client.create_session_url(None), "http://localhost:3000/api/chat/create");
    assert_eq!(
        client.create_session_url(Some("m1")),
        "http://localhost:3000/api/chat/create?model=m1"
    );
    assert_eq!(client.message_url("s"), "http://localhost:3000/api/chat/message/s");
    assert_eq!(client.prompt_url("s"), "http://localhost:3000/api/chat/prompt/s");
    assert_eq!(client.timeout_secs(), 300);
    let h = client.build_headers();
    assert_eq!(h, vec![("X-Fingerprint", "esp32-device"), ("Content-Type", "application/json")]);
}

#[test]
fn responses_map_to_results() {
    let client = ApiClient::new(ApiConfig::default());
    assert!(client.handle_response_unit(200, "{}", None).is_ok());
    match client.handle_response_unit(404, "not json", None) {
        Err(ApiError::Api { status, message }) => {
            assert_eq!(status, 404);
            assert_eq!(message, "not json");
        }
        _ => panic!("expected an API error"),
    }
    match create_api_error(500, "{}", Some(None)) {
        ApiError::Api { message, .. } => assert_eq!(message, "Unknown error"),
        _ => panic!("expected an API error"),
    }
    match create_api_error(401, "{}", Some(Some("bad key".to_string()))) {
        ApiError::Api { status, message } => assert_eq!((status, message.as_str()), (401, "bad key")),
        _ => panic!("expected an API error"),
    }
}

#[test]
fn session_creation_reads_the_envelope() {
    let client = ApiClient::new(ApiConfig::default());
    let envelope = ApiResponse {
        status: 200,
        data: SessionInfo { session_id: "s-1".to_string() },
        message: None,
    };
    assert_eq!(client.create_session(200, "{..}", Ok(envelope), None).ok(), Some("s-1".to_string()));
    match client.create_session(200, "garbage", Err("expected value".to_string()), None) {
        Err(ApiError::Json(m)) => assert_eq!(m, "expected value"),
        _ => panic!("expected a JSON error"),
    }
    match client.create_session(503, "down", Err("x".to_string()), None) {
        Err(ApiError::Api { status, message }) => assert_eq!((status, message.as_str()), (503, "down")),
        _ => panic!("expected an API error"),
    }
    let data: Result<u32, ApiError> = client.handle_response(
        200,
        "{}",
        Ok(ApiResponse { status: 200, data: 7u32, message: None }),
        None,
    );
    assert_eq!(data.ok(), Some(7));
}
