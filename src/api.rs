//! The chat service client: its configuration, the request URLs and
//! headers, and how a response status becomes a result. The HTTP exchange
//! and JSON decoding are done by the caller, which hands back the status,
//! the body, and what the body decoded to.

use vstd::prelude::*;
use vstd::string::StringExecFns;
use crate::text::join;

verus! {

pub const DEFAULT_BASE_URL: &'static str = "http://localhost:3000/api";
pub const DEFAULT_FINGERPRINT: &'static str = "esp32-device";
pub const DEFAULT_TIMEOUT_SECS: u64 = 300;

pub const CREATE_SESSION_PATH: &'static str = "/chat/create";
pub const MODEL_QUERY: &'static str = "?model=";
pub const MESSAGE_PATH: &'static str = "/chat/message/";
pub const PROMPT_PATH: &'static str = "/chat/prompt/";
pub const FINGERPRINT_HEADER: &'static str = "X-Fingerprint";
pub const CONTENT_TYPE_HEADER: &'static str = "Content-Type";
pub const JSON_CONTENT_TYPE: &'static str = "application/json";

/// The message of an error response that carries none.
pub const UNKNOWN_ERROR: &'static str = "Unknown error";

/// HTTP status of a successful call.
pub const STATUS_OK: u16 = 200;

/// Where the service is, how the device identifies itself, how long to wait.
#[derive(Clone, Debug)]
pub struct ApiConfig {
    pub base_url: String,
    pub fingerprint: String,
    pub timeout_secs: u64,
}

impl Default for ApiConfig {
    fn default() -> (r: ApiConfig)
        ensures
            r.base_url@ == DEFAULT_BASE_URL@,
            r.fingerprint@ == DEFAULT_FINGERPRINT@,
            r.timeout_secs == DEFAULT_TIMEOUT_SECS,
    {
        ApiConfig {
            base_url: String::from_str(DEFAULT_BASE_URL),
            fingerprint: String::from_str(DEFAULT_FINGERPRINT),
            timeout_secs: DEFAULT_TIMEOUT_SECS,
        }
    }
}

/// A failed call.
#[derive(Clone, Debug)]
pub enum ApiError {
    /// The HTTP exchange failed, with the transport's message.
    Http(String),
    /// A body was not the JSON expected, with the decoder's message.
    Json(String),
    /// A body was not UTF-8.
    Utf8(String),
    /// The service answered with a non-success status.
    Api { status: u16, message: String },
    SessionNotFound,
    InvalidFingerprint,
    Timeout,
}

/// A response body as decoded by the caller: `None` when it is not an API
/// response at all, else the message it carries, if any.
pub type DecodedMessage = Option<Option<String>>;

/// The message reported for a failed call: the response's own message, or
/// "Unknown error" when it has none, or the raw body when it is not an API
/// response.
pub open spec fn error_message(response_text: Seq<char>, decoded: DecodedMessage) -> Seq<char> {
    match decoded {
        None => response_text,
        Some(None) => UNKNOWN_ERROR@,
        Some(Some(m)) => m@,
    }
}

/// The error for a non-success `status`, see [`error_message`].
pub fn create_api_error(status: u16, response_text: &str, decoded: DecodedMessage) -> (r: ApiError)
    ensures
        r matches ApiError::Api { status: s, message: m } && s == status && m@ == error_message(
            response_text@,
            decoded,
        ),
{
    let message = match decoded {
        None => String::from_str(response_text),
        Some(None) => String::from_str(UNKNOWN_ERROR),
        Some(Some(m)) => m,
    };
    ApiError::Api { status, message }
}

/// Client of the chat service.
pub struct ApiClient {
    config: ApiConfig,
}

impl ApiClient {
    pub closed spec fn config(&self) -> ApiConfig {
        self.config
    }

    pub fn new(config: ApiConfig) -> (r: ApiClient)
        ensures
            r.config() == config,
    {
        ApiClient { config }
    }

    pub fn timeout_secs(&self) -> (r: u64)
        ensures
            r == self.config().timeout_secs,
    {
        self.config.timeout_secs
    }

    /// The headers of every request: the device fingerprint and the JSON
    /// content type.
    pub fn build_headers(&self) -> (r: Vec<(&str, &str)>)
        ensures
            r@.len() == 2,
            r@[0].0@ == FINGERPRINT_HEADER@,
            r@[0].1@ == self.config().fingerprint@,
            r@[1].0@ == CONTENT_TYPE_HEADER@,
            r@[1].1@ == JSON_CONTENT_TYPE@,
    {
        let mut headers: Vec<(&str, &str)> = Vec::new();
        headers.push((FINGERPRINT_HEADER, self.config.fingerprint.as_str()));
        headers.push((CONTENT_TYPE_HEADER, JSON_CONTENT_TYPE));
        headers
    }

    /// `<base>/chat/create`, with `?model=<model>` when a model is named.
    pub fn create_session_url(&self, model: Option<&str>) -> (r: String)
        ensures
            r@ == self.config().base_url@ + CREATE_SESSION_PATH@ + match model {
                Some(m) => MODEL_QUERY@ + m@,
                None => Seq::<char>::empty(),
            },
    {
        let mut url = join(self.config.base_url.as_str(), CREATE_SESSION_PATH);
        if let Some(m) = model {
            url.append(MODEL_QUERY);
            url.append(m);
        }
        proof {
            if model is None {
                assert(url@ =~= url@ + Seq::<char>::empty());
            } else {
                assert(url@ =~= self.config().base_url@ + CREATE_SESSION_PATH@ + (MODEL_QUERY@
                    + model->0@));
            }
        }
        url
    }

    /// `<base>/chat/message/<session_id>`.
    pub fn message_url(&self, session_id: &str) -> (r: String)
        ensures
            r@ == self.config().base_url@ + MESSAGE_PATH@ + session_id@,
    {
        let mut url = join(self.config.base_url.as_str(), MESSAGE_PATH);
        url.append(session_id);
        url
    }

    /// `<base>/chat/prompt/<session_id>`.
    pub fn prompt_url(&self, session_id: &str) -> (r: String)
        ensures
            r@ == self.config().base_url@ + PROMPT_PATH@ + session_id@,
    {
        let mut url = join(self.config.base_url.as_str(), PROMPT_PATH);
        url.append(session_id);
        url
    }

    /// The data of a response: on status 200 the data of the decoded
    /// envelope, or a JSON error with the decoder's message when the body
    /// did not decode; on any other status the error of
    /// [`create_api_error`].
    pub fn handle_response<T>(
        &self,
        status: u16,
        response_text: &str,
        body: Result<ApiResponse<T>, String>,
        decoded: DecodedMessage,
    ) -> (r: Result<T, ApiError>)
        ensures
            status == STATUS_OK ==> match body {
                Ok(envelope) => r == Ok::<T, ApiError>(envelope.data),
                Err(e) => r matches Err(ApiError::Json(m)) && m@ == e@,
            },
            status != STATUS_OK ==> (r matches Err(ApiError::Api { status: s, message: m }) && s
                == status && m@ == error_message(response_text@, decoded)),
    {
        if status == STATUS_OK {
            match body {
                Ok(envelope) => Ok(envelope.data),
                Err(e) => Err(ApiError::Json(e)),
            }
        } else {
            Err(create_api_error(status, response_text, decoded))
        }
    }

    /// The session id from the answer to a create-session request, as
    /// [`ApiClient::handle_response`] reads it.
    pub fn create_session(
        &self,
        status: u16,
        response_text: &str,
        body: Result<ApiResponse<SessionInfo>, String>,
        decoded: DecodedMessage,
    ) -> (r: Result<String, ApiError>)
        ensures
            status == STATUS_OK ==> match body {
                Ok(envelope) => r == Ok::<String, ApiError>(envelope.data.session_id),
                Err(e) => r matches Err(ApiError::Json(m)) && m@ == e@,
            },
            status != STATUS_OK ==> (r matches Err(ApiError::Api { status: s, message: m }) && s
                == status && m@ == error_message(response_text@, decoded)),
    {
        match self.handle_response(status, response_text, body, decoded) {
            Ok(info) => Ok(info.session_id),
            Err(e) => Err(e),
        }
    }

    /// Success exactly on status 200; otherwise the error of
    /// [`create_api_error`].
    pub fn handle_response_unit(&self, status: u16, response_text: &str, decoded: DecodedMessage) -> (r:
        Result<(), ApiError>)
        ensures
            r is Ok <==> status == STATUS_OK,
            r matches Err(e) ==> e matches ApiError::Api { status: s, message: m } && s == status
                && m@ == error_message(response_text@, decoded),
    {
        if status == STATUS_OK {
            Ok(())
        } else {
            Err(create_api_error(status, response_text, decoded))
        }
    }
}

/// A decoded response envelope.
#[derive(Clone, Debug)]
pub struct ApiResponse<T> {
    pub status: u16,
    pub data: T,
    pub message: Option<String>,
}

#[derive(Clone, Debug)]
pub struct SessionInfo {
    pub session_id: String,
}

#[derive(Clone, Debug)]
pub struct MessageRequest {
    pub message: String,
    pub files: Option<Vec<String>>,
}

#[derive(Clone, Debug)]
pub struct MessageHistory {
    pub role: String,
    pub content: String,
}

#[derive(Clone, Debug)]
pub struct SessionHistoryItem {
    pub session_id: String,
    pub title: String,
    pub created_at: String,
    pub updated_at: String,
}

/// One server-sent event of a streamed reply.
#[derive(Clone, Debug)]
pub struct SseEvent {
    pub event_type: String,
    pub content: Option<String>,
    pub message_id: Option<String>,
}

pub const DEFAULT_PCM_BASE_URL: &'static str = "http://192.168.1.100:8080";
pub const DEFAULT_PCM_SESSION_ID: &'static str = "esp32_device_001";
pub const DEFAULT_PCM_TIMEOUT_SECS: u64 = 30;
pub const PCM_PATH: &'static str = "/pcm/";

/// Where recorded audio is uploaded.
pub struct PcmClientConfig {
    pub base_url: String,
    pub session_id: String,
    pub timeout_secs: u64,
}

impl Default for PcmClientConfig {
    fn default() -> (r: PcmClientConfig)
        ensures
            r.base_url@ == DEFAULT_PCM_BASE_URL@,
            r.session_id@ == DEFAULT_PCM_SESSION_ID@,
            r.timeout_secs == DEFAULT_PCM_TIMEOUT_SECS,
    {
        PcmClientConfig {
            base_url: String::from_str(DEFAULT_PCM_BASE_URL),
            session_id: String::from_str(DEFAULT_PCM_SESSION_ID),
            timeout_secs: DEFAULT_PCM_TIMEOUT_SECS,
        }
    }
}

/// Uploads raw PCM audio (16-bit, 16 kHz, mono) to a session.
pub struct PcmClient {
    config: PcmClientConfig,
}

impl PcmClient {
    pub closed spec fn base_url(&self) -> Seq<char> {
        self.config.base_url@
    }

    pub closed spec fn session(&self) -> Seq<char> {
        self.config.session_id@
    }

    pub closed spec fn timeout(&self) -> u64 {
        self.config.timeout_secs
    }

    pub fn new(config: PcmClientConfig) -> (r: PcmClient)
        ensures
            r.base_url() == config.base_url@,
            r.session() == config.session_id@,
            r.timeout() == config.timeout_secs,
    {
        PcmClient { config }
    }

    pub fn set_session_id(&mut self, session_id: String)
        ensures
            final(self).session() == session_id@,
            final(self).base_url() == old(self).base_url(),
            final(self).timeout() == old(self).timeout(),
    {
        self.config.session_id = session_id;
    }

    pub fn session_id(&self) -> (r: &str)
        ensures
            r@ == self.session(),
    {
        self.config.session_id.as_str()
    }

    pub fn timeout_secs(&self) -> (r: u64)
        ensures
            r == self.timeout(),
    {
        self.config.timeout_secs
    }

    /// `<base>/pcm/<session_id>`, where chunks are posted.
    pub fn pcm_url(&self) -> (r: String)
        ensures
            r@ == self.base_url() + PCM_PATH@ + self.session(),
    {
        let mut url = join(self.config.base_url.as_str(), PCM_PATH);
        url.append(self.config.session_id.as_str());
        url
    }
}

} // verus!
