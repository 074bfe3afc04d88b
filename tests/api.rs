use rocket::serde::ser::SerializeStruct;
use rocket::serde::{Serialize, Serializer};
use waveemapi::api::catcher::{catchers, default_error_resp, DefaultErrorResp};
use waveemapi::api::status::{routes as status_routes, status, StatusResp};
use waveemapi::api::upload::routes as upload_routes;
use waveemapi::api::Endpoint;
use waveemapi::auth::{check_api_key, AuthError};
use waveemapi::config::{Config, DEFAULT_DATA_PATH};
use waveemapi::error::WaveemapiError;

struct StatusJson<'a>(&'a StatusResp);

impl Serialize for StatusJson<'_> {
    fn serialize<S: Serializer>(&self, serializer: S) -> Result<S::Ok, S::Error> {
        let mut st = serializer.serialize_struct("StatusResp", 1)?;
        st.serialize_field("status", &self.0.status)?;
        st.end()
    }
}

#[test]
fn test_catchers_len() {
    let c = catchers();
    assert!(!c.is_empty());
}

#[test]
fn test_default_error_resp() {
    let err = DefaultErrorResp {
        error: "fail".to_string(),
    };
    assert_eq!(err.error, "fail");
}

#[test]
fn mod_test_status_resp_serialization() {
    let resp = StatusResp {
        status: "Online".to_string(),
    };
    let jsonser = rocket::serde::json::to_string(&StatusJson(&resp)).unwrap();
    assert_eq!(jsonser, r#"{"status":"Online"}"#);
}

#[test]
fn status_reports_online() {
    assert_eq!(status().status, "Online");
}

#[test]
fn status_test_status_resp_serialization() {
    let resp = StatusResp {
        status: "Online".to_string(),
    };
    let jsonser = rocket::serde::json::to_string(&StatusJson(&resp)).unwrap();
    assert_eq!(jsonser, r#"{"status":"Online"}"#);
}

#[test]
fn test_default_config() {
    let config = Config::default();
    assert_eq!(config.data_path, DEFAULT_DATA_PATH);
    assert!(config.auth_enabled);
    assert!(config.auth_tokens.is_empty());
    assert!(config.cleanup_interval_minutes == 15);
    assert!(config.file_expiry_minutes == 60);
}

#[test]
fn config_durations() {
    let config = Config::default();
    assert_eq!(config.cleanup_interval_secs(), Some(900));
    assert_eq!(config.file_expiry_nanos(), 3_600_000_000_000);
    let huge = Config {
        cleanup_interval_minutes: u64::MAX,
        ..Config::default()
    };
    assert_eq!(huge.cleanup_interval_secs(), None);
}

#[test]
fn route_tables() {
    let s = status_routes();
    assert_eq!(s.len(), 1);
    assert_eq!(s[0].base, "/api/status");
    assert_eq!(s[0].endpoint, Endpoint::Status);
    let u = upload_routes();
    assert_eq!(u.len(), 1);
    assert_eq!(u[0].base, "/api/upload");
    assert_eq!(u[0].endpoint, Endpoint::Upload);
    let c = catchers();
    assert_eq!(c[0].base, "/api");
    assert_eq!(c[0].code, None);
}

#[test]
fn error_body_carries_reason() {
    assert_eq!(default_error_resp("Not Found").error, "Not Found");
}

#[test]
fn error_status_and_message() {
    let e = WaveemapiError::UnsupportedFormat;
    assert_eq!(e.status_code(), 400);
    assert_eq!(e.message(), "Invalid WAV file");
    let e = WaveemapiError::MalformedSample(None);
    assert_eq!(e.status_code(), 400);
    assert_eq!(e.message(), "Invalid WAV file");
    let e = WaveemapiError::BuildFailure(mp3lame_encoder::BuildError::Generic);
    assert_eq!(e.status_code(), 400);
    assert_eq!(e.message(), "Failed to build encoder");
    let e = WaveemapiError::EncodeFailure(mp3lame_encoder::EncodeError::NoMem);
    assert_eq!(e.status_code(), 500);
    assert_eq!(e.message(), "Failed to encode MP3");
    let e = WaveemapiError::IoFailure(std::io::Error::other("fail"));
    assert_eq!(e.status_code(), 500);
    assert_eq!(e.message(), "Internal server error");
    let e = WaveemapiError::DirectoryInvalid;
    assert_eq!(e.status_code(), 500);
    assert_eq!(e.message(), "Internal server error");
}

#[test]
fn api_key_checks() {
    let key = "secret".to_string();
    let other = "uwu".to_string();
    assert_eq!(check_api_key(None, Some(&key)).unwrap_err(), AuthError::Missing);
    assert_eq!(
        check_api_key(Some(&key), None).unwrap_err(),
        AuthError::InvalidServerSetup
    );
    assert_eq!(check_api_key(Some(&other), Some(&key)).unwrap_err(), AuthError::Invalid);
    assert!(check_api_key(Some(&key), Some(&key)).is_ok());
    assert_eq!(AuthError::Missing.status_code(), 400);
    assert_eq!(AuthError::Invalid.status_code(), 401);
    assert_eq!(AuthError::InvalidServerSetup.status_code(), 500);
}
