use glimpser::web::json::{JsonNumber, JsonValue};
use glimpser::web::stream_config::{ConfigDecodeError, StreamConfig, TemplateKind};
use glimpser::web::streams::{generate_etag as stream_etag, validate_stream_config, StoredStream};
use glimpser::web::templates::{generate_etag as template_etag, validate_template_config, StoredTemplate};

/// The library's JSON value for a `serde_json` value.
fn to_json_value(v: serde_json::Value) -> JsonValue {
    match v {
        serde_json::Value::Null => JsonValue::Null,
        serde_json::Value::Bool(b) => JsonValue::Bool(b),
        serde_json::Value::Number(n) => {
            if let Some(u) = n.as_u64() {
                JsonValue::Number(JsonNumber::PosInt(u))
            } else if let Some(i) = n.as_i64() {
                JsonValue::Number(JsonNumber::NegInt(i))
            } else {
                JsonValue::Number(JsonNumber::Float(n.as_f64().unwrap_or(0.0).to_bits()))
            }
        }
        serde_json::Value::String(s) => JsonValue::Str(s),
        serde_json::Value::Array(a) => JsonValue::Array(a.into_iter().map(to_json_value).collect()),
        serde_json::Value::Object(o) => {
            JsonValue::Object(o.into_iter().map(|(k, v)| (k, to_json_value(v))).collect())
        }
    }
}

fn json(text: &str) -> JsonValue {
    to_json_value(serde_json::from_str(text).unwrap())
}

fn stream_config(text: &str) -> Result<StreamConfig, ConfigDecodeError> {
    TemplateKind::from_json(json(text))
}

#[test]
fn deserialize_rtsp_template() {
    let config = TemplateKind::from_json(json(r#"{"kind":"rtsp","url":"rtsp://example"}"#)).unwrap();
    match config {
        TemplateKind::Rtsp(t) => assert_eq!(t.url, "rtsp://example"),
        _ => panic!("expected rtsp"),
    }
}

#[test]
fn deserialize_file_template() {
    let config = TemplateKind::from_json(json(r#"{"kind":"file","file_path":"/tmp/video.mp4"}"#)).unwrap();
    match config {
        TemplateKind::File(t) => assert_eq!(t.file_path, "/tmp/video.mp4"),
        _ => panic!("expected file"),
    }
}

#[test]
fn deserialize_ffmpeg_template() {
    let config = TemplateKind::from_json(json(r#"{"kind":"ffmpeg","source_url":"rtsp://cam"}"#)).unwrap();
    match config {
        TemplateKind::Ffmpeg(t) => assert_eq!(t.source_url, "rtsp://cam"),
        _ => panic!("expected ffmpeg"),
    }
}

#[test]
fn deserialize_website_template() {
    let config = TemplateKind::from_json(json(
        r#"{"kind":"website","url":"https://example.com","width":800,"height":600}"#,
    ))
    .unwrap();
    match config {
        TemplateKind::Website(t) => {
            assert_eq!(t.url, "https://example.com");
            assert_eq!(t.width, Some(800));
            assert_eq!(t.height, Some(600));
        }
        _ => panic!("expected website"),
    }
}

#[test]
fn deserialize_yt_template() {
    let config = TemplateKind::from_json(json(r#"{"kind":"yt","url":"https://youtu.be/test"}"#)).unwrap();
    match config {
        TemplateKind::Yt(t) => assert_eq!(t.url, "https://youtu.be/test"),
        _ => panic!("expected yt"),
    }
}

#[test]
fn streams_test_ffmpeg_config_validation() {
    let valid_config = stream_config(r#"{"kind": "ffmpeg", "source_url": "rtsp://camera/stream"}"#).unwrap();
    assert!(validate_stream_config(&valid_config).is_ok());

    let invalid_config = stream_config(r#"{"kind": "ffmpeg"}"#);
    assert!(invalid_config.is_err());
}

#[test]
fn streams_test_file_config_validation() {
    let valid_config = stream_config(r#"{"kind": "file", "file_path": "/path/to/video.mp4"}"#).unwrap();
    assert!(validate_stream_config(&valid_config).is_ok());

    let invalid_config = stream_config(r#"{"kind": "file"}"#);
    assert!(invalid_config.is_err());
}

#[test]
fn streams_test_website_config_validation() {
    let valid_config = stream_config(
        r##"{"kind": "website", "url": "https://example.com", "headless": true, "stealth": false,
            "width": 1280, "height": 720, "element_selector": "#main"}"##,
    )
    .unwrap();
    assert!(validate_stream_config(&valid_config).is_ok());

    let invalid_config = stream_config(r#"{"kind": "website"}"#);
    assert!(invalid_config.is_err());

    let invalid_config = stream_config(r#"{"kind": "website", "url": "not-a-url"}"#).unwrap();
    assert!(validate_stream_config(&invalid_config).is_err());

    let invalid_config = stream_config(
        r#"{"kind": "website", "url": "https://example.com", "headless": "not-a-boolean"}"#,
    );
    assert!(invalid_config.is_err());
}

#[test]
fn streams_test_yt_config_validation() {
    let valid_config = stream_config(
        r#"{"kind": "yt", "url": "https://www.youtube.com/watch?v=dQw4w9WgXcQ", "format": "best",
            "is_live": false, "timeout": 60, "options": {"cookies": "/path/to/cookies.txt"}}"#,
    )
    .unwrap();
    assert!(validate_stream_config(&valid_config).is_ok());

    let invalid_config = stream_config(r#"{"kind": "yt"}"#);
    assert!(invalid_config.is_err());

    let invalid_config = stream_config(r#"{"kind": "yt", "url": "not-a-url"}"#).unwrap();
    assert!(validate_stream_config(&invalid_config).is_err());

    let invalid_config = stream_config(
        r#"{"kind": "yt", "url": "https://youtube.com/watch?v=test", "is_live": "not-a-boolean"}"#,
    );
    assert!(invalid_config.is_err());

    let invalid_config = stream_config(
        r#"{"kind": "yt", "url": "https://youtube.com/watch?v=test", "timeout": "not-a-number"}"#,
    );
    assert!(invalid_config.is_err());

    let invalid_config = stream_config(
        r#"{"kind": "yt", "url": "https://youtube.com/watch?v=test", "options": "not-an-object"}"#,
    );
    assert!(invalid_config.is_err());
}

#[test]
fn streams_test_unknown_kind_validation() {
    let invalid_config = stream_config(r#"{"kind": "unknown"}"#);
    assert!(invalid_config.is_err());
}

#[test]
fn streams_test_etag_generation() {
    let stream = StoredStream {
        id: "test".to_string(),
        user_id: "user".to_string(),
        name: "Test".to_string(),
        description: None,
        config: "{}".to_string(),
        is_default: false,
        execution_status: Some("idle".to_string()),
        last_executed_at: None,
        last_error_message: None,
        created_at: "2023-01-01T00:00:00Z".to_string(),
        updated_at: "2023-01-01T00:00:00Z".to_string(),
    };

    let etag = stream_etag(&stream);
    assert_eq!(etag, "\"2023-01-01T00:00:00Z\"");
}

#[test]
fn templates_test_ffmpeg_config_validation() {
    let valid_config = json(r#"{"kind": "ffmpeg", "source_url": "rtsp://camera/stream"}"#);
    assert!(validate_template_config(&valid_config).is_ok());

    let invalid_config = json(r#"{"kind": "ffmpeg"}"#);
    assert!(validate_template_config(&invalid_config).is_err());
}

#[test]
fn templates_test_file_config_validation() {
    let valid_config = json(r#"{"kind": "file", "file_path": "/path/to/video.mp4"}"#);
    assert!(validate_template_config(&valid_config).is_ok());

    let invalid_config = json(r#"{"kind": "file"}"#);
    assert!(validate_template_config(&invalid_config).is_err());
}

#[test]
fn templates_test_website_config_validation() {
    let valid_config = json(
        r##"{"kind": "website", "url": "https://example.com", "headless": true, "stealth": false,
            "width": 1280, "height": 720, "element_selector": "#main"}"##,
    );
    assert!(validate_template_config(&valid_config).is_ok());

    let invalid_config = json(r#"{"kind": "website"}"#);
    assert!(validate_template_config(&invalid_config).is_err());

    let invalid_config = json(r#"{"kind": "website", "url": "not-a-url"}"#);
    assert!(validate_template_config(&invalid_config).is_err());

    let invalid_config =
        json(r#"{"kind": "website", "url": "https://example.com", "headless": "not-a-boolean"}"#);
    assert!(validate_template_config(&invalid_config).is_err());
}

#[test]
fn templates_test_yt_config_validation() {
    let valid_config = json(
        r#"{"kind": "yt", "url": "https://www.youtube.com/watch?v=dQw4w9WgXcQ", "format": "best",
            "is_live": false, "timeout": 60, "options": {"cookies": "/path/to/cookies.txt"}}"#,
    );
    assert!(validate_template_config(&valid_config).is_ok());

    let invalid_config = json(r#"{"kind": "yt"}"#);
    assert!(validate_template_config(&invalid_config).is_err());

    let invalid_config = json(r#"{"kind": "yt", "url": "not-a-url"}"#);
    assert!(validate_template_config(&invalid_config).is_err());

    let invalid_config =
        json(r#"{"kind": "yt", "url": "https://youtube.com/watch?v=test", "is_live": "not-a-boolean"}"#);
    assert!(validate_template_config(&invalid_config).is_err());

    let invalid_config =
        json(r#"{"kind": "yt", "url": "https://youtube.com/watch?v=test", "timeout": "not-a-number"}"#);
    assert!(validate_template_config(&invalid_config).is_err());

    let invalid_config =
        json(r#"{"kind": "yt", "url": "https://youtube.com/watch?v=test", "options": "not-an-object"}"#);
    assert!(validate_template_config(&invalid_config).is_err());
}

#[test]
fn templates_test_unknown_kind_validation() {
    let invalid_config = json(r#"{"kind": "unknown"}"#);
    assert!(validate_template_config(&invalid_config).is_err());
}

#[test]
fn templates_test_etag_generation() {
    let template = StoredTemplate {
        id: "test".to_string(),
        user_id: "user".to_string(),
        name: "Test".to_string(),
        description: None,
        config: "{}".to_string(),
        is_default: false,
        execution_status: Some("idle".to_string()),
        last_executed_at: None,
        last_error_message: None,
        created_at: "2023-01-01T00:00:00Z".to_string(),
        updated_at: "2023-01-01T00:00:00Z".to_string(),
    };

    let etag = template_etag(&template);
    assert_eq!(etag, "\"2023-01-01T00:00:00Z\"");
}

// ---------------------------------------------------------------------------
// Further cases
// ---------------------------------------------------------------------------

#[test]
fn config_decode_errors_are_precise() {
    assert_eq!(stream_config(r#"{"url": "x"}"#).unwrap_err(), ConfigDecodeError::MissingKind);
    assert_eq!(stream_config(r#"{"kind": 3}"#).unwrap_err(), ConfigDecodeError::UnknownKind);
    assert_eq!(stream_config(r#"{"kind": "unknown"}"#).unwrap_err(), ConfigDecodeError::UnknownKind);
    assert_eq!(stream_config(r#"{"kind": "file"}"#).unwrap_err(), ConfigDecodeError::MissingField);
    assert_eq!(
        stream_config(r#"{"kind": "website", "url": "https://e.com", "width": "wide"}"#).unwrap_err(),
        ConfigDecodeError::InvalidField
    );
    assert_eq!(stream_config("42").unwrap_err(), ConfigDecodeError::NotAConfig);
}

#[test]
fn stream_config_violation_texts() {
    let c = stream_config(r#"{"kind": "rtsp", "url": ""}"#).unwrap();
    assert_eq!(validate_stream_config(&c).unwrap_err(), "url: Validation error: length");
    let c = stream_config(r#"{"kind": "file", "file_path": ""}"#).unwrap();
    assert_eq!(validate_stream_config(&c).unwrap_err(), "file_path: Validation error: length");
    let c = stream_config(r#"{"kind": "yt", "url": "nope"}"#).unwrap();
    assert_eq!(validate_stream_config(&c).unwrap_err(), "url: Validation error: url");
}

#[test]
fn template_config_error_texts() {
    assert_eq!(
        validate_template_config(&json("[]")).unwrap_err(),
        "Template config must be a JSON object"
    );
    assert_eq!(
        validate_template_config(&json("{}")).unwrap_err(),
        "Template config must have a 'kind' field"
    );
    assert_eq!(
        validate_template_config(&json(r#"{"kind": "rtsp"}"#)).unwrap_err(),
        "Unknown template kind: rtsp"
    );
    assert_eq!(
        validate_template_config(&json(r#"{"kind": "ffmpeg"}"#)).unwrap_err(),
        "ffmpeg config must have 'source_url' field"
    );
    assert_eq!(
        validate_template_config(&json(r#"{"kind": "website", "url": ""}"#)).unwrap_err(),
        "website 'url' cannot be empty"
    );
    assert_eq!(
        validate_template_config(&json(r#"{"kind": "yt", "url": "ftp://x"}"#)).unwrap_err(),
        "yt 'url' must start with http:// or https://"
    );
}
