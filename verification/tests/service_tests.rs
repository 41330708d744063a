use glimpser::error::Error;
use glimpser::web::accounts::{
    api_login_error, check_login, login_response, page_login_error, LoginRequest, LoginVerdict,
    SignupAction, SignupEvent, SignupFlow, SignupReply, SignupRequest, StoredUser,
};
use glimpser::web::ai::{
    check_summarize_request, decode_frame_image, DescribeFrameApiRequest, SummarizeApiRequest,
};
use glimpser::web::alerts::{all_profiles, notification_channels, CapProfile};
use glimpser::web::capture_manager::{capture_kind, config_kind, CaptureKind, CaptureManager, CaptureStatus};
use glimpser::web::capture_plan::{create_capture_source_from_stream, take_snapshot_plan, CapturePlan, HardwareAccel};
use glimpser::web::import_export::{import_mode, ImportAction, ImportEvent, ImportFlavor, ImportMode, ImportRun};
use glimpser::web::json::{JsonNumber, JsonValue};
use glimpser::web::stream_form::StreamConfigForEdit;
use glimpser::web::pages::{generate_etag, html_escape, setting_update_of, stream_info_of, LagSampler};
use glimpser::web::password::{Argon2Config, PasswordAuth};
use glimpser::web::public::{
    extract_resolution_from_config, extract_source_from_stream_config, get_fps_for_stream_type,
    stream_status_of,
};
use glimpser::web::models::StreamStatus;
use glimpser::web::admin::{api_key_hash, parse_timestamp_to_utc};
use glimpser::web::static_files::{
    cache_control, content_security_policy, etag_matches, file_etag, generate_csp_nonce,
    is_reserved_path, security_headers, static_reply, static_target, StaticConfig, StaticReply,
};
use glimpser::web::streams::{total_pages, ListStreamsQuery, StoredStream};
use sha2::{Digest, Sha256};

fn to_json_value(v: serde_json::Value) -> JsonValue {
    match v {
        serde_json::Value::Null => JsonValue::Null,
        serde_json::Value::Bool(b) => JsonValue::Bool(b),
        serde_json::Value::Number(n) => {
            if let Some(u) = n.as_u64() {
                JsonValue::Number(JsonNumber::PosInt(u))
            } else if let Some(i) = n.as_i64() {
                JsonValue::Number(JsonNumber::NegInt(i))
            } else {
                JsonValue::Number(JsonNumber::Float(n.as_f64().unwrap_or(0.0).to_bits()))
            }
        }
        serde_json::Value::String(s) => JsonValue::Str(s),
        serde_json::Value::Array(a) => JsonValue::Array(a.into_iter().map(to_json_value).collect()),
        serde_json::Value::Object(o) => {
            JsonValue::Object(o.into_iter().map(|(k, v)| (k, to_json_value(v))).collect())
        }
    }
}

fn json(text: &str) -> JsonValue {
    to_json_value(serde_json::from_str(text).unwrap())
}

fn stored_stream(id: &str, status: Option<&str>) -> StoredStream {
    StoredStream {
        id: id.to_string(),
        user_id: "u".to_string(),
        name: "Cam <1>".to_string(),
        description: None,
        config: "{}".to_string(),
        is_default: false,
        execution_status: status.map(|s| s.to_string()),
        last_executed_at: None,
        last_error_message: None,
        created_at: "t0".to_string(),
        updated_at: "t1".to_string(),
    }
}

// ---------------------------------------------------------------------------
// Pages and static files
// ---------------------------------------------------------------------------

#[test]
fn html_escaping() {
    assert_eq!(html_escape("<a href=\"x\">Tom & Jerry's</a>"), "&lt;a href=&quot;x&quot;&gt;Tom &amp; Jerry&#x27;s&lt;/a&gt;");
    assert_eq!(html_escape("plain"), "plain");
}

#[test]
fn image_etag_is_hash_prefix() {
    let bytes = b"jpeg bytes";
    let expected = format!("\"{}\"", hex::encode(&Sha256::digest(bytes)[..8]));
    assert_eq!(generate_etag(bytes), expected);
}

#[test]
fn stream_rows_filter() {
    let s = stored_stream("s1", None);
    let info = stream_info_of(&s, None).unwrap();
    assert_eq!(info.status, "inactive");
    assert_eq!(info.last_frame_at, "Never");
    assert!(stream_info_of(&s, Some("active")).is_none());
    assert!(stream_info_of(&s, Some("inactive")).is_some());
    let a = stored_stream("s2", Some("active"));
    assert!(stream_info_of(&a, Some("inactive")).is_none());
}

#[test]
fn lag_logging_every_tenth_frame() {
    let mut l = LagSampler::new();
    let logged: Vec<bool> = (0..21).map(|_| l.should_log_mjpeg_lag()).collect();
    assert_eq!(logged.iter().filter(|b| **b).count(), 3);
    assert!(logged[0] && logged[10] && logged[20]);
}

#[test]
fn static_file_rules() {
    let cfg = StaticConfig::default();
    assert_eq!(cache_control(&cfg), "public, max-age=86400");
    assert!(content_security_policy(&cfg).unwrap().starts_with("default-src 'self'; script-src 'self'; "));
    let with_nonce = StaticConfig { csp_nonce: Some("abc".to_string()), ..StaticConfig::default() };
    assert!(content_security_policy(&with_nonce).unwrap().contains("'nonce-abc'"));
    let off = StaticConfig { enable_csp: false, ..StaticConfig::default() };
    assert!(content_security_policy(&off).is_none());
    assert!(is_reserved_path("api/streams"));
    assert!(is_reserved_path("docs"));
    assert!(!is_reserved_path("index.html"));
    assert_eq!(security_headers().len(), 5);
    assert_eq!(generate_csp_nonce().len(), 32);
}

#[test]
fn file_etags() {
    let expected = format!("W/\"{}\"", hex::encode(&Sha256::digest(b"1700000000-1234")[..8]));
    assert_eq!(file_etag(1_700_000_000, 1234), expected);
    assert!(etag_matches(Some(&format!("{}, W/\"x\"", expected)), &expected));
    assert!(!etag_matches(None, &expected));
}

// ---------------------------------------------------------------------------
// Streams and public list
// ---------------------------------------------------------------------------

#[test]
fn pagination() {
    let q = ListStreamsQuery { page: 2, page_size: 20, search: None, user_id: None };
    assert_eq!(q.window().unwrap(), (40, 20));
    let q = ListStreamsQuery { page: 0, page_size: 101, search: None, user_id: None };
    assert_eq!(q.window().unwrap_err(), "page_size cannot exceed 100");
    assert_eq!(total_pages(0, 20), 0);
    assert_eq!(total_pages(41, 20), 3);
    assert_eq!(total_pages(40, 20), 2);
    let first = ListStreamsQuery::first_page();
    assert_eq!((first.page, first.page_size), (0, 20));
}

#[test]
fn public_list_fields() {
    let web = json(r#"{"kind":"website","url":"https://e.com","width":800,"height":600}"#);
    assert_eq!(extract_source_from_stream_config(&web).as_deref(), Some("https://e.com"));
    assert_eq!(extract_resolution_from_config(&web).as_deref(), Some("800x600"));
    let rtsp = json(r#"{"kind":"rtsp","rtsp_url":"rtsp://cam"}"#);
    assert_eq!(extract_source_from_stream_config(&rtsp).as_deref(), Some("rtsp://cam"));
    assert_eq!(extract_source_from_stream_config(&json(r#"{"kind":"ffmpeg"}"#)), None);
    assert!(get_fps_for_stream_type(&web) > 0);
    assert_eq!(stream_status_of(Some("active"), true), StreamStatus::Active);
    assert_eq!(stream_status_of(Some("active"), false), StreamStatus::Inactive);
    assert_eq!(stream_status_of(Some("error"), false), StreamStatus::Error);
    assert_eq!(stream_status_of(None, true), StreamStatus::Inactive);
}

// ---------------------------------------------------------------------------
// Captures
// ---------------------------------------------------------------------------

#[test]
fn capture_registry() {
    let mut m = CaptureManager::new();
    let s = stored_stream("a", None);
    assert!(m.start_stream("a", Some(&s), 5).is_ok());
    assert!(m.is_stream_running("a"));
    let info = m.get_capture_status("a").unwrap();
    assert!(matches!(info.status, CaptureStatus::Starting));
    assert_eq!(info.started_at, Some(5));
    let e = m.start_stream("a", Some(&s), 6).unwrap_err();
    assert_eq!(e.detail(), "Stream capture already running");
    let e = m.start_stream("b", None, 6).unwrap_err();
    assert_eq!(e.detail(), "Stream b not found");
    let stopped = m.stop_stream("a").unwrap();
    assert_eq!(stopped.stream_id, "a");
    assert!(!m.is_stream_running("a"));
    assert_eq!(m.stop_stream("a").unwrap_err().detail(), "Stream capture not running");
    assert_eq!(m.get_all_captures().len(), 0);
}

#[test]
fn capture_status_names() {
    assert_eq!(CaptureStatus::Active.as_str(), "active");
    assert_eq!(CaptureStatus::Error("x".to_string()).as_str(), "error");
}

#[test]
fn capture_kinds() {
    assert!(matches!(capture_kind("yt").unwrap(), CaptureKind::Yt));
    assert_eq!(capture_kind("vhs").unwrap_err().detail(), "Unsupported stream kind: vhs");
    assert_eq!(config_kind(&Ok(json(r#"{"kind":"file"}"#))).unwrap(), "file");
    assert_eq!(config_kind(&Ok(json("{}"))).unwrap_err().detail(), "Stream config missing 'kind' field");
    assert_eq!(
        config_kind(&Err("eof".to_string())).unwrap_err().detail(),
        "Invalid stream config JSON: eof"
    );
}

#[test]
fn capture_plans() {
    let p = create_capture_source_from_stream(
        Ok(json(r#"{"kind":"ffmpeg","source_url":"rtsp://c","hardware_accel":"CUDA","timeout":30}"#)),
        true,
    )
    .unwrap();
    match p {
        CapturePlan::Ffmpeg(f) => {
            assert_eq!(f.input_url, "rtsp://c");
            assert_eq!(f.hardware_accel, Some(HardwareAccel::Cuda));
            assert_eq!(f.timeout, Some(30));
        }
        _ => panic!("expected an ffmpeg plan"),
    }
    let e = create_capture_source_from_stream(Ok(json(r#"{"kind":"file"}"#)), true).unwrap_err();
    assert_eq!(e.detail(), "Missing file_path");
    let e = take_snapshot_plan("s", Some(Ok(json(r#"{"kind":"file"}"#))), true).unwrap_err();
    assert_eq!(e.detail(), "File stream config missing 'file_path' field");
    let e = create_capture_source_from_stream(Ok(json(r#"{"kind":"website","url":"https://e"}"#)), false)
        .unwrap_err();
    assert_eq!(e.detail(), "Website capture not enabled - compile with 'website' feature");
    let e = take_snapshot_plan("s9", None, true).unwrap_err();
    assert!(matches!(e, Error::NotFound(_)));
    assert_eq!(e.detail(), "Stream s9 not found");
    match create_capture_source_from_stream(Ok(json(r#"{"kind":"file","file_path":"/v.mp4"}"#)), true).unwrap() {
        CapturePlan::File(p) => assert_eq!(p, "/v.mp4"),
        _ => panic!("expected a file plan"),
    }
}

// ---------------------------------------------------------------------------
// Alerts and AI requests
// ---------------------------------------------------------------------------

#[test]
fn cap_profiles() {
    let all = all_profiles();
    assert_eq!(all.len(), 12);
    assert_eq!(CapProfile::SevereWeather.key(), "severe_weather");
    assert_eq!(CapProfile::AllClear.label(), "AllClear");
}

#[test]
fn notification_channel_selection() {
    assert_eq!(notification_channels(Some("k"), None).unwrap(), vec!["pushover".to_string()]);
    assert_eq!(
        notification_channels(Some("k"), Some("https://hook.example/x")).unwrap(),
        vec!["pushover".to_string(), "webhook".to_string()]
    );
    assert_eq!(notification_channels(None, Some("not a url")).unwrap_err(), "Invalid webhook URL format");
    assert!(notification_channels(None, None).unwrap_err().starts_with("No notification channels provided"));
}

#[test]
fn summarize_requests() {
    let ok = SummarizeApiRequest { text: "hello".to_string(), max_length: None, style: None };
    assert!(check_summarize_request(&ok).is_ok());
    let blank = SummarizeApiRequest { text: "   ".to_string(), max_length: None, style: None };
    assert_eq!(check_summarize_request(&blank).unwrap_err().message, "Text cannot be empty");
    let long = SummarizeApiRequest { text: "x".repeat(50_001), max_length: None, style: None };
    assert_eq!(check_summarize_request(&long).unwrap_err().message, "Text too long (max 50,000 characters)");
}

#[test]
fn frame_image_decoding() {
    let req = DescribeFrameApiRequest {
        image_base64: "aGVsbG8=".to_string(),
        image_format: "jpeg".to_string(),
        detail_level: None,
        focus: None,
    };
    assert_eq!(decode_frame_image(&req).unwrap(), b"hello".to_vec());
    let bad = DescribeFrameApiRequest { image_base64: "***".to_string(), ..req };
    assert_eq!(decode_frame_image(&bad).unwrap_err().message, "Invalid base64 image data");
}

// ---------------------------------------------------------------------------
// Import
// ---------------------------------------------------------------------------

#[test]
fn import_modes() {
    assert_eq!(import_mode(Some("skip")), ImportMode::Skip);
    assert_eq!(import_mode(Some("overwrite")), ImportMode::Overwrite);
    assert_eq!(import_mode(Some("create_new")), ImportMode::CreateNew);
    assert_eq!(import_mode(Some("other")), ImportMode::Other);
}

#[test]
fn import_skips_and_creates() {
    let names = vec!["a".to_string(), "b".to_string()];
    let (mut run, action) = ImportRun::start(names, ImportMode::Skip, ImportFlavor::Api);
    assert_eq!(action, ImportAction::Lookup("a".to_string()));
    let action = run.advance(ImportEvent::Found(Some("id-a".to_string())));
    assert_eq!(action, ImportAction::Lookup("b".to_string()));
    let action = run.advance(ImportEvent::Found(None));
    assert_eq!(action, ImportAction::Create(1, "b".to_string()));
    let action = run.advance(ImportEvent::Created(Ok(())));
    assert_eq!(action, ImportAction::Finish);
    assert_eq!((run.imported(), run.skipped(), run.total()), (1, 1, 2));
    assert!(run.errors().is_empty());
}

#[test]
fn import_create_new_probes_names() {
    let (mut run, _) = ImportRun::start(vec!["cam".to_string()], ImportMode::CreateNew, ImportFlavor::Page);
    let action = run.advance(ImportEvent::Found(Some("x".to_string())));
    assert_eq!(action, ImportAction::Lookup("cam (1)".to_string()));
    let action = run.advance(ImportEvent::Found(Some("y".to_string())));
    assert_eq!(action, ImportAction::Lookup("cam (2)".to_string()));
    let action = run.advance(ImportEvent::Found(None));
    assert_eq!(action, ImportAction::Create(0, "cam (2)".to_string()));
    let action = run.advance(ImportEvent::Created(Err("disk full".to_string())));
    assert_eq!(action, ImportAction::Finish);
    assert_eq!(run.errors(), &vec!["Failed to create stream 'cam': disk full".to_string()]);
}

#[test]
fn import_overwrite_deletes_first() {
    let (mut run, _) = ImportRun::start(vec!["cam".to_string()], ImportMode::Overwrite, ImportFlavor::Api);
    let action = run.advance(ImportEvent::Found(Some("old".to_string())));
    assert_eq!(action, ImportAction::Delete("old".to_string()));
    let action = run.advance(ImportEvent::Deleted(Err("locked".to_string())));
    assert_eq!(action, ImportAction::Finish);
    assert_eq!(run.errors(), &vec!["Failed to delete existing stream 'cam': locked".to_string()]);
}

// ---------------------------------------------------------------------------
// Accounts
// ---------------------------------------------------------------------------

fn user(hash: &str, active: Option<bool>) -> StoredUser {
    StoredUser {
        id: "u1".to_string(),
        username: "admin".to_string(),
        email: "a@example.com".to_string(),
        password_hash: hash.to_string(),
        is_active: active,
        created_at: "t".to_string(),
    }
}

#[test]
fn login_checks() {
    let c = Argon2Config::default();
    let hash = PasswordAuth::hash_password("secret-pass", &c).unwrap();
    assert!(matches!(check_login(Err("db".to_string()), "x", &c), LoginVerdict::DatabaseError));
    assert!(matches!(check_login(Ok(None), "x", &c), LoginVerdict::InvalidCredentials));
    assert!(matches!(check_login(Ok(Some(user(&hash, None))), "secret-pass", &c), LoginVerdict::AccountDisabled));
    assert!(matches!(check_login(Ok(Some(user(&hash, Some(true)))), "wrong", &c), LoginVerdict::InvalidCredentials));
    assert!(matches!(check_login(Ok(Some(user("garbage", Some(true)))), "x", &c), LoginVerdict::AuthenticationError));
    assert!(matches!(check_login(Ok(Some(user(&hash, Some(true)))), "secret-pass", &c), LoginVerdict::Accepted(_)));

    assert_eq!(api_login_error(&LoginVerdict::AccountDisabled), (401, "account_disabled", "Account is disabled"));
    assert_eq!(page_login_error(&LoginVerdict::InvalidCredentials), "Invalid username or password");
}

#[test]
fn login_request_rules() {
    let ok = LoginRequest { email: "a@example.com".to_string(), password: "x".to_string() };
    assert!(ok.validate());
    let bad = LoginRequest { email: "not-an-email".to_string(), password: "x".to_string() };
    assert!(!bad.validate());
    let r = login_response(user("h", Some(true)));
    assert!(r.access_token.is_empty());
    assert_eq!(r.token_type, "Bearer");
    assert_eq!(r.expires_in, 86400);
    assert!(r.user.is_admin && r.user.is_active);
}

fn signup(password: &str) -> SignupRequest {
    SignupRequest { username: "admin".to_string(), email: "a@example.com".to_string(), password: password.to_string() }
}

#[test]
fn signup_refuses_invalid_request() {
    let (_, action) = SignupFlow::start(signup("short"), false, false);
    assert!(matches!(action, SignupAction::Reply(SignupReply::Refused(400, "validation_failed", _))));
}

#[test]
fn signup_of_first_admin() {
    let c = Argon2Config::default();
    let (flow, action) = SignupFlow::start(signup("long-enough"), true, true);
    assert!(matches!(action, SignupAction::CountUsers));
    let (flow, action) = flow.advance(SignupEvent::UsersExist(Ok(false)), &c);
    let hash = match action {
        SignupAction::CreateUser(name, email, hash) => {
            assert_eq!(name, "admin");
            assert_eq!(email, "a@example.com");
            hash
        }
        _ => panic!("expected the user to be created"),
    };
    assert!(PasswordAuth::verify_password("long-enough", &hash, &c).unwrap());
    let (flow, action) = flow.advance(SignupEvent::UserCreated(Ok(user(&hash, Some(true)))), &c);
    assert!(matches!(&action, SignupAction::IssueToken(id, _) if id == "u1"));
    let (_, action) = flow.advance(SignupEvent::TokenIssued(Ok("tok".to_string())), &c);
    match action {
        SignupAction::Reply(SignupReply::Created(resp, cookie)) => {
            assert!(resp.access_token.is_empty());
            assert_eq!(cookie, "auth_token=tok; Path=/; Max-Age=86400; HttpOnly; SameSite=Lax; Secure");
        }
        _ => panic!("expected the signup to succeed"),
    }
}

#[test]
fn signup_refusals() {
    let c = Argon2Config::default();
    let (flow, _) = SignupFlow::start(signup("long-enough"), true, false);
    let (_, action) = flow.advance(SignupEvent::UsersExist(Ok(true)), &c);
    assert!(matches!(action, SignupAction::Reply(SignupReply::Refused(409, "setup_complete", _))));

    let (flow, _) = SignupFlow::start(signup("long-enough"), true, false);
    let (flow, _) = flow.advance(SignupEvent::UsersExist(Ok(false)), &c);
    let (_, action) = flow.advance(SignupEvent::UserCreated(Err("UNIQUE constraint failed: users.email".to_string())), &c);
    assert!(matches!(action, SignupAction::Reply(SignupReply::Refused(409, "setup_complete", _))));

    let (flow, _) = SignupFlow::start(signup("long-enough"), false, false);
    let (flow, _) = flow.advance(SignupEvent::UsersExist(Ok(false)), &c);
    let (_, action) = flow.advance(SignupEvent::UserCreated(Err("UNIQUE constraint failed".to_string())), &c);
    assert!(matches!(action, SignupAction::Reply(SignupReply::Refused(500, "user_creation_failed", _))));
}

#[test]
fn static_targets_and_replies() {
    assert_eq!(static_target("api/x", true), None);
    assert_eq!(static_target("app.js", true).as_deref(), Some("app.js"));
    assert_eq!(static_target("some/route", false).as_deref(), Some("index.html"));

    let cfg = StaticConfig::default();
    let tag = file_etag(10, 20);
    match static_reply("static/app.js", 10, 20, Some(&tag), &cfg) {
        StaticReply::NotModified { etag } => assert_eq!(etag, tag),
        _ => panic!("expected not modified"),
    }
    match static_reply("static/index.html", 10, 20, None, &cfg) {
        StaticReply::Serve { etag, cache_control, csp, content_type } => {
            assert_eq!(etag, tag);
            assert_eq!(cache_control, "public, max-age=86400");
            assert!(csp.is_some());
            assert_eq!(content_type, "text/html");
        }
        _ => panic!("expected the file"),
    }
    match static_reply("static/blob.unknownext", 1, 2, Some("W/\"other\""), &cfg) {
        StaticReply::Serve { content_type, .. } => assert_eq!(content_type, "application/octet-stream"),
        _ => panic!("expected the file"),
    }
}

#[test]
fn api_keys_are_stored_as_digests() {
    let expected = hex::encode(Sha256::digest(b"key-123"));
    assert_eq!(api_key_hash("key-123"), expected);
    assert_eq!(api_key_hash("key-123").len(), 64);
}

#[test]
fn stored_timestamps() {
    assert_eq!(parse_timestamp_to_utc("2023-01-01T00:00:00Z"), (1_672_531_200, 0));
    assert_eq!(parse_timestamp_to_utc("2023-01-01T01:00:00.5+01:00"), (1_672_531_200, 500_000_000));
    assert_eq!(parse_timestamp_to_utc("1700000000.250"), (1_700_000_000, 250));
    let before = chrono::Utc::now().timestamp();
    let (now, _) = parse_timestamp_to_utc("garbage");
    assert!(now >= before);
}

#[test]
fn setting_updates_need_key_and_value() {
    let (k, v) = setting_update_of(&json(r#"{"key":"a","value":"b"}"#)).unwrap();
    assert_eq!((k.as_str(), v.as_str()), ("a", "b"));
    assert_eq!(setting_update_of(&json(r#"{"value":"b"}"#)).unwrap_err(), "Missing 'key' field");
    assert_eq!(setting_update_of(&json(r#"{"key":"a","value":3}"#)).unwrap_err(), "Missing 'value' field");
}

#[test]
fn escaping_works_piece_by_piece() {
    let a = "<b>Tom & ";
    let b = "Jerry's\"";
    assert_eq!(html_escape(&format!("{}{}", a, b)), format!("{}{}", html_escape(a), html_escape(b)));
}

#[test]
fn empty_edit_form_intervals_agree() {
    let e = StreamConfigForEdit::empty();
    assert_eq!(e.snapshot_interval, 30);
    assert_eq!(e.capture_interval, e.snapshot_interval);
}

#[test]
fn api_import_gives_up_renaming_once() {
    let (mut run, _) = ImportRun::start(vec!["cam".to_string(), "door".to_string()], ImportMode::CreateNew, ImportFlavor::Api);
    let mut action = run.advance(ImportEvent::Found(Some("x".to_string())));
    let mut probes = 1;
    while let ImportAction::Lookup(name) = &action {
        if name == "door" {
            break;
        }
        action = run.advance(ImportEvent::Found(Some("taken".to_string())));
        probes += 1;
    }
    assert_eq!(probes, 101);
    assert_eq!(action, ImportAction::Lookup("door".to_string()));
    assert_eq!(run.errors(), &vec!["Could not find unique name for stream 'cam'".to_string()]);
    assert_eq!(run.failed(), 1);
    let action = run.advance(ImportEvent::Found(None));
    assert_eq!(action, ImportAction::Create(1, "door".to_string()));
    assert_eq!(run.advance(ImportEvent::Created(Ok(()))), ImportAction::Finish);
    assert_eq!(run.imported() + run.skipped() + run.errors().len() as u64, run.total() as u64);
    assert_eq!(run.reply_status(), 206);
}

#[test]
fn escaped_ampersands_begin_entities() {
    let out = html_escape("a & b < c &amp; 'd'");
    assert_eq!(out, "a &amp; b &lt; c &amp;amp; &#x27;d&#x27;");
    let entities = ["&amp;", "&lt;", "&gt;", "&quot;", "&#x27;"];
    for (i, _) in out.match_indices('&') {
        assert!(entities.iter().any(|e| out[i..].starts_with(e)));
    }
}

#[test]
fn import_overwrite_keeps_counts_until_the_stream_ends() {
    let (mut run, _) = ImportRun::start(vec!["cam".to_string()], ImportMode::Overwrite, ImportFlavor::Api);
    let action = run.advance(ImportEvent::Found(Some("old".to_string())));
    assert_eq!(action, ImportAction::Delete("old".to_string()));
    assert_eq!((run.imported(), run.skipped(), run.failed()), (0, 0, 0));
    let action = run.advance(ImportEvent::Deleted(Ok(())));
    assert_eq!(action, ImportAction::Create(0, "cam".to_string()));
    assert_eq!((run.imported(), run.skipped(), run.failed()), (0, 0, 0));
    assert_eq!(run.advance(ImportEvent::Created(Ok(()))), ImportAction::Finish);
    assert_eq!((run.imported(), run.skipped(), run.failed()), (1, 0, 0));
    assert_eq!(run.reply_status(), 200);
}

#[test]
fn signup_hash_always_made_for_default_cost() {
    let c = Argon2Config::default();
    let (flow, _) = SignupFlow::start(signup("a-much-longer-password-than-needed"), false, false);
    let (_, action) = flow.advance(SignupEvent::UsersExist(Ok(false)), &c);
    assert!(matches!(action, SignupAction::CreateUser(..)));
}
