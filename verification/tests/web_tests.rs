use glimpser::error::Error;
use glimpser::web::api_error::ApiError;
use glimpser::web::bodylimits::{rejection_problem, BodyLimitDecision, BodyLimits, BodyLimitsConfig};
use glimpser::web::json::{JsonNumber, JsonValue};
use glimpser::web::models::{ProblemDetails, StreamStatus, ValidationError};
use glimpser::web::password::{Argon2Config, PasswordAuth};
use glimpser::web::ratelimit::{
    client_ip, AuthType, RateLimit, RateLimitConfig, RateVerdict, SimpleRateLimiter,
};
use glimpser::web::rbac::{RbacDecision, RequireRole, Role};
use glimpser::web::session::{
    auth_cookie, authenticate, bearer_token, cookie_token, page_cookie_read, page_cookie_token,
    request_token, AuthVerdict, PageCookieRead, Claims, JwtAuth,
};

#[test]
fn test_password_hash_and_verify() {
    let password = "test_password_123";
    let config = Argon2Config::default();

    let hash = PasswordAuth::hash_password(password, &config).expect("Should hash password");
    assert!(!hash.is_empty());
    assert!(hash.starts_with("$argon2"));

    let is_valid = PasswordAuth::verify_password(password, &hash, &config).expect("Should verify");
    assert!(is_valid);

    let is_valid =
        PasswordAuth::verify_password("wrong_password", &hash, &config).expect("Should verify");
    assert!(!is_valid);
}

#[test]
fn test_validation_error() {
    let errors = vec![ValidationError::for_field("email", "required", None, None)];

    let api_error = ApiError::validation(errors);
    assert_eq!(api_error.status_code, 400);
    assert_eq!(api_error.problem.title, "Bad Request");
    assert!(api_error.problem.extensions.iter().any(|(k, _)| k == "errors"));
}

#[test]
fn test_error_responses() {
    let bad_request = ApiError::bad_request("Invalid input".to_string());
    assert_eq!(bad_request.status_code, 400);

    let unauthorized = ApiError::unauthorized("Token required".to_string());
    assert_eq!(unauthorized.status_code, 401);

    let forbidden = ApiError::forbidden("Insufficient permissions".to_string());
    assert_eq!(forbidden.status_code, 403);

    let not_found = ApiError::not_found("Resource not found".to_string());
    assert_eq!(not_found.status_code, 404);

    let internal = ApiError::internal_server_error("Something went wrong".to_string());
    assert_eq!(internal.status_code, 500);
}

#[test]
fn test_body_limits_config() {
    let config = BodyLimitsConfig::new(1000)
        .with_override("/api/admin", 10000)
        .with_override("/api/upload", 100000);

    assert_eq!(config.get_limit_for_path("/api/auth"), 1000);
    assert_eq!(config.get_limit_for_path("/api/admin"), 10000);
    assert_eq!(config.get_limit_for_path("/api/settings/streams"), 1000);
    assert_eq!(config.get_limit_for_path("/api/upload"), 100000);
    assert_eq!(config.get_limit_for_path("/api/upload/files"), 100000);
    assert_eq!(config.get_limit_for_path("/unknown"), 1000);
}

#[test]
fn test_role_requirements() {
    let admin_only = RequireRole::admin();
    assert_eq!(*admin_only.required_roles(), vec![Role::Admin]);

    let operator_plus = RequireRole::operator();
    assert_eq!(*operator_plus.required_roles(), vec![Role::Admin, Role::Operator]);

    let viewer_plus = RequireRole::viewer();
    assert_eq!(*viewer_plus.required_roles(), vec![Role::Admin, Role::Operator, Role::Viewer]);
}

// ---------------------------------------------------------------------------
// Further cases
// ---------------------------------------------------------------------------

#[test]
fn password_cost_floor_and_bad_hash() {
    let weak = Argon2Config { memory_cost: 8, time_cost: 1, parallelism: 1 };
    let hash = PasswordAuth::hash_password("pw", &weak).unwrap();
    assert!(hash.starts_with("$argon2id$v=19$m=19456,t=2,p=1$"));
    assert!(PasswordAuth::verify_password("pw", &hash, &weak).unwrap());

    let e = PasswordAuth::verify_password("pw", "not a phc string", &weak).unwrap_err();
    assert!(matches!(e, Error::Config(_)));
    assert!(e.detail().starts_with("Invalid password hash format: "));
}

#[test]
fn password_hashes_are_salted() {
    let c = Argon2Config::default();
    let a = PasswordAuth::hash_password("same", &c).unwrap();
    let b = PasswordAuth::hash_password("same", &c).unwrap();
    assert_ne!(a, b);
}

#[test]
fn body_limit_decisions() {
    let limits = BodyLimits::new(BodyLimitsConfig::new(100).with_override("/api/upload", 1000));
    assert_eq!(limits.decide("/api/x", Some("application/json"), Some(101)), BodyLimitDecision::Reject { limit: 100 });
    assert_eq!(limits.decide("/api/x", Some("application/json; charset=utf-8"), Some(100)), BodyLimitDecision::Forward);
    assert_eq!(limits.decide("/api/x", Some("text/plain"), Some(10_000)), BodyLimitDecision::Forward);
    assert_eq!(limits.decide("/api/x", Some("application/json"), None), BodyLimitDecision::Forward);
    assert_eq!(
        limits.decide("/api/upload/a", Some("application/json"), Some(1001)),
        BodyLimitDecision::Reject { limit: 1000 }
    );
}

#[test]
fn override_replaces_earlier_one() {
    let c = BodyLimitsConfig::new(10).with_override("/a", 20).with_override("/a", 30);
    assert_eq!(c.get_limit_for_path("/a"), 30);
    assert_eq!(c.get_limit_for_path("/a/b"), 30);
    assert_eq!(c.get_limit_for_path("/ab"), 30);
    assert_eq!(c.get_limit_for_path("/b"), 10);
}

#[test]
fn rbac_decisions() {
    let op = RequireRole::operator();
    assert_eq!(op.decide(None), RbacDecision::Unauthorized("Authentication required"));
    assert_eq!(op.decide(Some("root")), RbacDecision::Forbidden("Invalid user role"));
    assert_eq!(op.decide(Some("viewer")), RbacDecision::Forbidden("Insufficient permissions"));
    assert_eq!(op.decide(Some("operator")), RbacDecision::Allow);
    assert_eq!(op.decide(Some("admin")), RbacDecision::Allow);
}

#[test]
fn role_names_round_trip() {
    for r in [Role::Admin, Role::Operator, Role::Viewer] {
        assert_eq!(Role::from_str(r.as_str()), Some(r));
    }
    assert_eq!(Role::from_str("Admin"), None);
}

#[test]
fn rate_limiter_window() {
    let mut l = SimpleRateLimiter::new(2, 100);
    assert_eq!(l.check_rate_limit("a", 0), (true, 1, 0));
    assert_eq!(l.check_rate_limit("a", 10), (true, 0, 0));
    assert_eq!(l.check_rate_limit("a", 30), (false, 0, 70));
    assert_eq!(l.check_rate_limit("b", 30), (true, 1, 0));
    assert_eq!(l.check_rate_limit("a", 100), (true, 1, 0));
}

#[test]
fn rate_limit_layer_refuses_with_problem() {
    let config = RateLimitConfig { ip_requests_per_minute: 1, api_key_requests_per_minute: 5, window_duration_nanos: 60_000_000_000 };
    let mut rl = RateLimit::new(config);
    assert!(matches!(rl.check(None, "1.2.3.4", 0), RateVerdict::Allowed(0)));
    match rl.check(None, "1.2.3.4", 1_000_000_000) {
        RateVerdict::Limited(p, secs) => {
            assert_eq!(secs, 59);
            assert_eq!(p.status, Some(429));
        }
        _ => panic!("expected a refusal"),
    }
    assert!(matches!(rl.check(Some((AuthType::ApiKey, "user-1")), "1.2.3.4", 0), RateVerdict::Allowed(4)));
    assert!(matches!(rl.check(Some((AuthType::Jwt, "user-1")), "5.6.7.8", 0), RateVerdict::Allowed(0)));
}

#[test]
fn client_address_selection() {
    assert_eq!(client_ip(Some(" 10.0.0.1 , 10.0.0.2"), Some("9.9.9.9"), None), "10.0.0.1");
    assert_eq!(client_ip(None, Some("9.9.9.9"), Some("1.1.1.1")), "9.9.9.9");
    assert_eq!(client_ip(None, None, Some("1.1.1.1")), "1.1.1.1");
    assert_eq!(client_ip(None, None, None), "unknown");
}

#[test]
fn session_token_sources() {
    assert_eq!(bearer_token("Bearer abc").as_deref(), Some("abc"));
    assert_eq!(bearer_token("Basic abc"), None);
    assert_eq!(cookie_token("a=1; auth_token=xyz; b=2").as_deref(), Some("xyz"));
    assert_eq!(cookie_token("a=1"), None);
    assert_eq!(request_token(Some("Bearer h"), Some("auth_token=c")).as_deref(), Some("h"));
    assert_eq!(request_token(Some("Basic h"), Some("auth_token=c")).as_deref(), Some("c"));
    assert_eq!(request_token(None, None), None);
}

#[test]
fn page_cookie_strips_quotes() {
    assert_eq!(page_cookie_token("auth_token=\"tok.en-1234_x\"").as_deref(), Some("tok.en-1234_x"));
    assert_eq!(page_cookie_token("x=1; auth_token=plaintoken99").as_deref(), Some("plaintoken99"));
    assert_eq!(page_cookie_token("auth_token=short; auth_token=longenough123").as_deref(), Some("longenough123"));
    assert_eq!(page_cookie_token("auth_token=bad$chars$here"), None);
    assert_eq!(page_cookie_token("x=1"), None);
}

#[test]
fn auth_cookie_text() {
    assert_eq!(auth_cookie("t", 3600, false), "auth_token=t; Path=/; Max-Age=3600; HttpOnly; SameSite=Lax");
    assert_eq!(auth_cookie("t", 0, true), "auth_token=t; Path=/; Max-Age=0; HttpOnly; SameSite=Lax; Secure");
}

#[test]
fn claims_expire_a_day_later() {
    assert_eq!(JwtAuth::token_expiration_secs(), 86400);
    let c = JwtAuth::claims_for("u", "e@x.com", "glimpser", 1000);
    assert_eq!(c.exp, 87400);
    assert_eq!(c.iat, 1000);
    assert!(JwtAuth::claims_at("u", "e", "i", -1).is_err());
    assert_eq!(JwtAuth::claims_at("u", "e", "i", 5).unwrap().exp, 86405);
}

#[test]
fn authentication_verdicts() {
    assert!(matches!(authenticate(None, None), AuthVerdict::Unauthorized("Authentication required")));
    assert!(matches!(
        authenticate(Some("t"), Some(Err(Error::Validation("bad".to_string())))),
        AuthVerdict::Unauthorized("Invalid JWT token")
    ));
    let claims = Claims { sub: "u1".to_string(), email: "a@b.c".to_string(), exp: 2, iat: 1, iss: "g".to_string() };
    match authenticate(Some("t"), Some(Ok(claims))) {
        AuthVerdict::Authenticated(u) => {
            assert_eq!(u.id, "u1");
            assert_eq!(u.email, "a@b.c");
        }
        _ => panic!("expected a user"),
    }
}

#[test]
fn problem_details_builders() {
    let p = ProblemDetails::payload_too_large_error(1024);
    assert_eq!(p.status, Some(413));
    assert_eq!(p.detail.as_deref(), Some("Request payload exceeds maximum size of 1024 bytes"));
    let p = ProblemDetails::rate_limit_error(Some(30));
    assert_eq!(p.status, Some(429));
    let p = ProblemDetails::new("about:blank", "T").with_extension("k", JsonValue::Bool(true)).with_extension("k", JsonValue::Null);
    assert_eq!(p.extensions.len(), 1);
}

#[test]
fn api_errors_from_service_errors() {
    let e = ApiError::from_error(Error::NotFound("gone".to_string()));
    assert_eq!(e.status_code, 404);
    assert_eq!(e.problem.detail.as_deref(), Some("gone"));
    let e = ApiError::from_error(Error::Database("down".to_string()));
    assert_eq!(e.status_code, 500);
    assert_eq!(e.problem.detail.as_deref(), Some("Database error: down"));
    let e = ApiError::from_error(Error::Validation("bad".to_string()));
    assert_eq!(e.status_code, 400);
    assert_eq!(e.http_status(), 400);
    assert_eq!(e.to_display_string(), "Bad Request: bad");
}

#[test]
fn validation_entries() {
    let v = ValidationError::for_field("name", "length", None, None);
    assert_eq!(v.message, "Invalid value for field 'name'");
    let j = v.to_json();
    assert!(matches!(j.get("value"), Some(JsonValue::Null)));
    assert_eq!(j.get("field").and_then(|f| f.as_str()), Some("name"));
}

#[test]
fn stream_status_names() {
    assert_eq!(StreamStatus::Active.as_str(), "active");
    assert_eq!(StreamStatus::Inactive.as_str(), "inactive");
    assert_eq!(StreamStatus::Error.as_str(), "error");
}

#[test]
fn body_rejection_problem() {
    let p = rejection_problem(100, "/api/x", 250);
    assert_eq!(p.status, Some(413));
    assert_eq!(p.title, "Payload Too Large");
    assert_eq!(p.detail.as_deref(), Some("Request payload exceeds maximum size of 100 bytes"));
    let keys: Vec<&str> = p.extensions.iter().map(|(k, _)| k.as_str()).collect();
    assert_eq!(keys, vec!["max_size", "path", "received_size"]);
    assert!(matches!(&p.extensions[1].1, JsonValue::Str(s) if s == "/api/x"));
}

#[test]
fn hash_with_too_many_lanes_matches_nothing() {
    let c = Argon2Config::default();
    let hash = "$argon2id$v=19$m=19456,t=2,p=4294967295$c2FsdHNhbHRzYWx0$aGFzaGhhc2hoYXNoaGFzaGhhc2hoYXNo";
    assert_eq!(PasswordAuth::verify_password("pw", hash, &c).unwrap(), false);
}

#[test]
fn hash_records_configured_cost() {
    let c = Argon2Config { memory_cost: 20000, time_cost: 3, parallelism: 2 };
    let hash = PasswordAuth::hash_password("pw", &c).unwrap();
    assert!(hash.starts_with("$argon2id$v=19$m=20000,t=3,p=2$"));
}

fn extension<'a>(p: &'a ProblemDetails, key: &str) -> Option<&'a JsonValue> {
    p.extensions.iter().find(|(k, _)| k == key).map(|(_, v)| v)
}

#[test]
fn rate_limit_refusal_names_limiter_and_client() {
    let config = RateLimitConfig { ip_requests_per_minute: 1, api_key_requests_per_minute: 1, window_duration_nanos: 60_000_000_000 };
    let mut rl = RateLimit::new(config);
    assert!(matches!(rl.check(Some((AuthType::ApiKey, "user-1")), "1.2.3.4", 0), RateVerdict::Allowed(0)));
    match rl.check(Some((AuthType::ApiKey, "user-1")), "1.2.3.4", 30_000_000_000) {
        RateVerdict::Limited(p, secs) => {
            assert_eq!(secs, 30);
            assert_eq!(p.title, "Too Many Requests");
            assert_eq!(p.detail.as_deref(), Some("Rate limit exceeded"));
            assert_eq!(p.extensions.len(), 3);
            assert!(matches!(extension(&p, "retry_after"), Some(JsonValue::Number(JsonNumber::PosInt(30)))));
            assert!(matches!(extension(&p, "limit_type"), Some(JsonValue::Str(s)) if s == "api_key"));
            assert!(matches!(extension(&p, "client_ip"), Some(JsonValue::Str(s)) if s == "1.2.3.4"));
        }
        _ => panic!("expected a refusal"),
    }
    assert!(matches!(rl.check(None, "9.9.9.9", 0), RateVerdict::Allowed(0)));
    match rl.check(None, "9.9.9.9", 0) {
        RateVerdict::Limited(p, secs) => {
            assert_eq!(secs, 60);
            assert!(matches!(extension(&p, "limit_type"), Some(JsonValue::Str(s)) if s == "ip"));
            assert!(matches!(extension(&p, "client_ip"), Some(JsonValue::Str(s)) if s == "9.9.9.9"));
        }
        _ => panic!("expected a refusal"),
    }
}

#[test]
fn rate_limiter_window_restarts_after_refusal() {
    let mut l = SimpleRateLimiter::new(3, 100);
    for _ in 0..3 {
        assert!(l.check_rate_limit("k", 5).0);
    }
    assert_eq!(l.check_rate_limit("k", 50), (false, 0, 55));
    assert_eq!(l.check_rate_limit("k", 105), (true, 2, 0));
    assert_eq!(l.check_rate_limit("k", 150), (true, 1, 0));
}

#[test]
fn page_cookie_read_reports_lone_quote() {
    assert!(matches!(page_cookie_read("auth_token=\""), PageCookieRead::LoneQuote));
    assert!(matches!(page_cookie_read("x=1; auth_token=\"tok.en-1234_x\""), PageCookieRead::Token(t) if t == "tok.en-1234_x"));
    assert!(matches!(page_cookie_read("auth_token=short"), PageCookieRead::NoToken));
    assert!(matches!(page_cookie_read("auth_token=longenough123; auth_token=\""), PageCookieRead::Token(t) if t == "longenough123"));
}
