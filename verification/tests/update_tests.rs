use glimpser::error::Error;
use glimpser::update::health::{AttemptVerdict, HealthCheckItem, HealthChecker, HealthResponse, check_version};
use glimpser::update::release::{
    accept_latest_release, handle_rate_limit, is_newer_version, is_security_release,
    select_update_assets, update_info_from_release, GitHubAsset, GitHubRelease, GitHubReleaseChecker,
};
use glimpser::update::service::{ApplyAction, ApplyEvent, ApplyStage, UpdateService};
use glimpser::update::signature::{generate_keypair, sign_data, SignatureVerifier};
use glimpser::update::strategy::{choose_strategy, SidecarStrategy, UpdateStrategyImpl};
use glimpser::update::types::{
    UpdateCheckResult, UpdateConfig, UpdateInfo, UpdateResult, UpdateStatus, UpdateStep,
    UpdateStrategyType,
};
use sha2::{Digest, Sha256};

fn now_millis() -> i64 {
    chrono::Utc::now().timestamp_millis()
}

#[test]
fn test_update_config_default() {
    let config = UpdateConfig::default();
    assert_eq!(config.repository, "owner/repo");
    assert_eq!(config.current_version, "0.1.0");
    assert!(!config.auto_apply);
    assert_eq!(config.check_interval_seconds, 3600);
}

#[test]
fn test_update_info_creation() {
    let info = UpdateInfo::new(
        "v1.2.3".to_string(),
        "Bug fixes".to_string(),
        "https://example.com/release".to_string(),
        "signature123".to_string(),
        now_millis(),
    );

    assert_eq!(info.version, "v1.2.3");
    assert_eq!(info.notes, "Bug fixes");
    assert!(!info.is_security);
    assert!(!info.id.is_empty());
}

#[test]
fn test_update_result_creation() {
    let mut result = UpdateResult::new("v1.0.0".to_string());
    assert_eq!(result.previous_version, "v1.0.0");
    assert!(!result.success);
    assert_eq!(result.status, UpdateStatus::Idle);

    result.add_step(UpdateStep::new("test".to_string(), "Test step".to_string()));
    assert_eq!(result.steps.len(), 1);
}

#[test]
fn test_update_status_as_str() {
    assert_eq!(UpdateStatus::Idle.as_str(), "idle");
    assert_eq!(UpdateStatus::Downloading.as_str(), "downloading");
    assert_eq!(UpdateStatus::Success.as_str(), "success");
    assert_eq!(UpdateStatus::Failed.as_str(), "failed");
}

#[test]
fn test_update_check_result() {
    let result = UpdateCheckResult::no_update("v1.0.0".to_string());
    assert!(!result.update_available);
    assert!(result.update_info.is_none());
    assert!(result.error.is_none());

    let info = UpdateInfo::new(
        "v1.1.0".to_string(),
        "New version".to_string(),
        "https://example.com".to_string(),
        "sig123".to_string(),
        now_millis(),
    );
    let result = UpdateCheckResult::available("v1.0.0".to_string(), info);
    assert!(result.update_available);
    assert!(result.update_info.is_some());
}

#[test]
fn test_generate_keypair() {
    let (private_key, public_key) = generate_keypair();

    assert_eq!(private_key.len(), 64);
    assert_eq!(public_key.len(), 64);

    assert!(hex::decode(&private_key).is_ok());
    assert!(hex::decode(&public_key).is_ok());
}

#[test]
fn test_signature_verifier_creation() {
    let (_, public_key) = generate_keypair();
    let verifier = SignatureVerifier::new(&public_key);
    assert!(verifier.is_ok());

    let verifier = verifier.unwrap();
    assert_eq!(verifier.public_key_hex(), public_key);
}

#[test]
fn test_signature_verifier_invalid_key() {
    let result = SignatureVerifier::new("");
    assert!(result.is_err());
    assert!(result.unwrap_err().detail().contains("cannot be empty"));

    let result = SignatureVerifier::new("invalid_hex");
    assert!(result.is_err());
    assert!(result.unwrap_err().detail().contains("Invalid hex"));

    let result = SignatureVerifier::new("deadbeef");
    assert!(result.is_err());
    assert!(result.unwrap_err().detail().contains("must be 32 bytes"));
}

#[test]
fn test_sign_and_verify() {
    let test_data = b"Hello, world! This is test data for signature verification.";
    let (private_key, public_key) = generate_keypair();

    let signature = sign_data(test_data, &private_key).unwrap();
    assert_eq!(signature.len(), 128);

    let verifier = SignatureVerifier::new(&public_key).unwrap();
    let result = verifier.verify(&test_data.to_vec(), &signature);
    assert!(result.is_ok());
}

#[test]
fn test_verify_invalid_signature() {
    let test_data = b"Hello, world!";
    let (_, public_key) = generate_keypair();
    let verifier = SignatureVerifier::new(&public_key).unwrap();

    let result = verifier.verify(&test_data.to_vec(), "invalid_hex");
    assert!(result.is_err());
    assert!(result.unwrap_err().detail().contains("Invalid hex signature"));

    let result = verifier.verify(&test_data.to_vec(), "deadbeef");
    assert!(result.is_err());
    assert!(result.unwrap_err().detail().contains("must be 64 bytes"));

    let fake_signature = "a".repeat(128);
    let result = verifier.verify(&test_data.to_vec(), &fake_signature);
    assert!(result.is_err());
    assert!(result.unwrap_err().detail().contains("verification failed"));
}

#[test]
fn test_verify_wrong_data() {
    let original_data = b"Original data";
    let modified_data = b"Modified data";
    let (private_key, public_key) = generate_keypair();

    let signature = sign_data(original_data, &private_key).unwrap();

    let verifier = SignatureVerifier::new(&public_key).unwrap();
    let result = verifier.verify(&modified_data.to_vec(), &signature);
    assert!(result.is_err());
    assert!(result.unwrap_err().detail().contains("verification failed"));
}

#[test]
fn test_verify_hash_direct() {
    let test_data = b"Test data for hash verification";
    let hash = Sha256::digest(test_data);
    let (private_key, public_key) = generate_keypair();

    let signature = sign_data(test_data, &private_key).unwrap();

    let verifier = SignatureVerifier::new(&public_key).unwrap();
    let result = verifier.verify_hash(&hash, &signature);
    assert!(result.is_ok());
}

#[test]
fn test_cross_verification() {
    let test_data = b"Cross verification test";
    let (private_key1, public_key1) = generate_keypair();
    let (_, public_key2) = generate_keypair();

    let signature = sign_data(test_data, &private_key1).unwrap();

    let verifier1 = SignatureVerifier::new(&public_key1).unwrap();
    assert!(verifier1.verify(&test_data.to_vec(), &signature).is_ok());

    let verifier2 = SignatureVerifier::new(&public_key2).unwrap();
    assert!(verifier2.verify(&test_data.to_vec(), &signature).is_err());
}

#[test]
fn test_signature_key_generation() {
    let (private_key, public_key) = generate_keypair();

    assert!(hex::decode(&private_key).is_ok());
    assert!(hex::decode(&public_key).is_ok());

    assert_eq!(private_key.len(), 64);
    assert_eq!(public_key.len(), 64);

    let verifier = SignatureVerifier::new(&public_key);
    assert!(verifier.is_ok());

    let test_data = b"test signing data";
    let signature = sign_data(test_data, &private_key).unwrap();
    let verify_result = verifier.unwrap().verify(&test_data.to_vec(), &signature);
    assert!(verify_result.is_ok());
}

#[test]
fn test_create_strategy_sidecar() {
    let temp_dir = tempfile::TempDir::new().unwrap();
    let config = UpdateConfig {
        strategy: UpdateStrategyType::Sidecar,
        install_dir: temp_dir.path().to_string_lossy().to_string(),
        binary_name: "test_app".to_string(),
        ..Default::default()
    };

    let kind = choose_strategy(config.strategy, true, false);
    assert!(kind.is_ok());
    let strategy = SidecarStrategy::new(&config, temp_dir.path().exists(), Ok(()));
    assert!(strategy.is_ok());
    let strategy = UpdateStrategyImpl::Sidecar(strategy.unwrap());
    assert_eq!(strategy.name(), "sidecar");
}

// ---------------------------------------------------------------------------
// Further cases
// ---------------------------------------------------------------------------

#[test]
fn sidecar_paths_sit_next_to_the_binary() {
    let config = UpdateConfig {
        install_dir: "/opt/app".to_string(),
        binary_name: "glimpser".to_string(),
        ..Default::default()
    };
    let s = SidecarStrategy::new(&config, true, Ok(())).unwrap();
    assert_eq!(s.current_binary_path, "/opt/app/glimpser");
    assert_eq!(s.backup_path, "/opt/app/glimpser.backup");
    assert_eq!(s.staging_path, "/opt/app/glimpser.staging");

    let config = UpdateConfig { install_dir: "/opt/app/".to_string(), ..config };
    let s = SidecarStrategy::new(&config, true, Ok(())).unwrap();
    assert_eq!(s.current_binary_path, "/opt/app/glimpser");
}

#[test]
fn sidecar_refuses_missing_or_read_only_directory() {
    let config = UpdateConfig { install_dir: "/nowhere".to_string(), ..Default::default() };
    let e = SidecarStrategy::new(&config, false, Ok(())).unwrap_err();
    assert!(matches!(e, Error::Configuration(_)));
    assert_eq!(e.detail(), "Install directory does not exist: /nowhere");

    let e = SidecarStrategy::new(&config, true, Err("denied".to_string())).unwrap_err();
    assert_eq!(e.detail(), "Install directory is not writable: denied");
}

#[test]
fn sidecar_rollback_needs_backup() {
    let config = UpdateConfig::default();
    let s = SidecarStrategy::new(&config, true, Ok(())).unwrap();
    assert!(s.check_rollback(true).is_ok());
    let e = s.check_rollback(false).unwrap_err();
    assert_eq!(e.detail(), "No backup available for rollback");
}

#[test]
fn strategy_not_built_is_refused() {
    let e = choose_strategy(UpdateStrategyType::SelfReplace, true, false).unwrap_err();
    assert_eq!(e.detail(), "Self-replace strategy not compiled in");
    let e = choose_strategy(UpdateStrategyType::Sidecar, false, true).unwrap_err();
    assert_eq!(e.detail(), "Sidecar strategy not compiled in");
    assert_eq!(
        choose_strategy(UpdateStrategyType::SelfReplace, false, true).unwrap(),
        UpdateStrategyType::SelfReplace
    );
}

#[test]
fn key_of_wrong_length_reports_byte_count() {
    let e = SignatureVerifier::new("deadbeef").unwrap_err();
    assert_eq!(e.detail(), "Public key must be 32 bytes, got 4");
    let e = sign_data(b"x", "abcd").unwrap_err();
    assert_eq!(e.detail(), "Private key must be 32 bytes, got 2");
}

#[test]
fn signature_is_deterministic_and_matches_public_key() {
    let (private_key, public_key) = generate_keypair();
    let a = sign_data(b"payload", &private_key).unwrap();
    let b = sign_data(b"payload", &private_key).unwrap();
    assert_eq!(a, b);
    assert_ne!(a, sign_data(b"payload2", &private_key).unwrap());
    let verifier = SignatureVerifier::new(&public_key).unwrap();
    assert!(verifier.verify(b"payload", &a).is_ok());
    assert_ne!(public_key, private_key);
}

#[test]
fn keypairs_differ() {
    let (a, _) = generate_keypair();
    let (b, _) = generate_keypair();
    assert_ne!(a, b);
}

#[test]
fn update_ids_are_hex_and_distinct() {
    let a = UpdateInfo::new("v1".to_string(), String::new(), String::new(), String::new(), 0);
    let b = UpdateInfo::new("v1".to_string(), String::new(), String::new(), String::new(), 0);
    assert_eq!(a.id.len(), 32);
    assert!(hex::decode(&a.id).is_ok());
    assert_ne!(a.id, b.id);
    let c = a.with_security_flag(true);
    assert!(c.is_security);
}

#[test]
fn update_steps_and_results() {
    let s = UpdateStep::new("download".to_string(), "Download".to_string());
    assert!(s.success);
    let s = s.failed("boom".to_string()).with_duration(42);
    assert!(!s.success);
    assert_eq!(s.error.as_deref(), Some("boom"));
    assert_eq!(s.duration_ms, 42);

    let r = UpdateResult::new("v1".to_string()).complete_success("v2".to_string());
    assert!(r.success);
    assert_eq!(r.status, UpdateStatus::Success);
    assert_eq!(r.new_version.as_deref(), Some("v2"));
    assert!(r.completed_at.is_some());

    let r = UpdateResult::new("v1".to_string()).complete_failure("bad".to_string());
    assert!(!r.success);
    assert_eq!(r.status, UpdateStatus::Failed);
    assert_eq!(r.error.as_deref(), Some("bad"));

    let c = UpdateCheckResult::error("v1".to_string(), "oops".to_string());
    assert!(!c.update_available);
    assert_eq!(c.error.as_deref(), Some("oops"));
}

#[test]
fn all_status_names() {
    assert_eq!(UpdateStatus::Checking.as_str(), "checking");
    assert_eq!(UpdateStatus::Pending.as_str(), "pending");
    assert_eq!(UpdateStatus::Verifying.as_str(), "verifying");
    assert_eq!(UpdateStatus::Installing.as_str(), "installing");
    assert_eq!(UpdateStatus::HealthChecking.as_str(), "health_checking");
    assert_eq!(UpdateStatus::RollingBack.as_str(), "rolling_back");
}

fn asset(name: &str) -> GitHubAsset {
    GitHubAsset {
        id: 1,
        name: name.to_string(),
        label: None,
        size: 10,
        download_count: 0,
        browser_download_url: format!("https://example.com/{}", name),
        content_type: "application/octet-stream".to_string(),
    }
}

fn release(tag: &str, body: Option<&str>, assets: Vec<GitHubAsset>) -> GitHubRelease {
    GitHubRelease {
        id: 7,
        tag_name: tag.to_string(),
        name: None,
        body: body.map(|b| b.to_string()),
        draft: false,
        prerelease: false,
        published_at: Some(1_700_000_000_000),
        assets,
    }
}

#[test]
fn version_comparison() {
    assert!(is_newer_version("v1.1.0", "v1.0.0"));
    assert!(is_newer_version("1.1.0", "v1.0.0"));
    assert!(!is_newer_version("v1.0.0", "v1.0.0"));
    assert!(!is_newer_version("v1.0.0", "v1.1.0"));
    assert!(!is_newer_version("v1.0.0-beta", "v1.0.0"));
    assert!(is_newer_version("v1.0.0", "v1.0.0-beta"));
    assert!(is_newer_version("v1.10.0", "v1.9.0"));
    assert!(!is_newer_version("v1.9.0", "v1.10.0"));
    assert!(is_newer_version("2", "1.99.99"));
    assert!(!is_newer_version("1.0", "1.0.0"));
    assert!(is_newer_version("1.0.1", "1.0"));
    assert!(is_newer_version("v100000000000000000000000.0", "v99999999999999999999999.9"));
    assert!(!is_newer_version("v1.02.0", "v1.2.0"));
    assert!(!is_newer_version("v1.0.0+build5", "v1.0.0"));
}

#[test]
fn security_release_detection() {
    assert!(is_security_release(&release("v1", Some("Fixes a SECURITY issue"), vec![])));
    assert!(is_security_release(&release("v1", Some("See CVE-2024-1"), vec![])));
    assert!(is_security_release(&release("v1", Some("a vulnerability"), vec![])));
    assert!(!is_security_release(&release("v1", Some("bug fixes"), vec![])));
    assert!(!is_security_release(&release("v1", None, vec![])));
}

#[test]
fn draft_release_is_refused() {
    let mut r = release("v2", None, vec![]);
    r.draft = true;
    let e = accept_latest_release(r).unwrap_err();
    assert_eq!(e.detail(), "Latest release is a draft");
    assert!(accept_latest_release(release("v2", None, vec![])).is_ok());
}

#[test]
fn rate_limit_headers() {
    assert!(handle_rate_limit(None, None).is_ok());
    assert!(handle_rate_limit(Some("5"), Some("100")).is_ok());
    let e = handle_rate_limit(Some("0"), None).unwrap_err();
    assert_eq!(e.detail(), "GitHub API rate limit exceeded");
    let e = handle_rate_limit(Some("0"), Some("1700000000")).unwrap_err();
    assert!(e.detail().starts_with("GitHub API rate limit exceeded. Resets at: "));
    assert!(e.detail().contains("2023"));
}

#[test]
fn release_checker_url() {
    let c = GitHubReleaseChecker::new("owner/repo".to_string(), None);
    assert_eq!(c.latest_release_url(), "https://api.github.com/repos/owner/repo/releases/latest");
    assert!(!c.has_token());
    let c = GitHubReleaseChecker::new("a/b".to_string(), Some("t".to_string()))
        .with_base_url("http://localhost:1".to_string());
    assert_eq!(c.latest_release_url(), "http://localhost:1/repos/a/b/releases/latest");
    assert_eq!(c.repository(), "a/b");
    assert!(c.has_token());
}

#[test]
fn asset_selection() {
    let r = release("v2.0.0", None, vec![asset("notes.txt"), asset("glimpser-linux"), asset("glimpser-linux.sig")]);
    assert_eq!(select_update_assets(&r, "v1.0.0", "glimpser").unwrap(), Some((1, 2)));
    assert_eq!(select_update_assets(&r, "v2.0.0", "glimpser").unwrap(), None);

    let r = release("v2.0.0", None, vec![asset("other")]);
    let e = select_update_assets(&r, "v1.0.0", "glimpser").unwrap_err();
    assert_eq!(e.detail(), "Binary asset 'glimpser' not found in release");

    let r = release("v2.0.0", None, vec![asset("glimpser")]);
    let e = select_update_assets(&r, "v1.0.0", "glimpser").unwrap_err();
    assert_eq!(e.detail(), "Signature file not found");
}

#[test]
fn offer_from_release() {
    let r = release("v2.0.0", Some("security fix"), vec![asset("glimpser")]);
    let info = update_info_from_release(r, 0, b"  abcdef\n".to_vec()).unwrap();
    assert_eq!(info.version, "v2.0.0");
    assert_eq!(info.signature, "abcdef");
    assert_eq!(info.notes, "security fix");
    assert_eq!(info.download_url, "https://example.com/glimpser");
    assert!(info.is_security);
    assert_eq!(info.published_at, 1_700_000_000_000);

    let r = release("v2.0.0", None, vec![asset("glimpser")]);
    let e = update_info_from_release(r, 0, vec![0xff, 0xfe]).unwrap_err();
    assert!(e.detail().starts_with("Invalid signature format: "));
}

fn health(status: &str, version: Option<&str>, checks: Option<Vec<(&str, &str)>>) -> HealthResponse {
    HealthResponse {
        status: status.to_string(),
        version: version.map(|v| v.to_string()),
        timestamp: None,
        checks: checks.map(|cs| {
            cs.into_iter()
                .map(|(n, s)| {
                    (n.to_string(), HealthCheckItem { status: s.to_string(), message: None, duration_ms: None })
                })
                .collect()
        }),
    }
}

#[test]
fn health_response_validation() {
    let c = HealthChecker::default();
    assert_eq!(c.health_url(), "http://localhost:9000/healthz");
    assert_eq!(c.timeout_ms(), 10000);
    assert_eq!(c.retry_count(), 3);
    assert_eq!(c.retry_delay_ms(), 2000);

    assert!(c.validate_health_response(&health("OK", None, None)).is_ok());
    assert!(c.validate_health_response(&health("ok", None, Some(vec![("db", "Ok")]))).is_ok());
    let e = c.validate_health_response(&health("degraded", None, None)).unwrap_err();
    assert_eq!(e.detail(), "Health check status is not OK: degraded");
    let e = c
        .validate_health_response(&health("ok", None, Some(vec![("db", "ok"), ("disk", "bad")])))
        .unwrap_err();
    assert_eq!(e.detail(), "Health check 'disk' failed with status: bad");
}

#[test]
fn health_retries_then_gives_up() {
    let c = HealthChecker::new("http://x/healthz".to_string(), 100).with_retries(2, 5);
    assert!(matches!(c.after_attempt(1, Ok(())), AttemptVerdict::Passed));
    assert!(matches!(
        c.after_attempt(1, Err(Error::External("down".to_string()))),
        AttemptVerdict::RetryAfter(5)
    ));
    match c.after_attempt(2, Err(Error::External("down".to_string()))) {
        AttemptVerdict::GaveUp(e) => assert_eq!(e.detail(), "Health check failed after 2 attempts: down"),
        _ => panic!("expected to give up"),
    }
}

#[test]
fn version_check_gives_up_with_last_error() {
    let c = HealthChecker::new("http://x/healthz".to_string(), 100).with_retries(2, 5);
    assert!(matches!(
        c.after_validated_attempt(1, Err(Error::External("Version mismatch: expected '1', got '0'".to_string()))),
        AttemptVerdict::RetryAfter(5)
    ));
    match c.after_validated_attempt(2, Err(Error::External("Version mismatch: expected '1', got '0'".to_string()))) {
        AttemptVerdict::GaveUp(e) => assert_eq!(e.detail(), "Version mismatch: expected '1', got '0'"),
        _ => panic!("expected to give up"),
    }
    assert!(matches!(c.after_validated_attempt(2, Ok(())), AttemptVerdict::Passed));
}

#[test]
fn health_version_check() {
    assert!(check_version("1.0.0", &health("ok", Some("1.0.0"), None)).is_ok());
    assert!(check_version("1.0.0", &health("ok", None, None)).is_ok());
    let e = check_version("1.0.0", &health("ok", Some("0.9.0"), None)).unwrap_err();
    assert_eq!(e.detail(), "Version mismatch: expected '1.0.0', got '0.9.0'");
}

fn service_with_key() -> (UpdateService, String) {
    let (private_key, public_key) = generate_keypair();
    let config = UpdateConfig { public_key, current_version: "v1.0.0".to_string(), ..Default::default() };
    (UpdateService::new(config).unwrap(), private_key)
}

#[test]
fn service_needs_a_readable_key() {
    let e = UpdateService::new(UpdateConfig::default()).unwrap_err();
    assert_eq!(e.detail(), "Public key cannot be empty");
}

#[test]
fn service_check_outcomes() {
    let (mut s, _) = service_with_key();
    assert_eq!(s.status(), UpdateStatus::Idle);
    s.begin_check();
    assert_eq!(s.status(), UpdateStatus::Checking);
    let r = s.finish_check(Err(Error::External("network".to_string())));
    assert_eq!(s.status(), UpdateStatus::Idle);
    assert_eq!(r.error.as_deref(), Some("Update check failed: network"));
    assert_eq!(r.current_version, "v1.0.0");

    let info = UpdateInfo::new("v1.1.0".to_string(), String::new(), String::new(), String::new(), 0);
    let r = s.finish_check(Ok(UpdateCheckResult::available("v1.0.0".to_string(), info)));
    assert!(r.update_available);
    assert_eq!(s.status(), UpdateStatus::Pending);
    assert!(s.is_newer_version("v1.1.0", "v1.0.0"));
}

#[test]
fn service_full_successful_run() {
    let (mut s, private_key) = service_with_key();
    let binary = b"new binary".to_vec();
    let sig = sign_data(&binary, &private_key).unwrap();
    let info = UpdateInfo::new("v1.1.0".to_string(), String::new(), "https://dl/bin".to_string(), sig, 0);
    let (run, action) = s.apply_update(info);
    assert!(matches!(&action, ApplyAction::Download(u) if u == "https://dl/bin"));
    assert_eq!(run.stage(), ApplyStage::Downloading);
    assert_eq!(s.status(), UpdateStatus::Downloading);

    let (run, action) = s.advance(run, ApplyEvent::Downloaded(Ok(binary.clone()), 3));
    assert!(matches!(&action, ApplyAction::Install(b) if *b == binary));
    let (run, action) = s.advance(run, ApplyEvent::Installed(Ok(()), 4));
    assert!(matches!(action, ApplyAction::CheckHealth));
    let (run, action) = s.advance(run, ApplyEvent::HealthChecked(Ok(()), 5));
    assert!(matches!(action, ApplyAction::Finish));
    assert_eq!(run.stage(), ApplyStage::Finished);
    assert_eq!(s.status(), UpdateStatus::Success);
    assert_eq!(s.config().current_version, "v1.1.0");
    let result = run.into_result();
    assert!(result.success);
    assert!(result.error.is_none());
    assert!(result.completed_at.is_some());
    assert_eq!(result.new_version.as_deref(), Some("v1.1.0"));
    let names: Vec<&str> = result.steps.iter().map(|st| st.name.as_str()).collect();
    assert_eq!(names, vec!["download", "verify", "install", "health_check"]);
}

#[test]
fn service_rejects_bad_signature() {
    let (mut s, _) = service_with_key();
    let (other_private, _) = generate_keypair();
    let binary = b"new binary".to_vec();
    let sig = sign_data(&binary, &other_private).unwrap();
    let info = UpdateInfo::new("v1.1.0".to_string(), String::new(), "u".to_string(), sig, 0);
    let (run, _) = s.apply_update(info);
    let (run, action) = s.advance(run, ApplyEvent::Downloaded(Ok(binary), 1));
    assert!(matches!(action, ApplyAction::Finish));
    assert_eq!(s.status(), UpdateStatus::Failed);
    let result = run.into_result();
    assert!(!result.success);
    assert!(result.new_version.is_none());
    assert!(result.completed_at.is_some());
    assert_eq!(result.error.as_deref(), Some("Update process failed"));
    assert_eq!(result.steps.len(), 2);
    assert!(!result.steps[1].success);
}

#[test]
fn service_rolls_back_after_failed_health_check() {
    let (mut s, private_key) = service_with_key();
    let binary = b"bin".to_vec();
    let sig = sign_data(&binary, &private_key).unwrap();
    let info = UpdateInfo::new("v1.1.0".to_string(), String::new(), "u".to_string(), sig, 0);
    let (run, _) = s.apply_update(info);
    let (run, _) = s.advance(run, ApplyEvent::Downloaded(Ok(binary), 1));
    let (run, _) = s.advance(run, ApplyEvent::Installed(Ok(()), 1));
    let (run, action) = s.advance(run, ApplyEvent::HealthChecked(Err("unhealthy".to_string()), 1));
    assert!(matches!(action, ApplyAction::Rollback));
    let (run, action) = s.advance(run, ApplyEvent::RolledBack(Ok(()), 1));
    assert!(matches!(action, ApplyAction::Finish));
    assert_eq!(s.status(), UpdateStatus::Failed);
    assert_eq!(s.config().current_version, "v1.0.0");
    let result = run.into_result();
    assert_eq!(result.steps.len(), 5);
    assert_eq!(result.steps[4].name, "rollback");
}

#[test]
fn service_run_records_its_outcome() {
    let (mut s, private_key) = service_with_key();
    let binary = b"bin".to_vec();
    let sig = sign_data(&binary, &private_key).unwrap();
    let info = UpdateInfo::new("v1.1.0".to_string(), String::new(), "u".to_string(), sig.clone(), 0);
    let (run, _) = s.apply_update(info);
    assert!(run.result().steps.is_empty());
    assert!(run.result().error.is_none());
    assert!(run.result().new_version.is_none());
    let (run, _) = s.advance(run, ApplyEvent::Downloaded(Ok(binary.clone()), 1));
    let (run, _) = s.advance(run, ApplyEvent::Installed(Ok(()), 1));
    let (run, _) = s.advance(run, ApplyEvent::HealthChecked(Ok(()), 1));
    assert_eq!(run.result().status, UpdateStatus::Success);

    let (mut s, _) = service_with_key();
    let info = UpdateInfo::new("v1.1.0".to_string(), String::new(), "u".to_string(), sig, 0);
    let (run, _) = s.apply_update(info);
    let (run, _) = s.advance(run, ApplyEvent::Downloaded(Err("timeout".to_string()), 1));
    let result = run.into_result();
    assert_eq!(result.status, UpdateStatus::Failed);
    assert_eq!(result.error.as_deref(), Some("Update process failed"));
    assert_eq!(result.steps.len(), 1);
    assert_eq!(result.steps[0].error.as_deref(), Some("timeout"));
}
