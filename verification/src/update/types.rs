//! The records of the update system: its configuration, what a release
//! offers, and what an update run did.
use vstd::prelude::*;

use chrono::Utc;

use crate::crypto::{hex_encode, hex_encode_seq, os_random_bytes};
use crate::text::string_of;

verus! {

/// The current time in milliseconds since the Unix epoch
/// (`chrono::Utc::now`, read with `timestamp_millis`); nothing is claimed
/// of it.
#[verifier::external_body]
pub(crate) fn utc_now() -> i64 {
    Utc::now().timestamp_millis()
}

/// The version of this build.
pub const CURRENT_VERSION: &'static str = "0.1.0";

/// Available update strategies.
#[derive(Debug, Clone, Copy, PartialEq, Eq, Structural)]
pub enum UpdateStrategyType {
    /// A sidecar process swaps the binary.
    Sidecar,
    /// The application replaces itself.
    SelfReplace,
}

/// Configuration of the update system.
#[derive(Debug)]
pub struct UpdateConfig {
    /// GitHub repository (`owner/repo`).
    pub repository: String,
    /// Version of the running application.
    pub current_version: String,
    /// Verifying key of release signatures, hex encoded.
    pub public_key: String,
    pub strategy: UpdateStrategyType,
    pub check_interval_seconds: u64,
    /// Health check timeout after an update, in seconds.
    pub health_check_timeout_seconds: u64,
    pub health_check_url: String,
    /// Name of the binary to update.
    pub binary_name: String,
    /// Installation directory.
    pub install_dir: String,
    pub auto_apply: bool,
    /// GitHub API token, if any.
    pub github_token: Option<String>,
}

impl Default for UpdateConfig {
    /// The defaults: hourly checks of `owner/repo` through the sidecar
    /// strategy, a 30-second health check at
    /// `http://localhost:9000/healthz`, binary `glimpser` in
    /// `/usr/local/bin`, no automatic installs and no token.
    fn default() -> (r: Self)
        ensures
            r.repository@ == "owner/repo"@,
            r.current_version@ == CURRENT_VERSION@,
            r.public_key@.len() == 0,
            r.strategy == UpdateStrategyType::Sidecar,
            r.check_interval_seconds == 3600,
            r.health_check_timeout_seconds == 30,
            r.health_check_url@ == "http://localhost:9000/healthz"@,
            r.binary_name@ == "glimpser"@,
            r.install_dir@ == "/usr/local/bin"@,
            !r.auto_apply,
            r.github_token is None,
    {
        UpdateConfig {
            repository: string_of("owner/repo"),
            current_version: string_of(CURRENT_VERSION),
            public_key: String::new(),
            strategy: UpdateStrategyType::Sidecar,
            check_interval_seconds: 3600,
            health_check_timeout_seconds: 30,
            health_check_url: string_of("http://localhost:9000/healthz"),
            binary_name: string_of("glimpser"),
            install_dir: string_of("/usr/local/bin"),
            auto_apply: false,
            github_token: None,
        }
    }
}

/// An update a release offers.
#[derive(Debug)]
pub struct UpdateInfo {
    /// Identifier of this offer.
    pub id: String,
    pub version: String,
    /// Release notes.
    pub notes: String,
    pub download_url: String,
    /// Signature of the binary, hex encoded.
    pub signature: String,
    /// Publication time, in milliseconds since the Unix epoch.
    pub published_at: i64,
    pub is_security: bool,
}

impl UpdateInfo {
    /// An offer with a fresh random identifier (32 hex digits), not marked
    /// as a security update.
    pub fn new(
        version: String,
        notes: String,
        download_url: String,
        signature: String,
        published_at: i64,
    ) -> (r: Self)
        ensures
            r.version == version,
            r.notes == notes,
            r.download_url == download_url,
            r.signature == signature,
            r.published_at == published_at,
            !r.is_security,
            r.id@.len() == 32,
            exists|b: Seq<u8>| b.len() == 16 && #[trigger] hex_encode_seq(b) == r.id@,
    {
        let seed = os_random_bytes(16);
        let id = hex_encode(seed.as_slice());
        assert(hex_encode_seq(seed@) == id@);
        UpdateInfo {
            id,
            version,
            notes,
            download_url,
            signature,
            published_at,
            is_security: false,
        }
    }

    /// The same offer with the security flag set to `is_security`.
    pub fn with_security_flag(self, is_security: bool) -> (r: Self)
        ensures
            r == (UpdateInfo { is_security, ..self }),
    {
        UpdateInfo { is_security, ..self }
    }
}

/// Result of an update check.
#[derive(Debug)]
pub struct UpdateCheckResult {
    pub update_available: bool,
    pub current_version: String,
    pub update_info: Option<UpdateInfo>,
    pub checked_at: i64,
    /// What went wrong, if the check failed.
    pub error: Option<String>,
}

impl UpdateCheckResult {
    /// No update: the running version is current.
    pub fn no_update(current_version: String) -> (r: Self)
        ensures
            !r.update_available,
            r.current_version == current_version,
            r.update_info is None,
            r.error is None,
    {
        UpdateCheckResult {
            update_available: false,
            current_version,
            update_info: None,
            checked_at: utc_now(),
            error: None,
        }
    }

    /// An update is available.
    pub fn available(current_version: String, update_info: UpdateInfo) -> (r: Self)
        ensures
            r.update_available,
            r.current_version == current_version,
            r.update_info == Some(update_info),
            r.error is None,
    {
        UpdateCheckResult {
            update_available: true,
            current_version,
            update_info: Some(update_info),
            checked_at: utc_now(),
            error: None,
        }
    }

    /// The check failed with `error`.
    pub fn error(current_version: String, error: String) -> (r: Self)
        ensures
            !r.update_available,
            r.current_version == current_version,
            r.update_info is None,
            r.error == Some(error),
    {
        UpdateCheckResult {
            update_available: false,
            current_version,
            update_info: None,
            checked_at: utc_now(),
            error: Some(error),
        }
    }
}

/// Status of the update system.
#[derive(Debug, Clone, Copy, PartialEq, Eq, Structural)]
pub enum UpdateStatus {
    Idle,
    Checking,
    /// An update is available and waits for approval.
    Pending,
    Downloading,
    Verifying,
    Installing,
    HealthChecking,
    Success,
    RollingBack,
    Failed,
}

/// The name of a status.
pub open spec fn status_name(s: UpdateStatus) -> Seq<char> {
    match s {
        UpdateStatus::Idle => "idle"@,
        UpdateStatus::Checking => "checking"@,
        UpdateStatus::Pending => "pending"@,
        UpdateStatus::Downloading => "downloading"@,
        UpdateStatus::Verifying => "verifying"@,
        UpdateStatus::Installing => "installing"@,
        UpdateStatus::HealthChecking => "health_checking"@,
        UpdateStatus::Success => "success"@,
        UpdateStatus::RollingBack => "rolling_back"@,
        UpdateStatus::Failed => "failed"@,
    }
}

impl UpdateStatus {
    /// The status's name in snake case.
    pub fn as_str(&self) -> (r: &'static str)
        ensures
            r@ == status_name(*self),
    {
        match self {
            UpdateStatus::Idle => "idle",
            UpdateStatus::Checking => "checking",
            UpdateStatus::Pending => "pending",
            UpdateStatus::Downloading => "downloading",
            UpdateStatus::Verifying => "verifying",
            UpdateStatus::Installing => "installing",
            UpdateStatus::HealthChecking => "health_checking",
            UpdateStatus::Success => "success",
            UpdateStatus::RollingBack => "rolling_back",
            UpdateStatus::Failed => "failed",
        }
    }
}

/// One step of an update run.
#[derive(Debug)]
pub struct UpdateStep {
    pub name: String,
    pub description: String,
    pub success: bool,
    /// Why the step failed.
    pub error: Option<String>,
    pub duration_ms: u64,
    pub timestamp: i64,
}

impl UpdateStep {
    /// A successful step that took no time yet, stamped now.
    pub fn new(name: String, description: String) -> (r: Self)
        ensures
            r.name == name,
            r.description == description,
            r.success,
            r.error is None,
            r.duration_ms == 0,
    {
        UpdateStep { name, description, success: true, error: None, duration_ms: 0, timestamp: utc_now() }
    }

    /// The same step marked failed with `error`.
    pub fn failed(self, error: String) -> (r: Self)
        ensures
            r == (UpdateStep { success: false, error: Some(error), ..self }),
    {
        UpdateStep { success: false, error: Some(error), ..self }
    }

    /// The same step with its duration in milliseconds.
    pub fn with_duration(self, duration_ms: u64) -> (r: Self)
        ensures
            r == (UpdateStep { duration_ms, ..self }),
    {
        UpdateStep { duration_ms, ..self }
    }
}

/// What an update run did.
#[derive(Debug)]
pub struct UpdateResult {
    pub success: bool,
    pub previous_version: String,
    /// The installed version, when the run succeeded.
    pub new_version: Option<String>,
    pub status: UpdateStatus,
    pub error: Option<String>,
    pub started_at: i64,
    pub completed_at: Option<i64>,
    pub steps: Vec<UpdateStep>,
}

impl UpdateResult {
    /// A run that has not done anything yet.
    pub fn new(previous_version: String) -> (r: Self)
        ensures
            !r.success,
            r.previous_version == previous_version,
            r.new_version is None,
            r.status == UpdateStatus::Idle,
            r.error is None,
            r.completed_at is None,
            r.steps@.len() == 0,
    {
        UpdateResult {
            success: false,
            previous_version,
            new_version: None,
            status: UpdateStatus::Idle,
            error: None,
            started_at: utc_now(),
            completed_at: None,
            steps: Vec::new(),
        }
    }

    /// Records a step after the others.
    pub fn add_step(&mut self, step: UpdateStep)
        ensures
            final(self).steps@ == old(self).steps@.push(step),
            final(self).success == old(self).success,
            final(self).previous_version == old(self).previous_version,
            final(self).new_version == old(self).new_version,
            final(self).status == old(self).status,
            final(self).error == old(self).error,
            final(self).started_at == old(self).started_at,
            final(self).completed_at == old(self).completed_at,
    {
        self.steps.push(step);
    }

    /// The run, finished with `new_version` installed.
    pub fn complete_success(self, new_version: String) -> (r: Self)
        ensures
            r.success,
            r.new_version == Some(new_version),
            r.status == UpdateStatus::Success,
            r.completed_at is Some,
            r.previous_version == self.previous_version,
            r.error == self.error,
            r.steps == self.steps,
    {
        UpdateResult {
            success: true,
            new_version: Some(new_version),
            status: UpdateStatus::Success,
            completed_at: Some(utc_now()),
            ..self
        }
    }

    /// The run, finished in failure with `error`.
    pub fn complete_failure(self, error: String) -> (r: Self)
        ensures
            !r.success,
            r.status == UpdateStatus::Failed,
            r.error == Some(error),
            r.completed_at is Some,
            r.previous_version == self.previous_version,
            r.new_version == self.new_version,
            r.steps == self.steps,
    {
        UpdateResult {
            success: false,
            status: UpdateStatus::Failed,
            error: Some(error),
            completed_at: Some(utc_now()),
            ..self
        }
    }
}

} // verus!
