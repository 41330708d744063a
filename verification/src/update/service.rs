//! The update service: its status through a check, and an update run as a
//! sequence of decisions between the download, install, health check and
//! rollback that the caller carries out.
use vstd::prelude::*;

use crate::crypto::hex_decode_seq;
use crate::error::Error;
use crate::text::{join_str, string_of};
use crate::update::release::{
    is_newer_version, is_security_release, newer_version, security_notes, GitHubRelease,
};
use crate::update::signature::{accepts, key_refusal, signature_refusal, SignatureVerifier};
use crate::update::types::{
    utc_now, UpdateCheckResult, UpdateConfig, UpdateInfo, UpdateResult, UpdateStatus, UpdateStep,
};
use crate::crypto::sha256;

verus! {

/// Where an update run stands.
#[derive(Debug, Clone, Copy, PartialEq, Eq, Structural)]
pub enum ApplyStage {
    /// Waiting for the binary.
    Downloading,
    /// Waiting for the install.
    Installing,
    /// Waiting for the health check of the installed binary.
    HealthChecking,
    /// Waiting for the rollback after a failed health check.
    RollingBack,
    /// Done; the result is final.
    Finished,
}

/// What the caller reports back, with how long it took in milliseconds.
#[derive(Debug)]
pub enum ApplyEvent {
    /// The download gave the binary, or failed with a message.
    Downloaded(Result<Vec<u8>, String>, u64),
    Installed(Result<(), String>, u64),
    HealthChecked(Result<(), String>, u64),
    RolledBack(Result<(), String>, u64),
}

/// What the caller is to do next.
#[derive(Debug)]
pub enum ApplyAction {
    /// Download the binary from this address.
    Download(String),
    /// Install this binary.
    Install(Vec<u8>),
    /// Check the health of the installed binary.
    CheckHealth,
    /// Restore the previous binary.
    Rollback,
    /// Nothing: the run is finished.
    Finish,
}

/// Whether an event answers the action a stage waits for.
pub open spec fn event_fits(stage: ApplyStage, event: ApplyEvent) -> bool {
    match event {
        ApplyEvent::Downloaded(..) => stage == ApplyStage::Downloading,
        ApplyEvent::Installed(..) => stage == ApplyStage::Installing,
        ApplyEvent::HealthChecked(..) => stage == ApplyStage::HealthChecking,
        ApplyEvent::RolledBack(..) => stage == ApplyStage::RollingBack,
    }
}

/// A step as the run records it: name, description, success and error.
pub open spec fn step_view(s: UpdateStep) -> (Seq<char>, Seq<char>, bool, Option<Seq<char>>) {
    (
        s.name@,
        s.description@,
        s.success,
        match s.error {
            Some(e) => Some(e@),
            None => None,
        },
    )
}

/// The steps of a run as recorded.
pub open spec fn steps_view(steps: Seq<UpdateStep>) -> Seq<(Seq<char>, Seq<char>, bool, Option<Seq<char>>)> {
    steps.map_values(|s: UpdateStep| step_view(s))
}

/// The names and outcomes of a run's steps.
pub open spec fn trace(steps: Seq<UpdateStep>) -> Seq<(Seq<char>, bool)> {
    steps.map_values(|s: UpdateStep| (s.name@, s.success))
}

/// A step that passed.
pub open spec fn passed(name: Seq<char>) -> (Seq<char>, bool) {
    (name, true)
}

/// A step that failed.
pub open spec fn failed(name: Seq<char>) -> (Seq<char>, bool) {
    (name, false)
}

/// The steps of a run that installed the update and found it healthy.
pub open spec fn complete_trace() -> Seq<(Seq<char>, bool)> {
    seq![passed("download"@), passed("verify"@), passed("install"@), passed("health_check"@)]
}

/// The ways a run can end in failure: a failed download, signature or
/// install, or a failed health check followed by a rollback.
pub open spec fn failure_trace(t: Seq<(Seq<char>, bool)>) -> bool {
    ||| t == seq![failed("download"@)]
    ||| t == seq![passed("download"@), failed("verify"@)]
    ||| t == seq![passed("download"@), passed("verify"@), failed("install"@)]
    ||| (t.len() == 5 && t.take(4) == seq![
        passed("download"@),
        passed("verify"@),
        passed("install"@),
        failed("health_check"@),
    ] && t[4].0 == "rollback"@)
}

/// The text a failed run ends with.
pub open spec fn failure_text() -> Seq<char> {
    "Update process failed"@
}

/// How a finished run ends: it is marked complete, and it has either the
/// complete steps, success, the new version `version` and no error, or the
/// steps of a failure, failed status, no new version and the failure text.
pub open spec fn finished_outcome(res: UpdateResult, version: Seq<char>) -> bool {
    let t = trace(res.steps@);
    &&& res.completed_at is Some
    &&& if res.success {
        &&& t == complete_trace()
        &&& res.status == UpdateStatus::Success
        &&& res.error is None
        &&& res.new_version matches Some(v)
        &&& v@ == version
    } else {
        &&& failure_trace(t)
        &&& res.status == UpdateStatus::Failed
        &&& res.new_version is None
        &&& res.error matches Some(e)
        &&& e@ == failure_text()
    }
}

/// The steps recorded so far fit the stage: every stage but the last has
/// the steps that lead to it and no outcome yet; a finished run ends as
/// `finished_outcome` says.
pub open spec fn run_shape(stage: ApplyStage, res: UpdateResult, version: Seq<char>) -> bool {
    let t = trace(res.steps@);
    &&& (stage != ApplyStage::Finished ==> {
        &&& res.new_version is None
        &&& res.error is None
        &&& !res.success
    })
    &&& match stage {
        ApplyStage::Downloading => t.len() == 0,
        ApplyStage::Installing => t == seq![passed("download"@), passed("verify"@)],
        ApplyStage::HealthChecking => t == seq![
            passed("download"@),
            passed("verify"@),
            passed("install"@),
        ],
        ApplyStage::RollingBack => t == seq![
            passed("download"@),
            passed("verify"@),
            passed("install"@),
            failed("health_check"@),
        ],
        ApplyStage::Finished => finished_outcome(res, version),
    }
}

/// A run in progress or finished.
#[derive(Debug)]
pub struct UpdateRun {
    stage: ApplyStage,
    result: UpdateResult,
    version: String,
    signature: String,
}

impl UpdateRun {
    pub closed spec fn spec_stage(&self) -> ApplyStage {
        self.stage
    }

    pub closed spec fn spec_result(&self) -> UpdateResult {
        self.result
    }

    /// The version being installed.
    pub closed spec fn spec_version(&self) -> Seq<char> {
        self.version@
    }

    /// The signature the binary must carry.
    pub closed spec fn spec_signature(&self) -> Seq<char> {
        self.signature@
    }

    /// The run has the shape its stage asks for (see `run_shape`).
    pub closed spec fn wf(&self) -> bool {
        run_shape(self.stage, self.result, self.version@)
    }

    pub fn stage(&self) -> (r: ApplyStage)
        ensures
            r == self.spec_stage(),
    {
        self.stage
    }

    pub fn result(&self) -> (r: &UpdateResult)
        ensures
            *r == self.spec_result(),
    {
        &self.result
    }

    /// The run's result.
    pub fn into_result(self) -> (r: UpdateResult)
        ensures
            r == self.spec_result(),
    {
        self.result
    }
}

/// A finished run succeeded exactly when it downloaded, verified,
/// installed and health-checked the update, exactly when it records a new
/// version, and exactly when it records no error; a successful run has the
/// success status and the run's version as its new one, a failed run the
/// failed status, the failure text and the steps of a failure; it is always
/// marked complete; a rollback happens only as the last step after an
/// install that passed and a health check that failed; and a failed health
/// check is always followed by a rollback.
pub proof fn finished_run_laws(run: UpdateRun)
    requires
        run.wf(),
        run.spec_stage() == ApplyStage::Finished,
    ensures
        finished_outcome(run.spec_result(), run.spec_version()),
        run.spec_result().success ==> run.spec_result().status == UpdateStatus::Success,
        !run.spec_result().success ==> {
            &&& run.spec_result().status == UpdateStatus::Failed
            &&& run.spec_result().error matches Some(e)
            &&& e@ == failure_text()
            &&& failure_trace(trace(run.spec_result().steps@))
        },
        forall|i: int|
            0 <= i < trace(run.spec_result().steps@).len() && #[trigger] trace(
                run.spec_result().steps@,
            )[i] == failed("health_check"@) ==> i == 3 && trace(run.spec_result().steps@).len()
                == 5 && trace(run.spec_result().steps@)[4].0 == "rollback"@,
        run.spec_result().success <==> trace(run.spec_result().steps@) == complete_trace(),
        run.spec_result().success <==> run.spec_result().new_version is Some,
        run.spec_result().success <==> run.spec_result().error is None,
        run.spec_result().completed_at is Some,
        forall|i: int|
            0 <= i < trace(run.spec_result().steps@).len() && #[trigger] trace(
                run.spec_result().steps@,
            )[i].0 == "rollback"@ ==> i == 4 && trace(run.spec_result().steps@)[2] == passed(
                "install"@,
            ) && trace(run.spec_result().steps@)[3] == failed("health_check"@),
{
    let t = trace(run.spec_result().steps@);
    lemma_step_names_differ();
    if !run.spec_result().success {
        assert(t != complete_trace()) by {
            if t == complete_trace() {
                if t.len() == 5 {
                } else if t.len() == 1 {
                    assert(t[0] == complete_trace()[0]);
                } else if t.len() == 2 {
                    assert(t[1] == complete_trace()[1]);
                } else {
                    assert(t[2] == complete_trace()[2]);
                }
            }
        }
    }
    assert forall|i: int|
        0 <= i < t.len() && #[trigger] t[i] == failed("health_check"@) implies i == 3 && t.len()
        == 5 && t[4].0 == "rollback"@ by {
        if run.spec_result().success {
            assert(t[i] == complete_trace()[i]);
        } else if t.len() == 5 {
            if i < 4 {
                assert(t[i] == t.take(4)[i]);
                assert(t.take(4)[i] == seq![
                    passed("download"@),
                    passed("verify"@),
                    passed("install"@),
                    failed("health_check"@),
                ][i]);
            }
            if i == 4 {
                assert(t[4].0 == "rollback"@);
            }
        } else if t.len() == 1 {
            assert(t[i] == seq![failed("download"@)][i]);
        } else if t.len() == 2 {
            assert(t[i] == seq![passed("download"@), failed("verify"@)][i]);
        } else {
            assert(t[i] == seq![passed("download"@), passed("verify"@), failed("install"@)][i]);
        }
    }
    assert forall|i: int|
        0 <= i < t.len() && #[trigger] t[i].0 == "rollback"@ implies i == 4 && t[2] == passed(
        "install"@,
    ) && t[3] == failed("health_check"@) by {
        if run.spec_result().success {
            assert(t[i] == complete_trace()[i]);
        } else if t.len() == 5 {
            if i < 4 {
                assert(t[i] == t.take(4)[i]);
                assert(t.take(4)[i] == seq![
                    passed("download"@),
                    passed("verify"@),
                    passed("install"@),
                    failed("health_check"@),
                ][i]);
            }
            assert(t[2] == t.take(4)[2]);
            assert(t[3] == t.take(4)[3]);
        } else if t.len() == 1 {
            assert(t[i] == seq![failed("download"@)][i]);
        } else if t.len() == 2 {
            assert(t[i] == seq![passed("download"@), failed("verify"@)][i]);
        } else {
            assert(t[i] == seq![passed("download"@), passed("verify"@), failed("install"@)][i]);
        }
    }
}

proof fn lemma_step_names_differ()
    ensures
        "download"@ != "rollback"@,
        "verify"@ != "rollback"@,
        "install"@ != "rollback"@,
        "health_check"@ != "rollback"@,
        "download"@ != "verify"@,
        "download"@ != "install"@,
        "verify"@ != "install"@,
        "install"@ != "health_check"@,
        "download"@ != "health_check"@,
        "verify"@ != "health_check"@,
{
    reveal_strlit("download");
    reveal_strlit("verify");
    reveal_strlit("install");
    reveal_strlit("health_check");
    reveal_strlit("rollback");
    assert(("download"@)[0] != ("rollback"@)[0]);
    assert(("download"@).len() != ("verify"@).len());
    assert(("download"@).len() != ("install"@).len());
    assert(("verify"@).len() != ("rollback"@).len());
    assert(("install"@).len() != ("rollback"@).len());
    assert(("health_check"@).len() != ("rollback"@).len());
    assert(("verify"@).len() != ("install"@).len());
    assert(("install"@).len() != ("health_check"@).len());
    assert(("download"@).len() != ("health_check"@).len());
    assert(("verify"@).len() != ("health_check"@).len());
}

/// The update service.
#[derive(Debug)]
pub struct UpdateService {
    config: UpdateConfig,
    signature_verifier: SignatureVerifier,
    current_status: UpdateStatus,
}

impl UpdateService {
    pub closed spec fn spec_config(&self) -> UpdateConfig {
        self.config
    }

    pub closed spec fn spec_status(&self) -> UpdateStatus {
        self.current_status
    }

    /// The verifying key of release signatures.
    pub closed spec fn key(&self) -> Seq<u8> {
        self.signature_verifier.key()
    }

    /// The verifier holds the configured key.
    pub closed spec fn wf(&self) -> bool {
        self.signature_verifier.wf() && hex_decode_seq(self.config.public_key@) == Some(
            self.signature_verifier.key(),
        )
    }

    /// A service for `config`; a verifying key that cannot be read is a
    /// configuration error.
    pub fn new(config: UpdateConfig) -> (r: Result<Self, Error>)
        ensures
            match r {
                Ok(s) => s.wf() && s.spec_config() == config && s.spec_status() == UpdateStatus::Idle
                    && key_refusal(config.public_key@) is None,
                Err(e) => e is Config && key_refusal(config.public_key@) == Some(e.spec_detail()),
            },
    {
        let signature_verifier = SignatureVerifier::new(config.public_key.as_str())?;
        Ok(UpdateService { config, signature_verifier, current_status: UpdateStatus::Idle })
    }

    pub fn status(&self) -> (r: UpdateStatus)
        ensures
            r == self.spec_status(),
    {
        self.current_status
    }

    pub fn config(&self) -> (r: &UpdateConfig)
        ensures
            *r == self.spec_config(),
    {
        &self.config
    }

    /// Marks the start of an update check.
    pub fn begin_check(&mut self)
        ensures
            final(self).spec_status() == UpdateStatus::Checking,
            final(self).spec_config() == old(self).spec_config(),
            final(self).key() == old(self).key(),
            final(self).wf() == old(self).wf(),
    {
        self.current_status = UpdateStatus::Checking;
    }

    /// Ends an update check with its outcome: an available update leaves
    /// the service pending, anything else idle; a failed check is reported
    /// as a result carrying `Update check failed: <detail>`.
    pub fn finish_check(&mut self, outcome: Result<UpdateCheckResult, Error>) -> (r: UpdateCheckResult)
        ensures
            final(self).spec_config() == old(self).spec_config(),
            final(self).key() == old(self).key(),
            final(self).wf() == old(self).wf(),
            match outcome {
                Ok(c) => r == c && final(self).spec_status() == if c.update_available {
                    UpdateStatus::Pending
                } else {
                    UpdateStatus::Idle
                },
                Err(e) => {
                    &&& final(self).spec_status() == UpdateStatus::Idle
                    &&& !r.update_available
                    &&& r.update_info is None
                    &&& r.current_version@ == old(self).spec_config().current_version@
                    &&& r.error matches Some(m)
                    &&& m@ == "Update check failed: "@ + e.spec_detail()
                },
            },
    {
        match outcome {
            Ok(c) => {
                self.current_status = if c.update_available {
                    UpdateStatus::Pending
                } else {
                    UpdateStatus::Idle
                };
                c
            },
            Err(e) => {
                self.current_status = UpdateStatus::Idle;
                let msg = join_str("Update check failed: ", e.detail().as_str());
                UpdateCheckResult::error(self.config.current_version.clone(), msg)
            },
        }
    }

    /// Whether `new_version` is newer than `current_version`.
    pub fn is_newer_version(&self, new_version: &str, current_version: &str) -> (r: bool)
        ensures
            r == newer_version(new_version@, current_version@),
    {
        is_newer_version(new_version, current_version)
    }

    /// Whether a release is a security release.
    pub fn is_security_release(&self, release: &GitHubRelease) -> (r: bool)
        ensures
            r == security_notes(release.body),
    {
        is_security_release(release)
    }

    fn finish_failure(&mut self, result: UpdateResult, version: String, signature: String) -> (r: (
        UpdateRun,
        ApplyAction,
    ))
        requires
            failure_trace(trace(result.steps@)),
            result.new_version is None,
        ensures
            r.0.wf(),
            r.0.spec_stage() == ApplyStage::Finished,
            !r.0.spec_result().success,
            r.0.spec_result().steps == result.steps,
            r.0.spec_result().previous_version == result.previous_version,
            r.0.spec_version() == version@,
            r.0.spec_signature() == signature@,
            r.1 is Finish,
            final(self).spec_status() == UpdateStatus::Failed,
            final(self).spec_config() == old(self).spec_config(),
            final(self).key() == old(self).key(),
            final(self).wf() == old(self).wf(),
    {
        self.current_status = UpdateStatus::Failed;
        let result = result.complete_failure(string_of("Update process failed"));
        (UpdateRun { stage: ApplyStage::Finished, result, version, signature }, ApplyAction::Finish)
    }

    /// Starts applying an offered update: the run waits for the binary,
    /// which the caller downloads from the offer's address.
    pub fn apply_update(&mut self, update_info: UpdateInfo) -> (r: (UpdateRun, ApplyAction))
        ensures
            r.0.wf(),
            r.0.spec_stage() == ApplyStage::Downloading,
            run_shape(r.0.spec_stage(), r.0.spec_result(), r.0.spec_version()),
            r.0.spec_version() == update_info.version@,
            r.0.spec_signature() == update_info.signature@,
            r.0.spec_result().steps@.len() == 0,
            !r.0.spec_result().success,
            r.0.spec_result().new_version is None,
            r.0.spec_result().error is None,
            r.0.spec_result().completed_at is None,
            r.0.spec_result().previous_version@ == old(self).spec_config().current_version@,
            r.1 == ApplyAction::Download(update_info.download_url),
            final(self).spec_status() == UpdateStatus::Downloading,
            final(self).spec_config() == old(self).spec_config(),
            final(self).key() == old(self).key(),
            final(self).wf() == old(self).wf(),
    {
        let result = UpdateResult::new(self.config.current_version.clone());
        self.current_status = UpdateStatus::Downloading;
        (
            UpdateRun {
                stage: ApplyStage::Downloading,
                result,
                version: update_info.version,
                signature: update_info.signature,
            },
            ApplyAction::Download(update_info.download_url),
        )
    }

    /// Takes the caller's report on the action the run waits for and
    /// decides the next one.  A downloaded binary is checked against the
    /// run's signature here; only a binary that passes is installed, only
    /// an installed binary is health-checked, and a failed health check is
    /// followed by a rollback.  Every report adds its step; a run that
    /// fails ends with the failure text, and one whose health check passes
    /// ends in success with the new version as the running one.
    pub fn advance(&mut self, run: UpdateRun, event: ApplyEvent) -> (r: (UpdateRun, ApplyAction))
        requires
            old(self).wf(),
            run.wf(),
            event_fits(run.spec_stage(), event),
        ensures
            final(self).wf(),
            final(self).key() == old(self).key(),
            r.0.wf(),
            run_shape(r.0.spec_stage(), r.0.spec_result(), r.0.spec_version()),
            r.0.spec_stage() == ApplyStage::Finished ==> finished_outcome(
                r.0.spec_result(),
                r.0.spec_version(),
            ),
            r.0.spec_version() == run.spec_version(),
            r.0.spec_signature() == run.spec_signature(),
            r.0.spec_result().previous_version == run.spec_result().previous_version,
            advanced(
                run.spec_stage(),
                run.spec_result().steps@,
                run.spec_version(),
                run.spec_signature(),
                old(self).key(),
                event,
                r.0.spec_stage(),
                r.0.spec_result(),
                r.1,
                final(self).spec_status(),
            ),
            final(self).spec_config().current_version@ == if r.0.spec_stage() == ApplyStage::Finished
                && r.0.spec_result().success {
                run.spec_version()
            } else {
                old(self).spec_config().current_version@
            },
    {
        let UpdateRun { stage, mut result, version, signature } = run;
        let ghost before = result.steps@;
        match event {
            ApplyEvent::Downloaded(Err(e), d) => {
                let ghost et = e@;
                result.add_step(
                    UpdateStep::new(string_of("download"), string_of("Failed to download update")).failed(
                        e,
                    ).with_duration(d),
                );
                proof {
                    assert(trace(result.steps@) =~= seq![failed("download"@)]);
                    assert(steps_view(result.steps@) =~= steps_view(before).push(
                        ("download"@, "Failed to download update"@, false, Some(et)),
                    ));
                }
                self.finish_failure(result, version, signature)
            },
            ApplyEvent::Downloaded(Ok(binary), d) => {
                result.add_step(
                    UpdateStep::new(string_of("download"), string_of("Downloaded update binary")).with_duration(
                        d,
                    ),
                );
                let ghost after_download = result.steps@;
                self.current_status = UpdateStatus::Verifying;
                let started = utc_now();
                let verdict = self.signature_verifier.verify(binary.as_slice(), signature.as_str());
                let ended = utc_now();
                let took: u64 = match ended.checked_sub(started) {
                    Some(x) => if x >= 0 {
                        x as u64
                    } else {
                        0
                    },
                    None => 0,
                };
                match verdict {
                    Ok(()) => {
                        result.add_step(
                            UpdateStep::new(string_of("verify"), string_of("Verified binary signature")).with_duration(
                                took,
                            ),
                        );
                        proof {
                            assert(trace(result.steps@) =~= seq![passed("download"@), passed("verify"@)]);
                            assert(steps_view(result.steps@) =~= steps_view(before).push(
                                ("download"@, "Downloaded update binary"@, true, None),
                            ).push(("verify"@, "Verified binary signature"@, true, None)));
                        }
                        self.current_status = UpdateStatus::Installing;
                        (
                            UpdateRun { stage: ApplyStage::Installing, result, version, signature },
                            ApplyAction::Install(binary),
                        )
                    },
                    Err(e) => {
                        let ghost et = e.spec_detail();
                        result.add_step(
                            UpdateStep::new(
                                string_of("verify"),
                                string_of("Signature verification failed"),
                            ).failed(e.detail().clone()).with_duration(took),
                        );
                        proof {
                            assert(trace(result.steps@) =~= seq![passed("download"@), failed("verify"@)]);
                            assert(steps_view(result.steps@) =~= steps_view(before).push(
                                ("download"@, "Downloaded update binary"@, true, None),
                            ).push(("verify"@, "Signature verification failed"@, false, Some(et))));
                        }
                        self.finish_failure(result, version, signature)
                    },
                }
            },
            ApplyEvent::Installed(outcome, d) => {
                match outcome {
                    Ok(()) => {
                        result.add_step(
                            UpdateStep::new(string_of("install"), string_of("Installed new binary")).with_duration(
                                d,
                            ),
                        );
                        proof {
                            assert(trace(result.steps@) =~= seq![
                                passed("download"@),
                                passed("verify"@),
                                passed("install"@),
                            ]) by {
                                assert(trace(result.steps@) =~= trace(before).push(passed("install"@)));
                            }
                            assert(steps_view(result.steps@) =~= steps_view(before).push(
                                ("install"@, "Installed new binary"@, true, None),
                            ));
                        }
                        self.current_status = UpdateStatus::HealthChecking;
                        (
                            UpdateRun { stage: ApplyStage::HealthChecking, result, version, signature },
                            ApplyAction::CheckHealth,
                        )
                    },
                    Err(e) => {
                        let ghost et = e@;
                        result.add_step(
                            UpdateStep::new(string_of("install"), string_of("Failed to install update")).failed(
                                e,
                            ).with_duration(d),
                        );
                        proof {
                            assert(trace(result.steps@) =~= seq![
                                passed("download"@),
                                passed("verify"@),
                                failed("install"@),
                            ]) by {
                                assert(trace(result.steps@) =~= trace(before).push(failed("install"@)));
                            }
                            assert(steps_view(result.steps@) =~= steps_view(before).push(
                                ("install"@, "Failed to install update"@, false, Some(et)),
                            ));
                        }
                        self.finish_failure(result, version, signature)
                    },
                }
            },
            ApplyEvent::HealthChecked(outcome, d) => {
                match outcome {
                    Ok(()) => {
                        result.add_step(
                            UpdateStep::new(string_of("health_check"), string_of("Health check passed")).with_duration(
                                d,
                            ),
                        );
                        proof {
                            assert(trace(result.steps@) =~= complete_trace()) by {
                                assert(trace(result.steps@) =~= trace(before).push(
                                    passed("health_check"@),
                                ));
                            }
                            assert(steps_view(result.steps@) =~= steps_view(before).push(
                                ("health_check"@, "Health check passed"@, true, None),
                            ));
                        }
                        self.current_status = UpdateStatus::Success;
                        self.config.current_version = version.clone();
                        let result = result.complete_success(version.clone());
                        (
                            UpdateRun { stage: ApplyStage::Finished, result, version, signature },
                            ApplyAction::Finish,
                        )
                    },
                    Err(e) => {
                        let ghost et = e@;
                        result.add_step(
                            UpdateStep::new(string_of("health_check"), string_of("Health check failed")).failed(
                                e,
                            ).with_duration(d),
                        );
                        proof {
                            assert(trace(result.steps@) =~= seq![
                                passed("download"@),
                                passed("verify"@),
                                passed("install"@),
                                failed("health_check"@),
                            ]) by {
                                assert(trace(result.steps@) =~= trace(before).push(
                                    failed("health_check"@),
                                ));
                            }
                            assert(steps_view(result.steps@) =~= steps_view(before).push(
                                ("health_check"@, "Health check failed"@, false, Some(et)),
                            ));
                        }
                        self.current_status = UpdateStatus::RollingBack;
                        (
                            UpdateRun { stage: ApplyStage::RollingBack, result, version, signature },
                            ApplyAction::Rollback,
                        )
                    },
                }
            },
            ApplyEvent::RolledBack(outcome, d) => {
                let ghost view = match &outcome {
                    Ok(()) => ("rollback"@, "Rolled back to previous version"@, true, None),
                    Err(e) => ("rollback"@, "Rollback failed"@, false, Some(e@)),
                };
                let step = match outcome {
                    Ok(()) => UpdateStep::new(
                        string_of("rollback"),
                        string_of("Rolled back to previous version"),
                    ).with_duration(d),
                    Err(e) => UpdateStep::new(string_of("rollback"), string_of("Rollback failed")).failed(
                        e,
                    ).with_duration(d),
                };
                result.add_step(step);
                proof {
                    let t = trace(result.steps@);
                    assert(t =~= trace(before).push((view.0, view.2)));
                    assert(t.take(4) =~= trace(before));
                    assert(steps_view(result.steps@) =~= steps_view(before).push(view));
                }
                self.finish_failure(result, version, signature)
            },
        }
    }
}

/// What one report does to a run in stage `stage` with steps `steps`,
/// version `version` and signature `sig` under key `key`: the next stage,
/// the run's result, the action and the service's status.
pub open spec fn advanced(
    stage: ApplyStage,
    steps: Seq<UpdateStep>,
    version: Seq<char>,
    sig: Seq<char>,
    key: Seq<u8>,
    event: ApplyEvent,
    next: ApplyStage,
    result: UpdateResult,
    action: ApplyAction,
    status: UpdateStatus,
) -> bool {
    let failed_run = next == ApplyStage::Finished && !result.success && action is Finish && status
        == UpdateStatus::Failed;
    let old_view = steps_view(steps);
    let new_view = steps_view(result.steps@);
    match event {
        ApplyEvent::Downloaded(Err(e), d) => failed_run && new_view == old_view.push(
            ("download"@, "Failed to download update"@, false, Some(e@)),
        ) && result.steps@.last().duration_ms == d,
        ApplyEvent::Downloaded(Ok(binary), d) => if accepts(key, binary@, sig) {
            next == ApplyStage::Installing && action == ApplyAction::Install(binary) && status
                == UpdateStatus::Installing && new_view == old_view.push(
                ("download"@, "Downloaded update binary"@, true, None),
            ).push(("verify"@, "Verified binary signature"@, true, None))
                && result.steps@[steps.len() as int].duration_ms == d
        } else {
            failed_run && new_view == old_view.push(
                ("download"@, "Downloaded update binary"@, true, None),
            ).push(
                (
                    "verify"@,
                    "Signature verification failed"@,
                    false,
                    signature_refusal(
                        key,
                        sha256(binary@),
                        sig,
                        "Signature verification failed: "@,
                    ),
                ),
            ) && result.steps@[steps.len() as int].duration_ms == d
        },
        ApplyEvent::Installed(Ok(()), d) => next == ApplyStage::HealthChecking && action
            is CheckHealth && status == UpdateStatus::HealthChecking && new_view == old_view.push(
            ("install"@, "Installed new binary"@, true, None),
        ) && result.steps@.last().duration_ms == d,
        ApplyEvent::Installed(Err(e), d) => failed_run && new_view == old_view.push(
            ("install"@, "Failed to install update"@, false, Some(e@)),
        ) && result.steps@.last().duration_ms == d,
        ApplyEvent::HealthChecked(Ok(()), d) => {
            &&& next == ApplyStage::Finished
            &&& result.success
            &&& result.new_version matches Some(v)
            &&& v@ == version
            &&& action is Finish
            &&& status == UpdateStatus::Success
            &&& new_view == old_view.push(("health_check"@, "Health check passed"@, true, None))
            &&& result.steps@.last().duration_ms == d
        },
        ApplyEvent::HealthChecked(Err(e), d) => next == ApplyStage::RollingBack && action
            is Rollback && status == UpdateStatus::RollingBack && new_view == old_view.push(
            ("health_check"@, "Health check failed"@, false, Some(e@)),
        ) && result.steps@.last().duration_ms == d,
        ApplyEvent::RolledBack(outcome, d) => failed_run && new_view == old_view.push(
            match outcome {
                Ok(()) => ("rollback"@, "Rolled back to previous version"@, true, None),
                Err(e) => ("rollback"@, "Rollback failed"@, false, Some(e@)),
            },
        ) && result.steps@.last().duration_ms == d,
    }
}

} // verus!
