//! Health checks of an updated application: what a health response must
//! say, and when to retry or give up.
use vstd::prelude::*;

use crate::error::Error;
use crate::text::{decimal, join3, join_str, str_is, string_of, to_lowercase, unicode_lowercase, with_number};

verus! {

/// One named check of a health response.
#[derive(Debug)]
pub struct HealthCheckItem {
    pub status: String,
    pub message: Option<String>,
    pub duration_ms: Option<u64>,
}

/// What a health endpoint answers.
#[derive(Debug)]
pub struct HealthResponse {
    pub status: String,
    pub version: Option<String>,
    pub timestamp: Option<String>,
    /// The named checks, in the order they were read.
    pub checks: Option<Vec<(String, HealthCheckItem)>>,
}

/// Whether a status reads `ok` in any case.
pub open spec fn status_ok(status: Seq<char>) -> bool {
    unicode_lowercase(status) == "ok"@
}

/// Why a health response is refused, if it is: its own status, then the
/// first named check whose status is not `ok`.
pub open spec fn health_refusal(resp: HealthResponse) -> Option<Seq<char>> {
    if !status_ok(resp.status@) {
        Some("Health check status is not OK: "@ + resp.status@)
    } else {
        match resp.checks {
            None => None,
            Some(checks) => first_failed_check(checks@),
        }
    }
}

/// The refusal for the first check whose status is not `ok`.
pub open spec fn first_failed_check(checks: Seq<(String, HealthCheckItem)>) -> Option<Seq<char>>
    decreases checks.len(),
{
    if checks.len() == 0 {
        None
    } else if !status_ok(checks[0].1.status@) {
        Some(
            "Health check '"@ + checks[0].0@ + "' failed with status: "@ + checks[0].1.status@,
        )
    } else {
        first_failed_check(checks.drop_first())
    }
}

fn is_ok_status(status: &str) -> (r: bool)
    ensures
        r == status_ok(status@),
{
    let lower = to_lowercase(status);
    str_is(lower.as_str(), "ok")
}

/// Where and how a health check is made.
#[derive(Debug)]
pub struct HealthChecker {
    health_url: String,
    timeout_ms: u64,
    retry_count: usize,
    retry_delay_ms: u64,
}

impl HealthChecker {
    pub closed spec fn spec_health_url(&self) -> Seq<char> {
        self.health_url@
    }

    pub closed spec fn spec_timeout_ms(&self) -> u64 {
        self.timeout_ms
    }

    pub closed spec fn spec_retry_count(&self) -> usize {
        self.retry_count
    }

    pub closed spec fn spec_retry_delay_ms(&self) -> u64 {
        self.retry_delay_ms
    }

    /// A checker of `health_url` with a request timeout, three attempts and
    /// two seconds between them.
    pub fn new(health_url: String, timeout_ms: u64) -> (r: Self)
        ensures
            r.spec_health_url() == health_url@,
            r.spec_timeout_ms() == timeout_ms,
            r.spec_retry_count() == 3,
            r.spec_retry_delay_ms() == 2000,
    {
        HealthChecker { health_url, timeout_ms, retry_count: 3, retry_delay_ms: 2000 }
    }

    /// The same checker with `count` attempts, `delay_ms` apart.
    pub fn with_retries(self, count: usize, delay_ms: u64) -> (r: Self)
        ensures
            r.spec_health_url() == self.spec_health_url(),
            r.spec_timeout_ms() == self.spec_timeout_ms(),
            r.spec_retry_count() == count,
            r.spec_retry_delay_ms() == delay_ms,
    {
        HealthChecker { retry_count: count, retry_delay_ms: delay_ms, ..self }
    }

    pub fn health_url(&self) -> (r: &str)
        ensures
            r@ == self.spec_health_url(),
    {
        self.health_url.as_str()
    }

    pub fn timeout_ms(&self) -> (r: u64)
        ensures
            r == self.spec_timeout_ms(),
    {
        self.timeout_ms
    }

    pub fn retry_count(&self) -> (r: usize)
        ensures
            r == self.spec_retry_count(),
    {
        self.retry_count
    }

    pub fn retry_delay_ms(&self) -> (r: u64)
        ensures
            r == self.spec_retry_delay_ms(),
    {
        self.retry_delay_ms
    }

    /// Checks a health response: its status must read `ok` (in any case),
    /// and so must that of every named check.
    pub fn validate_health_response(&self, response: &HealthResponse) -> (r: Result<(), Error>)
        ensures
            match r {
                Ok(()) => health_refusal(*response) is None,
                Err(e) => e is External && health_refusal(*response) == Some(e.spec_detail()),
            },
    {
        if !is_ok_status(response.status.as_str()) {
            return Err(
                Error::External(
                    join_str("Health check status is not OK: ", response.status.as_str()),
                ),
            );
        }
        match &response.checks {
            None => Ok(()),
            Some(checks) => {
                let mut i: usize = 0;
                assert(checks@.skip(0) =~= checks@);
                while i < checks.len()
                    invariant
                        i <= checks@.len(),
                        response.checks == Some(*checks),
                        status_ok(response.status@),
                        first_failed_check(checks@) == first_failed_check(checks@.skip(i as int)),
                    decreases checks@.len() - i,
                {
                    proof {
                        assert(checks@.skip(i as int)[0] == checks@[i as int]);
                        assert(checks@.skip(i as int).drop_first() =~= checks@.skip(i + 1));
                    }
                    if !is_ok_status(checks[i].1.status.as_str()) {
                        let a = join3("Health check '", checks[i].0.as_str(), "' failed with status: ");
                        let m = join_str(a.as_str(), checks[i].1.status.as_str());
                        assert(first_failed_check(checks@.skip(i as int)) == Some(m@));
                        return Err(Error::External(m));
                    }
                    i += 1;
                }
                proof {
                    assert(checks@.skip(i as int).len() == 0);
                }
                Ok(())
            },
        }
    }

    /// What to do after health check attempt `attempt` (counted from one)
    /// ended with `outcome`: stop on success, try again while attempts are
    /// left, and give up after the last one.
    pub fn after_attempt(&self, attempt: usize, outcome: Result<(), Error>) -> (r: AttemptVerdict)
        requires
            1 <= attempt <= self.spec_retry_count(),
        ensures
            match outcome {
                Ok(()) => r is Passed,
                Err(e) => if attempt < self.spec_retry_count() {
                    r == AttemptVerdict::RetryAfter(self.spec_retry_delay_ms())
                } else {
                    r matches AttemptVerdict::GaveUp(g) && g is External && g.spec_detail()
                        == "Health check failed after "@ + decimal(self.spec_retry_count() as nat)
                        + " attempts: "@ + e.spec_detail()
                },
            },
    {
        match outcome {
            Ok(()) => AttemptVerdict::Passed,
            Err(e) => if attempt < self.retry_count {
                AttemptVerdict::RetryAfter(self.retry_delay_ms)
            } else {
                let a = with_number("Health check failed after ", self.retry_count as u64);
                let b = join3(a.as_str(), " attempts: ", e.detail().as_str());
                AttemptVerdict::GaveUp(Error::External(b))
            },
        }
    }

    /// What to do after attempt `attempt` of a check that also runs a
    /// validator of its own (such as the version check): stop on success,
    /// try again while attempts are left, and after the last one give up
    /// with that attempt's error as it is.
    pub fn after_validated_attempt(&self, attempt: usize, outcome: Result<(), Error>) -> (r:
        AttemptVerdict)
        requires
            1 <= attempt <= self.spec_retry_count(),
        ensures
            match outcome {
                Ok(()) => r is Passed,
                Err(e) => if attempt < self.spec_retry_count() {
                    r == AttemptVerdict::RetryAfter(self.spec_retry_delay_ms())
                } else {
                    r == AttemptVerdict::GaveUp(e)
                },
            },
    {
        match outcome {
            Ok(()) => AttemptVerdict::Passed,
            Err(e) => if attempt < self.retry_count {
                AttemptVerdict::RetryAfter(self.retry_delay_ms)
            } else {
                AttemptVerdict::GaveUp(e)
            },
        }
    }
}

impl Default for HealthChecker {
    /// A checker of `http://localhost:9000/healthz` with a ten-second
    /// timeout.
    fn default() -> (r: Self)
        ensures
            r.spec_health_url() == "http://localhost:9000/healthz"@,
            r.spec_timeout_ms() == 10000,
            r.spec_retry_count() == 3,
            r.spec_retry_delay_ms() == 2000,
    {
        HealthChecker::new(string_of("http://localhost:9000/healthz"), 10000)
    }
}

/// The next move of a health check with retries.
#[derive(Debug)]
pub enum AttemptVerdict {
    /// The check passed.
    Passed,
    /// Wait this many milliseconds and try again.
    RetryAfter(u64),
    /// No attempts are left.
    GaveUp(Error),
}

/// Why a health response does not show the expected version, if it does
/// not: a response that names no version passes.
pub open spec fn version_refusal(expected: Seq<char>, version: Option<Seq<char>>) -> Option<Seq<char>> {
    match version {
        Some(v) => if v == expected {
            None
        } else {
            Some("Version mismatch: expected '"@ + expected + "', got '"@ + v + "'"@)
        },
        None => None,
    }
}

/// Checks that a health response shows the expected version.
pub fn check_version(expected_version: &str, response: &HealthResponse) -> (r: Result<(), Error>)
    ensures
        match r {
            Ok(()) => version_refusal(
                expected_version@,
                match response.version {
                    Some(v) => Some(v@),
                    None => None,
                },
            ) is None,
            Err(e) => e is External && version_refusal(
                expected_version@,
                match response.version {
                    Some(v) => Some(v@),
                    None => None,
                },
            ) == Some(e.spec_detail()),
        },
{
    match &response.version {
        Some(v) => if str_is(v.as_str(), expected_version) {
            Ok(())
        } else {
            let a = join3("Version mismatch: expected '", expected_version, "', got '");
            Err(Error::External(join3(a.as_str(), v.as_str(), "'")))
        },
        None => Ok(()),
    }
}

} // verus!
