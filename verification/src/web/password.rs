//! Password hashing with Argon2id, with a floor under the configured cost.
use vstd::prelude::*;

use argon2::password_hash::{PasswordHash, PasswordHasher, PasswordVerifier, SaltString};

use crate::error::Error;
use crate::text::{join_str, seq_starts_with};

verus! {

/// Argon2 cost settings.
#[derive(Debug, Clone, Copy, PartialEq, Eq, Structural)]
pub struct Argon2Config {
    /// Memory in KiB.
    pub memory_cost: u32,
    /// Number of passes.
    pub time_cost: u32,
    /// Degree of parallelism.
    pub parallelism: u32,
}

impl Default for Argon2Config {
    /// The floor itself: 19 MiB, two passes, one lane.
    fn default() -> (r: Self)
        ensures
            r.memory_cost == 19456 && r.time_cost == 2 && r.parallelism == 1,
    {
        Argon2Config { memory_cost: 19456, time_cost: 2, parallelism: 1 }
    }
}

/// The cost actually used: at least 19 MiB, two passes and one lane.
pub open spec fn effective_cost(c: Argon2Config) -> (u32, u32, u32) {
    (
        if c.memory_cost < 19456 {
            19456
        } else {
            c.memory_cost
        },
        if c.time_cost < 2 {
            2
        } else {
            c.time_cost
        },
        if c.parallelism < 1 {
            1
        } else {
            c.parallelism
        },
    )
}

/// Whether `argon2::Params::new` accepts a cost: memory of at least eight
/// blocks and eight per lane, at least one pass, and 1 to 2^24 - 1 lanes.
pub open spec fn params_ok(m: u32, t: u32, p: u32) -> bool {
    m >= 8 && m >= 8 * p && t >= 1 && 1 <= p <= 0xFF_FFFF
}

/// The text (`Display`) of the error `argon2::Params::new` gives for a
/// refused cost.
pub uninterp spec fn params_error_text(m: u32, t: u32, p: u32) -> Seq<char>;

/// `argon2::Params::new(m, t, p, None)`: succeeds exactly when the cost is
/// one the crate accepts, else gives the text of its error.  The crate
/// multiplies the lanes by eight first, so they are bounded here.
#[verifier::external_body]
fn check_params(m: u32, t: u32, p: u32) -> (r: Result<(), String>)
    requires
        p <= 0x1FFF_FFFF,
    ensures
        match r {
            Ok(()) => params_ok(m, t, p),
            Err(e) => !params_ok(m, t, p) && e@ == params_error_text(m, t, p),
        },
{
    match argon2::Params::new(m, t, p, None) {
        Ok(_) => Ok(()),
        Err(e) => Err(e.to_string()),
    }
}

/// The value of member `name` of a PHC string's parameters read as a
/// decimal (`PasswordHash::new`, then `params.get_decimal`): nothing when
/// the string is no PHC string, has no such member, or its value is not a
/// decimal.
pub uninterp spec fn phc_param(hash: Seq<char>, name: Seq<char>) -> Option<u32>;

/// `PasswordHash::new(hash)` then `params.get_decimal(name)`.
#[verifier::external_body]
fn phc_decimal_param(hash: &str, name: &str) -> (r: Option<u32>)
    ensures
        r == phc_param(hash@, name@),
{
    match PasswordHash::new(hash) {
        Ok(h) => h.params.get_decimal(name),
        Err(_) => None,
    }
}

/// A PHC string records the cost `(memory, passes, lanes)` in its `m`, `t`
/// and `p` members.
pub open spec fn records_cost(hash: Seq<char>, cost: (u32, u32, u32)) -> bool {
    &&& phc_param(hash, "m"@) == Some(cost.0)
    &&& phc_param(hash, "t"@) == Some(cost.1)
    &&& phc_param(hash, "p"@) == Some(cost.2)
}

/// The lanes a PHC string names (its `p` member, when that is a decimal)
/// are few enough for the crate to check: it multiplies them by eight
/// before it refuses more than `2^24 - 1` of them.
pub open spec fn lanes_checkable(hash: Seq<char>) -> bool {
    phc_param(hash, "p"@) matches Some(p) ==> p <= 0x1FFF_FFFF
}

/// Whether an Argon2 PHC string accepts a password: hashing the password
/// with the string's algorithm, version, cost and salt gives its hash.
pub uninterp spec fn argon2_accepts(password: Seq<char>, hash: Seq<char>) -> bool;

/// `Argon2::hash_password` (Argon2id, version 19) of a password with a
/// fresh salt from the operating system, as a PHC string.  The salt is
/// random, so only this is claimed of the result: it is an Argon2id
/// string that records the cost it was made with (the crate writes
/// `m=..,t=..,p=..`) and accepts the password.  With an accepted cost the
/// crate refuses only a password of more than `2^32 - 1` bytes (the
/// generated salt has a valid length and the output length is the
/// default), so a password of at most `2^30 - 1` characters is hashed.
/// The error text is not stated.
#[verifier::external_body]
fn argon2_hash(password: &str, m: u32, t: u32, p: u32) -> (r: Result<String, String>)
    requires
        params_ok(m, t, p),
    ensures
        password@.len() <= 0x3FFF_FFFF ==> r is Ok,
        r matches Ok(h) ==> seq_starts_with(h@, "$argon2id$v=19$"@) && argon2_accepts(password@, h@)
            && records_cost(h@, (m, t, p)),
{
    let params = argon2::Params::new(m, t, p, None).unwrap();
    let salt = SaltString::generate(&mut rand_core::OsRng);
    let hasher = argon2::Argon2::new(argon2::Algorithm::Argon2id, argon2::Version::V0x13, params);
    match hasher.hash_password(password.as_bytes(), &salt) {
        Ok(h) => Ok(h.to_string()),
        Err(e) => Err(e.to_string()),
    }
}

/// Whether `PasswordHash::new` reads a text as a PHC string.
pub uninterp spec fn phc_parses(hash: Seq<char>) -> bool;

/// The text (`Display`) of the error `PasswordHash::new` gives for a text
/// it cannot read.
pub uninterp spec fn phc_error_text(hash: Seq<char>) -> Seq<char>;

/// `PasswordHash::new`: whether the text is a PHC string, else the text of
/// the error.
#[verifier::external_body]
fn parse_phc(hash: &str) -> (r: Result<(), String>)
    ensures
        match r {
            Ok(()) => phc_parses(hash@),
            Err(e) => !phc_parses(hash@) && e@ == phc_error_text(hash@),
        },
{
    match PasswordHash::new(hash) {
        Ok(_) => Ok(()),
        Err(e) => Err(e.to_string()),
    }
}

/// `PasswordVerifier::verify_password` of Argon2 on a PHC string: whether
/// the string accepts the password (its own algorithm, version, cost and
/// salt are used).
#[verifier::external_body]
fn argon2_verify(password: &str, hash: &str) -> (r: bool)
    requires
        phc_parses(hash@),
        lanes_checkable(hash@),
    ensures
        r == argon2_accepts(password@, hash@),
{
    let parsed = PasswordHash::new(hash).unwrap();
    argon2::Argon2::default().verify_password(password.as_bytes(), &parsed).is_ok()
}

/// Password hashing with Argon2id.
pub struct PasswordAuth;

/// Why a configuration's cost is refused, if it is.
pub open spec fn cost_refusal(config: Argon2Config) -> Option<Seq<char>> {
    let (m, t, p) = effective_cost(config);
    if params_ok(m, t, p) {
        None
    } else {
        Some("Invalid Argon2 parameters: "@ + params_error_text(m, t, p))
    }
}

impl PasswordAuth {
    fn check_cost(config: &Argon2Config) -> (r: Result<(u32, u32, u32), Error>)
        requires
            config.parallelism <= 0x1FFF_FFFF,
        ensures
            match r {
                Ok(c) => c == effective_cost(*config) && params_ok(c.0, c.1, c.2),
                Err(e) => e is Config && cost_refusal(*config) == Some(e.spec_detail()),
            },
    {
        let m = if config.memory_cost < 19456 {
            19456
        } else {
            config.memory_cost
        };
        let t = if config.time_cost < 2 {
            2
        } else {
            config.time_cost
        };
        let p = if config.parallelism < 1 {
            1
        } else {
            config.parallelism
        };
        match check_params(m, t, p) {
            Ok(()) => Ok((m, t, p)),
            Err(e) => Err(Error::Config(join_str("Invalid Argon2 parameters: ", e.as_str()))),
        }
    }

    /// Hashes a password with Argon2id at the configured cost (raised to the
    /// floor) and a fresh random salt; the PHC string records that cost and
    /// accepts the password.  Every password of at most `2^30 - 1`
    /// characters is hashed when the cost is accepted.
    /// A cost the crate refuses is a configuration error.
    pub fn hash_password(password: &str, config: &Argon2Config) -> (r: Result<String, Error>)
        requires
            config.parallelism <= 0x1FFF_FFFF,
        ensures
            cost_refusal(*config) is None && password@.len() <= 0x3FFF_FFFF ==> r is Ok,
            cost_refusal(*config) is Some ==> (r matches Err(e) && e is Config && cost_refusal(
                *config,
            ) == Some(e.spec_detail())),
            r matches Ok(h) ==> cost_refusal(*config) is None && seq_starts_with(
                h@,
                "$argon2id$v=19$"@,
            ) && argon2_accepts(password@, h@) && records_cost(h@, effective_cost(*config)),
            r matches Err(e) ==> e is Config,
    {
        let (m, t, p) = Self::check_cost(config)?;
        match argon2_hash(password, m, t, p) {
            Ok(h) => Ok(h),
            Err(e) => Err(Error::Config(join_str("Failed to hash password: ", e.as_str()))),
        }
    }

    /// Whether a password matches a stored PHC string: an unreadable string
    /// and a refused cost are configuration errors, in that order; a string
    /// naming more lanes than the crate can check matches nothing.
    pub fn verify_password(password: &str, hash: &str, config: &Argon2Config) -> (r: Result<
        bool,
        Error,
    >)
        requires
            config.parallelism <= 0x1FFF_FFFF,
        ensures
            match r {
                Ok(b) => phc_parses(hash@) && cost_refusal(*config) is None && b == (lanes_checkable(
                    hash@,
                ) && argon2_accepts(password@, hash@)),
                Err(e) => e is Config && if !phc_parses(hash@) {
                    e.spec_detail() == "Invalid password hash format: "@ + phc_error_text(hash@)
                } else {
                    cost_refusal(*config) == Some(e.spec_detail())
                },
            },
    {
        match parse_phc(hash) {
            Ok(()) => {},
            Err(e) => {
                return Err(
                    Error::Config(join_str("Invalid password hash format: ", e.as_str())),
                );
            },
        }
        Self::check_cost(config)?;
        match phc_decimal_param(hash, "p") {
            Some(p) => if p > 0x1FFF_FFFF {
                return Ok(false);
            },
            None => {},
        }
        Ok(argon2_verify(password, hash))
    }
}

} // verus!
