//! Administration: how API keys are stored, and how the store's timestamps
//! are read back as instants.
use vstd::prelude::*;
use vstd::string::StringSliceAdditionalSpecFns;

use crate::crypto::{hex_encode, hex_encode_seq, sha256, sha256_digest};
use crate::text::{parse_i64_chars, parse_i64_seq, parse_u32_chars, parse_unsigned, str_chars, sub_chars};

verus! {

/// What is stored of an API key: the lowercase hex SHA-256 digest of its
/// text (UTF-8).
pub open spec fn key_digest(api_key: &str) -> Seq<char> {
    hex_encode_seq(sha256(api_key.spec_bytes()))
}

/// The stored form of an API key (see `key_digest`); the key itself is
/// handed out once and not kept.
pub fn api_key_hash(api_key: &str) -> (r: String)
    ensures
        r@ == key_digest(api_key),
{
    let bytes = api_key.as_bytes_vec();
    let digest = sha256_digest(bytes.as_slice());
    hex_encode(digest.as_slice())
}

/// The instant (seconds since the Unix epoch, nanoseconds within the
/// second) an RFC 3339 text denotes (`DateTime::parse_from_rfc3339`,
/// then taken to UTC), or nothing when the text is not RFC 3339.
pub uninterp spec fn rfc3339_instant(s: Seq<char>) -> Option<(i64, u32)>;

/// `chrono::DateTime::parse_from_rfc3339`, taken to UTC and read as
/// seconds and nanoseconds.
#[verifier::external_body]
fn parse_rfc3339(s: &str) -> (r: Option<(i64, u32)>)
    ensures
        r == rfc3339_instant(s@),
{
    match chrono::DateTime::parse_from_rfc3339(s) {
        Ok(dt) => {
            let utc = dt.with_timezone(&chrono::Utc);
            Some((utc.timestamp(), utc.timestamp_subsec_nanos()))
        },
        Err(_) => None,
    }
}

/// The instant `Utc.timestamp_opt(secs, nanos)` gives when it gives exactly
/// one, read back as seconds and nanoseconds.
pub uninterp spec fn utc_instant(secs: i64, nanos: u32) -> Option<(i64, u32)>;

/// `chrono::TimeZone::timestamp_opt` on `Utc`: an instant only for a
/// single answer.
#[verifier::external_body]
fn utc_timestamp(secs: i64, nanos: u32) -> (r: Option<(i64, u32)>)
    ensures
        r == utc_instant(secs, nanos),
{
    match chrono::TimeZone::timestamp_opt(&chrono::Utc, secs, nanos) {
        chrono::LocalResult::Single(dt) => Some((dt.timestamp(), dt.timestamp_subsec_nanos())),
        _ => None,
    }
}

/// The current instant (`chrono::Utc::now`); nothing is claimed of it.
#[verifier::external_body]
fn utc_now_instant() -> (r: (i64, u32)) {
    let now = chrono::Utc::now();
    (now.timestamp(), now.timestamp_subsec_nanos())
}

/// The seconds and nanoseconds of a `<secs>.<nanos>` text: the parts
/// before and after its first `.`, read as a signed and an unsigned number.
pub open spec fn dotted_parts(s: Seq<char>) -> Option<(i64, u32)> {
    if exists|i: int| 0 <= i < s.len() && s[i] == '.' {
        let i = choose|i: int| 0 <= i < s.len() && s[i] == '.' && forall|j: int| 0 <= j < i ==> s[j] != '.';
        match (parse_i64_seq(s.take(i)), parse_unsigned(s.skip(i + 1), u32::MAX as nat)) {
            (Some(secs), Some(nanos)) => Some((secs as i64, nanos as u32)),
            _ => None,
        }
    } else {
        None
    }
}

/// The instant of a `<secs>.<nanos>` text (see `dotted_parts` and
/// `utc_instant`).
pub open spec fn dotted_instant(s: Seq<char>) -> Option<(i64, u32)> {
    match dotted_parts(s) {
        Some((secs, nanos)) => utc_instant(secs, nanos),
        None => None,
    }
}

/// The position of the first `.` of a text.
fn first_dot(s: &[char]) -> (r: Option<usize>)
    ensures
        match r {
            Some(i) => i < s@.len() && s@[i as int] == '.' && forall|j: int| 0 <= j < i ==> s@[j] != '.',
            None => forall|j: int| 0 <= j < s@.len() ==> s@[j] != '.',
        },
{
    let mut i: usize = 0;
    while i < s.len()
        invariant
            i <= s@.len(),
            forall|j: int| 0 <= j < i ==> s@[j] != '.',
        decreases s@.len() - i,
    {
        if s[i] == '.' {
            return Some(i);
        }
        i += 1;
    }
    None
}

/// Reads a stored timestamp as an instant in UTC: RFC 3339 first, then
/// the store's own `<secs>.<nanos>` form; a text that is neither (or names
/// no instant) is read as the current time.
pub fn parse_timestamp_to_utc(s: &str) -> (r: (i64, u32))
    ensures
        rfc3339_instant(s@) matches Some(t) ==> r == t,
        rfc3339_instant(s@) is None && dotted_instant(s@) is Some ==> r == dotted_instant(s@)->Some_0,
{
    if let Some(t) = parse_rfc3339(s) {
        return t;
    }
    let c = str_chars(s);
    match first_dot(c.as_slice()) {
        None => {
            assert(dotted_parts(s@) is None);
        },
        Some(i) => {
            let head = sub_chars(c.as_slice(), 0, i);
            let tail = sub_chars(c.as_slice(), i + 1, c.len());
            proof {
                assert(head@ == s@.take(i as int));
                assert(tail@ == s@.skip(i + 1));
                let k = choose|k: int|
                    0 <= k < s@.len() && s@[k] == '.' && forall|j: int| 0 <= j < k ==> s@[j] != '.';
                assert(k == i) by {
                    if k < i {
                        assert(s@[k] != '.');
                    }
                    if k > i {
                        assert(s@[i as int] != '.');
                    }
                }
            }
            let secs = parse_i64_chars(head.as_slice());
            let nanos = parse_u32_chars(tail.as_slice());
            match (secs, nanos) {
                (Some(a), Some(b)) => {
                    assert(dotted_parts(s@) == Some((a, b)));
                    if let Some(t) = utc_timestamp(a, b) {
                        return t;
                    }
                },
                _ => {
                    assert(dotted_parts(s@) is None);
                },
            }
        },
    }
    utc_now_instant()
}

} // verus!
