//! GitHub releases as update offers: which release is newer, which assets
//! hold the binary and its signature, and the API's rate limit.
use vstd::prelude::*;

use crate::error::Error;
use crate::text::{
    all_digits, compare_decimal, digits_value, leading_digit_chars, leading_digits, split_chars,
    split_seq, sub_chars, views, contains_chars, join3, join_str, parse_i64_chars, parse_i64_seq, parse_unsigned,
    parse_u32_chars, seq_contains, str_chars, str_is, string_from_chars, string_of, to_lowercase,
    trim_chars, trim_seq, unicode_lowercase,
};
use crate::update::types::{utc_now, UpdateInfo};

verus! {

/// A release asset.
#[derive(Debug)]
pub struct GitHubAsset {
    pub id: u64,
    pub name: String,
    pub label: Option<String>,
    pub size: u64,
    pub download_count: u64,
    pub browser_download_url: String,
    pub content_type: String,
}

/// A release.
#[derive(Debug)]
pub struct GitHubRelease {
    pub id: u64,
    pub tag_name: String,
    pub name: Option<String>,
    pub body: Option<String>,
    pub draft: bool,
    pub prerelease: bool,
    /// Publication time, in milliseconds since the Unix epoch.
    pub published_at: Option<i64>,
    pub assets: Vec<GitHubAsset>,
}

/// Where releases of one repository are looked up.
#[derive(Debug)]
pub struct GitHubReleaseChecker {
    repository: String,
    api_token: Option<String>,
    base_url: String,
}

impl GitHubReleaseChecker {
    pub closed spec fn spec_repository(&self) -> Seq<char> {
        self.repository@
    }

    pub closed spec fn spec_base_url(&self) -> Seq<char> {
        self.base_url@
    }

    pub closed spec fn spec_has_token(&self) -> bool {
        self.api_token is Some
    }

    /// A checker of `repository` (`owner/repo`) at `https://api.github.com`.
    pub fn new(repository: String, api_token: Option<String>) -> (r: Self)
        ensures
            r.spec_repository() == repository@,
            r.spec_base_url() == "https://api.github.com"@,
            r.spec_has_token() == (api_token is Some),
    {
        GitHubReleaseChecker { repository, api_token, base_url: string_of("https://api.github.com") }
    }

    /// The same checker against another API address.
    pub fn with_base_url(self, base_url: String) -> (r: Self)
        ensures
            r.spec_repository() == self.spec_repository(),
            r.spec_base_url() == base_url@,
            r.spec_has_token() == self.spec_has_token(),
    {
        GitHubReleaseChecker { base_url, ..self }
    }

    pub fn repository(&self) -> (r: &str)
        ensures
            r@ == self.spec_repository(),
    {
        self.repository.as_str()
    }

    /// Whether requests carry an API token.
    pub fn has_token(&self) -> (r: bool)
        ensures
            r == self.spec_has_token(),
    {
        self.api_token.is_some()
    }

    /// The token requests carry, if any.
    pub fn api_token(&self) -> (r: Option<&String>)
        ensures
            r is Some == self.spec_has_token(),
    {
        self.api_token.as_ref()
    }

    /// `<base>/repos/<repository>/releases/latest`.
    pub fn latest_release_url(&self) -> (r: String)
        ensures
            r@ == self.spec_base_url() + "/repos/"@ + self.spec_repository() + "/releases/latest"@,
    {
        let a = join3(self.base_url.as_str(), "/repos/", self.repository.as_str());
        join_str(a.as_str(), "/releases/latest")
    }
}

/// The latest release as an update offer: drafts are refused.
pub fn accept_latest_release(release: GitHubRelease) -> (r: Result<GitHubRelease, Error>)
    ensures
        match r {
            Ok(x) => x == release && !release.draft,
            Err(e) => release.draft && e is External && e.spec_detail()
                == "Latest release is a draft"@,
        },
{
    if release.draft {
        Err(Error::External(string_of("Latest release is a draft")))
    } else {
        Ok(release)
    }
}

// ---------------------------------------------------------------------------
// Rate limit
// ---------------------------------------------------------------------------

/// How `DateTime::from_timestamp(reset, 0)` prints with `{:?}` (the
/// optional instant, `None` when out of range).
pub uninterp spec fn reset_instant_debug_text(reset: int) -> Seq<char>;

/// `chrono::DateTime::from_timestamp` at `reset` seconds, printed with
/// `{:?}`; the claim is only that the text is the one
/// `reset_instant_debug_text` names.
#[verifier::external_body]
fn reset_instant_text(reset: i64) -> (r: String)
    ensures
        r@ == reset_instant_debug_text(reset as int),
{
    format!("{:?}", chrono::DateTime::from_timestamp(reset, 0))
}

/// The rate-limit verdict on a response's `x-ratelimit-remaining` and
/// `x-ratelimit-reset` headers: refused when the remaining count reads as
/// zero, with the reset time when that reads as a number.
pub open spec fn rate_limit_refusal(remaining: Option<Seq<char>>, reset: Option<Seq<char>>) -> Option<
    Seq<char>,
> {
    match remaining {
        Some(t) => if parse_unsigned(t, u32::MAX as nat) == Some(0nat) {
            match reset {
                Some(r) => match parse_i64_seq(r) {
                    Some(at) => Some(
                        "GitHub API rate limit exceeded. Resets at: "@ + reset_instant_debug_text(
                            at,
                        ),
                    ),
                    None => Some("GitHub API rate limit exceeded"@),
                },
                None => Some("GitHub API rate limit exceeded"@),
            }
        } else {
            None
        },
        None => None,
    }
}

/// Refuses a response when GitHub's rate limit is exhausted (see
/// `rate_limit_refusal`).
pub fn handle_rate_limit(remaining: Option<&str>, reset: Option<&str>) -> (r: Result<(), Error>)
    ensures
        match r {
            Ok(()) => rate_limit_refusal(opt_str(remaining), opt_str(reset)) is None,
            Err(e) => e is External && rate_limit_refusal(opt_str(remaining), opt_str(reset))
                == Some(e.spec_detail()),
        },
{
    let count = match remaining {
        Some(t) => {
            let c = str_chars(t);
            parse_u32_chars(c.as_slice())
        },
        None => None,
    };
    match count {
        Some(0) => {
            let at = match reset {
                Some(t) => {
                    let c = str_chars(t);
                    parse_i64_chars(c.as_slice())
                },
                None => None,
            };
            match at {
                Some(at) => {
                    let when = reset_instant_text(at);
                    Err(
                        Error::External(
                            join_str("GitHub API rate limit exceeded. Resets at: ", when.as_str()),
                        ),
                    )
                },
                None => Err(Error::External(string_of("GitHub API rate limit exceeded"))),
            }
        },
        _ => Ok(()),
    }
}

/// The text of an optional string slice.
pub open spec fn opt_str(o: Option<&str>) -> Option<Seq<char>> {
    match o {
        Some(s) => Some(s@),
        None => None,
    }
}

// ---------------------------------------------------------------------------
// Versions
// ---------------------------------------------------------------------------

/// `s` without its leading `v` characters.
pub open spec fn without_v(s: Seq<char>) -> Seq<char>
    decreases s.len(),
{
    if s.len() > 0 && s[0] == 'v' {
        without_v(s.drop_first())
    } else {
        s
    }
}

/// The part of a version before its pre-release (`-…`) or build (`+…`)
/// suffix.
pub open spec fn version_core(w: Seq<char>) -> Seq<char>
    decreases w.len(),
{
    if w.len() == 0 || w[0] == '-' || w[0] == '+' {
        Seq::empty()
    } else {
        seq![w[0]] + version_core(w.drop_first())
    }
}

/// Whether a version carries a pre-release suffix: a `-` before any `+`.
pub open spec fn has_prerelease(w: Seq<char>) -> bool
    decreases w.len(),
{
    if w.len() == 0 || w[0] == '+' {
        false
    } else if w[0] == '-' {
        true
    } else {
        has_prerelease(w.drop_first())
    }
}

/// The numbers of a version: without its leading `v`s and its suffix,
/// split at `.`, each part read by its leading digits (0 when it has none).
pub open spec fn version_numbers(v: Seq<char>) -> Seq<nat> {
    split_seq(version_core(without_v(v)), '.').map_values(
        |p: Seq<char>| digits_value(leading_digits(p)),
    )
}

/// Component `k` of a version's numbers; a missing component is 0.
pub open spec fn number_at(s: Seq<nat>, k: int) -> nat {
    if 0 <= k < s.len() {
        s[k]
    } else {
        0
    }
}

/// Whether numbers `a` come after numbers `b`, compared component by
/// component from component `k` on, missing components being 0.
pub open spec fn numbers_after_from(a: Seq<nat>, b: Seq<nat>, k: int) -> bool
    decreases a.len() + b.len() - k,
{
    if k < 0 || (k >= a.len() && k >= b.len()) {
        false
    } else if number_at(a, k) != number_at(b, k) {
        number_at(a, k) > number_at(b, k)
    } else {
        numbers_after_from(a, b, k + 1)
    }
}

/// Whether a release tag names a newer version than `current_version`, in
/// the order of semantic versions: the numbers compared component by
/// component, and of two versions with the same numbers, the one without
/// a pre-release suffix is the newer.
pub open spec fn newer_version(new_version: Seq<char>, current_version: Seq<char>) -> bool {
    let a = version_numbers(new_version);
    let b = version_numbers(current_version);
    ||| numbers_after_from(a, b, 0)
    ||| (!numbers_after_from(b, a, 0) && !has_prerelease(without_v(new_version))
        && has_prerelease(without_v(current_version)))
}

fn strip_v(s: &[char]) -> (r: usize)
    ensures
        r <= s@.len(),
        s@.skip(r as int) == without_v(s@),
{
    let mut i: usize = 0;
    assert(s@.skip(0) =~= s@);
    while i < s.len() && s[i] == 'v'
        invariant
            i <= s@.len(),
            without_v(s@.skip(i as int)) == without_v(s@),
        decreases s@.len() - i,
    {
        assert(s@.skip(i as int).drop_first() =~= s@.skip(i + 1));
        i += 1;
    }
    proof {
        if i < s@.len() {
            assert(s@.skip(i as int)[0] == s@[i as int]);
        }
    }
    i
}

/// The leading digits of each component of a version, and whether it is a
/// pre-release.
fn version_parts(s: &[char]) -> (r: (Vec<Vec<char>>, bool))
    ensures
        r.0@.len() == version_numbers(s@).len(),
        forall|k: int|
            0 <= k < r.0@.len() ==> all_digits(#[trigger] r.0@[k]@) && digits_value(r.0@[k]@)
                == version_numbers(s@)[k],
        r.1 == has_prerelease(without_v(s@)),
{
    let i = strip_v(s);
    let ghost w = s@.skip(i as int);
    let mut e: usize = i;
    assert(s@.subrange(i as int, i as int) + version_core(s@.skip(i as int)) =~= version_core(w));
    while e < s.len() && s[e] != '-' && s[e] != '+'
        invariant
            i <= e <= s@.len(),
            w == s@.skip(i as int),
            version_core(w) == s@.subrange(i as int, e as int) + version_core(s@.skip(e as int)),
            has_prerelease(w) == has_prerelease(s@.skip(e as int)),
        decreases s@.len() - e,
    {
        proof {
            let t = s@.skip(e as int);
            assert(t[0] == s@[e as int]);
            assert(t.drop_first() =~= s@.skip(e + 1));
            assert(s@.subrange(i as int, e as int) + (seq![s@[e as int]] + version_core(
                s@.skip(e + 1),
            )) =~= s@.subrange(i as int, e + 1) + version_core(s@.skip(e + 1)));
        }
        e += 1;
    }
    let pre = e < s.len() && s[e] == '-';
    proof {
        let t = s@.skip(e as int);
        if e < s@.len() {
            assert(t[0] == s@[e as int]);
        }
        assert(version_core(t) =~= Seq::<char>::empty());
        assert(version_core(w) =~= s@.subrange(i as int, e as int));
    }
    let core = sub_chars(s, i, e);
    let parts = split_chars(core.as_slice(), '.');
    let ghost ps = split_seq(version_core(w), '.');
    assert(views(parts@) == ps);
    let mut out: Vec<Vec<char>> = Vec::new();
    let mut k: usize = 0;
    while k < parts.len()
        invariant
            k <= parts@.len(),
            views(parts@) == ps,
            ps == split_seq(version_core(without_v(s@)), '.'),
            out@.len() == k,
            forall|m: int|
                0 <= m < k ==> all_digits(#[trigger] out@[m]@) && out@[m]@ == leading_digits(ps[m]),
        decreases parts@.len() - k,
    {
        assert(parts@[k as int]@ == ps[k as int]);
        let d = leading_digit_chars(parts[k].as_slice());
        out.push(d);
        k += 1;
    }
    proof {
        assert forall|m: int| 0 <= m < out@.len() implies all_digits(#[trigger] out@[m]@)
            && digits_value(out@[m]@) == version_numbers(s@)[m] by {
            assert(out@[m]@ == leading_digits(ps[m]));
        }
    }
    (out, pre)
}

/// Compares the numbers of two versions: positive when the first comes
/// after, negative when the second does, zero when they are the same.
fn compare_numbers(a: &Vec<Vec<char>>, b: &Vec<Vec<char>>, na: Ghost<Seq<nat>>, nb: Ghost<Seq<nat>>) -> (r: i8)
    requires
        a@.len() == na@.len(),
        b@.len() == nb@.len(),
        forall|k: int| 0 <= k < a@.len() ==> all_digits(#[trigger] a@[k]@) && digits_value(a@[k]@) == na@[k],
        forall|k: int| 0 <= k < b@.len() ==> all_digits(#[trigger] b@[k]@) && digits_value(b@[k]@) == nb@[k],
    ensures
        (r > 0) == numbers_after_from(na@, nb@, 0),
        (r < 0) == numbers_after_from(nb@, na@, 0),
{
    let empty: Vec<char> = Vec::new();
    let mut k: usize = 0;
    assert(digits_value(empty@) == 0);
    assert(all_digits(empty@));
    while k < a.len() || k < b.len()
        invariant
            a@.len() == na@.len(),
            b@.len() == nb@.len(),
            forall|m: int| 0 <= m < a@.len() ==> all_digits(#[trigger] a@[m]@) && digits_value(a@[m]@) == na@[m],
            forall|m: int| 0 <= m < b@.len() ==> all_digits(#[trigger] b@[m]@) && digits_value(b@[m]@) == nb@[m],
            empty@.len() == 0,
            numbers_after_from(na@, nb@, 0) == numbers_after_from(na@, nb@, k as int),
            numbers_after_from(nb@, na@, 0) == numbers_after_from(nb@, na@, k as int),
        decreases a@.len() + b@.len() - k,
    {
        let x: &Vec<char> = if k < a.len() {
            &a[k]
        } else {
            &empty
        };
        let y: &Vec<char> = if k < b.len() {
            &b[k]
        } else {
            &empty
        };
        assert(all_digits(x@) && digits_value(x@) == number_at(na@, k as int));
        assert(all_digits(y@) && digits_value(y@) == number_at(nb@, k as int));
        let c = compare_decimal(x.as_slice(), y.as_slice());
        if c != 0 {
            return c;
        }
        k += 1;
    }
    0
}

/// Whether `new_version` is newer than `current_version` (see
/// `newer_version`).
pub fn is_newer_version(new_version: &str, current_version: &str) -> (r: bool)
    ensures
        r == newer_version(new_version@, current_version@),
{
    let a = str_chars(new_version);
    let b = str_chars(current_version);
    let (pa, pre_a) = version_parts(a.as_slice());
    let (pb, pre_b) = version_parts(b.as_slice());
    let c = compare_numbers(
        &pa,
        &pb,
        Ghost(version_numbers(new_version@)),
        Ghost(version_numbers(current_version@)),
    );
    c > 0 || (c == 0 && !pre_a && pre_b)
}

proof fn lemma_numbers_after_strict(a: Seq<nat>, b: Seq<nat>, k: int)
    ensures
        !(numbers_after_from(a, b, k) && numbers_after_from(b, a, k)),
        !numbers_after_from(a, a, k),
    decreases a.len() + b.len() - k,
{
    if k >= 0 && (k < a.len() || k < b.len()) {
        lemma_numbers_after_strict(a, b, k + 1);
    }
}

/// "Newer" is a strict order: no version is newer than itself, and of two
/// versions at most one is newer than the other.
pub proof fn newer_version_is_strict(a: Seq<char>, b: Seq<char>)
    ensures
        !newer_version(a, a),
        !(newer_version(a, b) && newer_version(b, a)),
{
    lemma_numbers_after_strict(version_numbers(a), version_numbers(b), 0);
    lemma_numbers_after_strict(version_numbers(b), version_numbers(a), 0);
}

/// Whether release notes mark a security release: their lowercase form
/// mentions `security`, `vulnerability` or `cve-`.
pub open spec fn security_notes(body: Option<String>) -> bool {
    match body {
        Some(b) => {
            let l = unicode_lowercase(b@);
            seq_contains(l, "security"@) || seq_contains(l, "vulnerability"@) || seq_contains(
                l,
                "cve-"@,
            )
        },
        None => false,
    }
}

/// Whether a release is a security release (see `security_notes`).
pub fn is_security_release(release: &GitHubRelease) -> (r: bool)
    ensures
        r == security_notes(release.body),
{
    match &release.body {
        Some(b) => {
            let lower = to_lowercase(b.as_str());
            let l = str_chars(lower.as_str());
            let w1 = str_chars("security");
            let w2 = str_chars("vulnerability");
            let w3 = str_chars("cve-");
            contains_chars(l.as_slice(), w1.as_slice()) || contains_chars(
                l.as_slice(),
                w2.as_slice(),
            ) || contains_chars(l.as_slice(), w3.as_slice())
        },
        None => false,
    }
}

// ---------------------------------------------------------------------------
// Choosing the assets of an update
// ---------------------------------------------------------------------------

/// Index of the first asset whose name contains `binary_name`.
pub open spec fn binary_asset_index(assets: Seq<GitHubAsset>, binary_name: Seq<char>) -> Option<int> {
    if exists|i: int| 0 <= i < assets.len() && seq_contains(#[trigger] assets[i].name@, binary_name) {
        Some(
            choose|i: int|
                0 <= i < assets.len() && seq_contains(#[trigger] assets[i].name@, binary_name) && (
                forall|k: int| 0 <= k < i ==> !seq_contains(#[trigger] assets[k].name@, binary_name)),
        )
    } else {
        None
    }
}

/// Index of the first asset named `name`.
pub open spec fn asset_named(assets: Seq<GitHubAsset>, name: Seq<char>) -> Option<int> {
    if exists|i: int| 0 <= i < assets.len() && #[trigger] assets[i].name@ == name {
        Some(
            choose|i: int|
                0 <= i < assets.len() && #[trigger] assets[i].name@ == name && (forall|k: int|
                    0 <= k < i ==> #[trigger] assets[k].name@ != name),
        )
    } else {
        None
    }
}

fn find_binary_asset(assets: &Vec<GitHubAsset>, binary_name: &str) -> (r: Option<usize>)
    ensures
        match r {
            Some(i) => i < assets@.len() && seq_contains(assets@[i as int].name@, binary_name@) && (
            forall|k: int| 0 <= k < i ==> !seq_contains(#[trigger] assets@[k].name@, binary_name@)),
            None => forall|k: int|
                0 <= k < assets@.len() ==> !seq_contains(#[trigger] assets@[k].name@, binary_name@),
        },
{
    let needle = str_chars(binary_name);
    let mut i: usize = 0;
    while i < assets.len()
        invariant
            i <= assets@.len(),
            needle@ == binary_name@,
            forall|k: int| 0 <= k < i ==> !seq_contains(#[trigger] assets@[k].name@, binary_name@),
        decreases assets@.len() - i,
    {
        let name = str_chars(assets[i].name.as_str());
        if contains_chars(name.as_slice(), needle.as_slice()) {
            return Some(i);
        }
        i += 1;
    }
    None
}

fn find_asset_named(assets: &Vec<GitHubAsset>, name: &str) -> (r: Option<usize>)
    ensures
        match r {
            Some(i) => i < assets@.len() && assets@[i as int].name@ == name@ && (forall|k: int|
                0 <= k < i ==> #[trigger] assets@[k].name@ != name@),
            None => forall|k: int| 0 <= k < assets@.len() ==> #[trigger] assets@[k].name@ != name@,
        },
{
    let mut i: usize = 0;
    while i < assets.len()
        invariant
            i <= assets@.len(),
            forall|k: int| 0 <= k < i ==> #[trigger] assets@[k].name@ != name@,
        decreases assets@.len() - i,
    {
        if str_is(assets[i].name.as_str(), name) {
            return Some(i);
        }
        i += 1;
    }
    None
}

/// The assets an update needs from a release: `None` when the release is
/// not newer than `current_version`; otherwise the first asset whose name
/// contains the binary's name and the asset named like it with `.sig`
/// after, or the error for the one that is missing.
pub fn select_update_assets(release: &GitHubRelease, current_version: &str, binary_name: &str) -> (r:
    Result<Option<(usize, usize)>, Error>)
    ensures
        !newer_version(release.tag_name@, current_version@) ==> r == Ok::<
            Option<(usize, usize)>,
            Error,
        >(None),
        newer_version(release.tag_name@, current_version@) ==> match r {
            Ok(Some((a, s))) => binary_asset_index(release.assets@, binary_name@) == Some(a as int)
                && asset_named(release.assets@, release.assets@[a as int].name@ + ".sig"@) == Some(
                s as int,
            ),
            Ok(None) => false,
            Err(e) => e is NotFound && match binary_asset_index(release.assets@, binary_name@) {
                None => e.spec_detail() == "Binary asset '"@ + binary_name@
                    + "' not found in release"@,
                Some(a) => asset_named(release.assets@, release.assets@[a].name@ + ".sig"@) is None
                    && e.spec_detail() == "Signature file not found"@,
            },
        },
{
    if !is_newer_version(release.tag_name.as_str(), current_version) {
        return Ok(None);
    }
    let a = match find_binary_asset(&release.assets, binary_name) {
        Some(a) => a,
        None => {
            proof {
                assert(!(exists|i: int|
                    0 <= i < release.assets@.len() && seq_contains(
                        #[trigger] release.assets@[i].name@,
                        binary_name@,
                    )));
            }
            return Err(
                Error::NotFound(join3("Binary asset '", binary_name, "' not found in release")),
            );
        },
    };
    proof {
        let p = |i: int|
            0 <= i < release.assets@.len() && seq_contains(release.assets@[i].name@, binary_name@)
                && (forall|k: int|
                0 <= k < i ==> !seq_contains(#[trigger] release.assets@[k].name@, binary_name@));
        assert(p(a as int));
        let c = binary_asset_index(release.assets@, binary_name@)->Some_0;
        assert(p(c));
        assert(c == a) by {
            if c < a {
                assert(seq_contains(release.assets@[c].name@, binary_name@));
            }
            if a < c {
                assert(!seq_contains(release.assets@[a as int].name@, binary_name@));
            }
        }
    }
    let sig_name = join_str(release.assets[a].name.as_str(), ".sig");
    let s = match find_asset_named(&release.assets, sig_name.as_str()) {
        Some(s) => s,
        None => {
            proof {
                assert(!(exists|i: int|
                    0 <= i < release.assets@.len() && #[trigger] release.assets@[i].name@
                        == sig_name@));
            }
            return Err(Error::NotFound(string_of("Signature file not found")));
        },
    };
    proof {
        let c = asset_named(release.assets@, sig_name@)->Some_0;
        assert(c == s) by {
            if c < s {
                assert(release.assets@[c].name@ == sig_name@);
            }
            if s < c {
                assert(release.assets@[s as int].name@ == sig_name@);
            }
        }
    }
    Ok(Some((a, s)))
}

/// What `String::from_utf8` reads from bytes: the text they encode in
/// UTF-8, or nothing when they are not UTF-8.
pub uninterp spec fn utf8_text(bytes: Seq<u8>) -> Option<Seq<char>>;

/// The text (`Display`) of the error `String::from_utf8` gives for bytes
/// that are not UTF-8.
pub uninterp spec fn utf8_error_text(bytes: Seq<u8>) -> Seq<char>;

/// `String::from_utf8`: the text the bytes encode, or the text of the
/// error when they are not UTF-8.
#[verifier::external_body]
fn decode_utf8(bytes: Vec<u8>) -> (r: Result<String, String>)
    ensures
        match r {
            Ok(s) => utf8_text(bytes@) == Some(s@),
            Err(e) => utf8_text(bytes@) is None && e@ == utf8_error_text(bytes@),
        },
{
    match String::from_utf8(bytes) {
        Ok(s) => Ok(s),
        Err(e) => Err(e.to_string()),
    }
}

/// The offer of a release whose binary is asset `asset` and whose
/// signature file held `signature_bytes`: the version is the tag, the
/// notes the body (empty when there is none), the signature the file's
/// text trimmed of whitespace, the publication time the release's (now
/// when it has none), and the security flag from the notes.
pub fn update_info_from_release(release: GitHubRelease, asset: usize, signature_bytes: Vec<u8>) -> (r:
    Result<UpdateInfo, Error>)
    requires
        asset < release.assets@.len(),
    ensures
        match utf8_text(signature_bytes@) {
            None => r matches Err(e) && e is Validation && e.spec_detail()
                == "Invalid signature format: "@ + utf8_error_text(signature_bytes@),
            Some(text) => r matches Ok(info) && info.version@ == release.tag_name@
                && info.notes@ == match release.body {
                Some(b) => b@,
                None => Seq::empty(),
            } && info.download_url@ == release.assets@[asset as int].browser_download_url@
                && info.signature@ == trim_seq(text) && info.is_security == security_notes(
                release.body,
            ) && (release.published_at matches Some(t) ==> info.published_at == t),
        },
{
    let text = match decode_utf8(signature_bytes) {
        Ok(t) => t,
        Err(e) => return Err(
            Error::Validation(join_str("Invalid signature format: ", e.as_str())),
        ),
    };
    let chars = str_chars(text.as_str());
    let trimmed = trim_chars(chars.as_slice());
    let signature = string_from_chars(trimmed.as_slice());
    let is_security = is_security_release(&release);
    let url = release.assets[asset].browser_download_url.clone();
    let published = match release.published_at {
        Some(t) => t,
        None => utc_now(),
    };
    let notes = match release.body {
        Some(b) => b,
        None => String::new(),
    };
    let info = UpdateInfo::new(release.tag_name, notes, url, signature, published);
    Ok(info.with_security_flag(is_security))
}

} // verus!
