//! The rules of static file serving: which paths are static files, their
//! entity tags, and the caching and security headers sent with them.
use vstd::prelude::*;

use crate::crypto::{hex_encode, hex_encode_seq, os_random_bytes, sha256, sha256_digest};
use crate::text::{
    contains_chars, decimal, join3, join_str, push_decimal, seq_contains, seq_starts_with,
    starts_with, str_chars, string_of, with_number,
};

verus! {

/// Static file serving settings.
#[derive(Debug)]
pub struct StaticConfig {
    /// Directory of the static files.
    pub static_dir: String,
    /// `max-age` of the cache header, in seconds.
    pub max_age: u32,
    /// Whether to send a content security policy.
    pub enable_csp: bool,
    /// Nonce that inline scripts must carry.
    pub csp_nonce: Option<String>,
}

impl Default for StaticConfig {
    /// Files from `./static`, cached for a day, with a policy and no nonce.
    fn default() -> (r: Self)
        ensures
            r.static_dir@ == "./static"@,
            r.max_age == 86400,
            r.enable_csp,
            r.csp_nonce is None,
    {
        StaticConfig {
            static_dir: string_of("./static"),
            max_age: 86400,
            enable_csp: true,
            csp_nonce: None,
        }
    }
}

/// A fresh nonce: sixteen random bytes in hex.
pub fn generate_csp_nonce() -> (r: String)
    ensures
        r@.len() == 32,
        exists|b: Seq<u8>| b.len() == 16 && #[trigger] hex_encode_seq(b) == r@,
{
    let bytes = os_random_bytes(16);
    let r = hex_encode(bytes.as_slice());
    assert(hex_encode_seq(bytes@) == r@);
    r
}

/// Whether a request path is left to other routes (`api…` and `docs…`).
pub open spec fn reserved_path(filename: Seq<char>) -> bool {
    seq_starts_with(filename, "api"@) || seq_starts_with(filename, "docs"@)
}

/// Whether a request path is left to other routes (see `reserved_path`).
pub fn is_reserved_path(filename: &str) -> (r: bool)
    ensures
        r == reserved_path(filename@),
{
    let f = str_chars(filename);
    let a = str_chars("api");
    let d = str_chars("docs");
    starts_with(f.as_slice(), a.as_slice()) || starts_with(f.as_slice(), d.as_slice())
}

/// The bytes of a text of ASCII characters.
pub open spec fn ascii_bytes(s: Seq<char>) -> Seq<u8> {
    s.map_values(|c: char| c as u8)
}

/// The tag of a file: the first eight bytes, in hex, of the SHA-256
/// digest of `<modified seconds>-<size>`.
pub open spec fn file_tag(mtime_secs: u64, size: u64) -> Seq<char> {
    hex_encode_seq(
        sha256(ascii_bytes(decimal(mtime_secs as nat) + "-"@ + decimal(size as nat))).take(8),
    )
}

/// The weak entity tag of a file from its modification time (seconds since
/// the Unix epoch) and size, as sent: `W/"<tag>"` (see `file_tag`).
pub fn file_etag(mtime_secs: u64, size: u64) -> (r: String)
    ensures
        r@ == "W/\""@ + file_tag(mtime_secs, size) + "\""@,
{
    let mut text: Vec<char> = Vec::new();
    push_decimal(&mut text, mtime_secs);
    text.push('-');
    push_decimal(&mut text, size);
    proof {
        reveal_strlit("-");
        assert(text@ =~= decimal(mtime_secs as nat) + "-"@ + decimal(size as nat));
    }
    let mut bytes: Vec<u8> = Vec::new();
    let mut i: usize = 0;
    while i < text.len()
        invariant
            i <= text@.len(),
            bytes@ == ascii_bytes(text@.take(i as int)),
        decreases text@.len() - i,
    {
        bytes.push(text[i] as u8);
        i += 1;
        assert(ascii_bytes(text@.take(i as int)) =~= ascii_bytes(text@.take((i - 1) as int)).push(
            text@[i - 1] as u8,
        ));
    }
    assert(text@.take(text@.len() as int) =~= text@);
    let digest = sha256_digest(bytes.as_slice());
    let mut first: Vec<u8> = Vec::new();
    let mut j: usize = 0;
    while j < 8
        invariant
            j <= 8,
            digest@.len() == 32,
            first@ == digest@.take(j as int),
        decreases 8 - j,
    {
        first.push(digest[j]);
        j += 1;
        assert(digest@.take(j as int) =~= digest@.take((j - 1) as int).push(digest@[j - 1]));
    }
    let tag = hex_encode(first.as_slice());
    join3("W/\"", tag.as_str(), "\"")
}

/// Whether a conditional request may be answered "not modified": its
/// `If-None-Match` contains the file's tag as sent.
pub fn etag_matches(if_none_match: Option<&str>, etag: &str) -> (r: bool)
    ensures
        r == (if_none_match matches Some(h) && seq_contains(h@, etag@)),
{
    match if_none_match {
        Some(h) => {
            let hc = str_chars(h);
            let ec = str_chars(etag);
            contains_chars(hc.as_slice(), ec.as_slice())
        },
        None => false,
    }
}

/// The `Cache-Control` value: `public, max-age=<seconds>`.
pub fn cache_control(config: &StaticConfig) -> (r: String)
    ensures
        r@ == "public, max-age="@ + decimal(config.max_age as nat),
{
    with_number("public, max-age=", config.max_age as u64)
}

/// The content security policy sent with static files, if enabled: scripts
/// only from the site (and with the nonce, when one is set), inline styles
/// allowed, images also from data and blob URLs, connections also over web
/// sockets, and no framing.
pub open spec fn csp_text(config: StaticConfig) -> Option<Seq<char>> {
    if !config.enable_csp {
        None
    } else {
        match config.csp_nonce {
            Some(n) => Some(
                "default-src 'self'; script-src 'self' 'nonce-"@ + n@
                    + "'; style-src 'self' 'unsafe-inline'; img-src 'self' data: blob:; font-src 'self'; connect-src 'self' ws: wss:; frame-ancestors 'none';"@,
            ),
            None => Some(
                "default-src 'self'; script-src 'self'; style-src 'self' 'unsafe-inline'; img-src 'self' data: blob:; font-src 'self'; connect-src 'self' ws: wss:; frame-ancestors 'none';"@,
            ),
        }
    }
}

/// The content security policy sent with static files (see `csp_text`).
pub fn content_security_policy(config: &StaticConfig) -> (r: Option<String>)
    ensures
        match r {
            Some(s) => csp_text(*config) == Some(s@),
            None => csp_text(*config) is None,
        },
{
    if !config.enable_csp {
        return None;
    }
    match &config.csp_nonce {
        Some(n) => Some(
            join3(
                "default-src 'self'; script-src 'self' 'nonce-",
                n.as_str(),
                "'; style-src 'self' 'unsafe-inline'; img-src 'self' data: blob:; font-src 'self'; connect-src 'self' ws: wss:; frame-ancestors 'none';",
            ),
        ),
        None => Some(
            string_of(
                "default-src 'self'; script-src 'self'; style-src 'self' 'unsafe-inline'; img-src 'self' data: blob:; font-src 'self'; connect-src 'self' ws: wss:; frame-ancestors 'none';",
            ),
        ),
    }
}

/// What `mime_guess` names as the content type of a path: the first type
/// its table gives for the path's extension, else
/// `application/octet-stream`.
pub uninterp spec fn guessed_mime(path: Seq<char>) -> Seq<char>;

/// `mime_guess::from_path(path).first_or_octet_stream()`, as text.
#[verifier::external_body]
fn mime_for_path(path: &str) -> (r: String)
    ensures
        r@ == guessed_mime(path@),
{
    mime_guess::from_path(path).first_or_octet_stream().to_string()
}

/// The file a request for `filename` is answered with: none for paths left
/// to other routes; the file itself when it exists as a file; else
/// `index.html`, the entry of the single-page app.
pub fn static_target(filename: &str, is_file: bool) -> (r: Option<String>)
    ensures
        reserved_path(filename@) ==> r is None,
        !reserved_path(filename@) ==> (r matches Some(t) && t@ == if is_file {
            filename@
        } else {
            "index.html"@
        }),
{
    if is_reserved_path(filename) {
        None
    } else if is_file {
        Some(string_of(filename))
    } else {
        Some(string_of("index.html"))
    }
}

/// How a static file is answered.
#[derive(Debug)]
pub enum StaticReply {
    /// `304 Not Modified` with the file's tag.
    NotModified { etag: String },
    /// The file, with its tag, caching header, security policy (when
    /// enabled) and content type.
    Serve { etag: String, cache_control: String, csp: Option<String>, content_type: String },
}

/// The answer for the file at `file_path`, modified at `mtime_secs` and
/// `size` bytes long: "not modified" when the request's `If-None-Match`
/// contains the file's tag, else the file with its headers.
pub fn static_reply(
    file_path: &str,
    mtime_secs: u64,
    size: u64,
    if_none_match: Option<&str>,
    config: &StaticConfig,
) -> (r: StaticReply)
    ensures
        ({
            let tag = "W/\""@ + file_tag(mtime_secs, size) + "\""@;
            if if_none_match matches Some(h) && seq_contains(h@, tag) {
                r matches StaticReply::NotModified { etag } && etag@ == tag
            } else {
                r matches StaticReply::Serve { etag, cache_control, csp, content_type } && etag@
                    == tag && cache_control@ == "public, max-age="@ + decimal(config.max_age as nat)
                    && match csp {
                    Some(c) => csp_text(*config) == Some(c@),
                    None => csp_text(*config) is None,
                } && content_type@ == guessed_mime(file_path@)
            }
        }),
{
    let etag = file_etag(mtime_secs, size);
    if etag_matches(if_none_match, etag.as_str()) {
        return StaticReply::NotModified { etag };
    }
    StaticReply::Serve {
        etag,
        cache_control: cache_control(config),
        csp: content_security_policy(config),
        content_type: mime_for_path(file_path),
    }
}

/// The security headers added to every response: no framing, no content
/// sniffing, the browser's XSS filter in blocking mode, referrers only to
/// the same origin in full, and HTTPS for a year including subdomains.
pub fn security_headers() -> (r: Vec<(&'static str, &'static str)>)
    ensures
        r@.len() == 5,
        r@[0].0@ == "X-Frame-Options"@ && r@[0].1@ == "DENY"@,
        r@[1].0@ == "X-Content-Type-Options"@ && r@[1].1@ == "nosniff"@,
        r@[2].0@ == "X-XSS-Protection"@ && r@[2].1@ == "1; mode=block"@,
        r@[3].0@ == "Referrer-Policy"@ && r@[3].1@ == "strict-origin-when-cross-origin"@,
        r@[4].0@ == "Strict-Transport-Security"@ && r@[4].1@ == "max-age=31536000; includeSubDomains"@,
{
    let mut v: Vec<(&'static str, &'static str)> = Vec::new();
    v.push(("X-Frame-Options", "DENY"));
    v.push(("X-Content-Type-Options", "nosniff"));
    v.push(("X-XSS-Protection", "1; mode=block"));
    v.push(("Referrer-Policy", "strict-origin-when-cross-origin"));
    v.push(("Strict-Transport-Security", "max-age=31536000; includeSubDomains"));
    v
}

} // verus!
