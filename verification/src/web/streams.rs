//! The rules of the stream API: field validation of stream requests and
//! configurations, pagination, ownership and entity tags.
use vstd::prelude::*;

use crate::text::{join3, str_is, string_of};
use crate::web::stream_config::{
    FfmpegTemplate, FileTemplate, RtspTemplate, StreamConfig, TemplateKind, WebsiteTemplate,
    YtTemplate,
};

use validator::ValidateUrl;

verus! {

/// A stream as the store keeps it.
#[derive(Debug)]
pub struct StoredStream {
    pub id: String,
    pub user_id: String,
    pub name: String,
    pub description: Option<String>,
    /// The configuration as JSON text.
    pub config: String,
    pub is_default: bool,
    pub execution_status: Option<String>,
    pub last_executed_at: Option<String>,
    pub last_error_message: Option<String>,
    pub created_at: String,
    pub updated_at: String,
}

/// The entity tag of a stream: its update time in double quotes.
pub fn generate_etag(stream: &StoredStream) -> (r: String)
    ensures
        r@ == "\""@ + stream.updated_at@ + "\""@,
{
    join3("\"", stream.updated_at.as_str(), "\"")
}

/// Whether a conditional GET may be answered "not modified": the client's
/// `If-None-Match` is exactly the current tag.
pub fn not_modified(if_none_match: Option<&str>, etag: &str) -> (r: bool)
    ensures
        r == (if_none_match matches Some(t) && t@ == etag@),
{
    match if_none_match {
        Some(t) => str_is(t, etag),
        None => false,
    }
}

/// Whether an update must be refused for a stale tag: an `If-Match` is
/// given and differs from the current tag.
pub fn precondition_failed(if_match: Option<&str>, current_etag: &str) -> (r: bool)
    ensures
        r == (if_match matches Some(t) && t@ != current_etag@),
{
    match if_match {
        Some(t) => !str_is(t, current_etag),
        None => false,
    }
}

/// Whether a user may see or change a stream: only its owner may.
pub fn may_access(stream: &StoredStream, user_id: &str) -> (r: bool)
    ensures
        r == (stream.user_id@ == user_id@),
{
    str_is(stream.user_id.as_str(), user_id)
}

// ---------------------------------------------------------------------------
// Listing
// ---------------------------------------------------------------------------

/// The page size when a listing names none.
pub fn default_page_size() -> (r: u32)
    ensures
        r == 20,
{
    20
}

/// The largest page a listing may ask for.
pub const MAX_PAGE_SIZE: u32 = 100;

/// Query of a stream listing.
#[derive(Debug)]
pub struct ListStreamsQuery {
    /// Page number, from 0.
    pub page: u32,
    /// Items per page (at most 100).
    pub page_size: u32,
    /// Search by name.
    pub search: Option<String>,
    /// Filter by user (administrators only).
    pub user_id: Option<String>,
}

impl ListStreamsQuery {
    /// A query for the first page at the default size.
    pub fn first_page() -> (r: Self)
        ensures
            r.page == 0,
            r.page_size == 20,
            r.search is None,
            r.user_id is None,
    {
        ListStreamsQuery { page: 0, page_size: default_page_size(), search: None, user_id: None }
    }

    /// The rows a page covers, as `(offset, limit)`, or the refusal of a page
    /// size over 100.
    pub fn window(&self) -> (r: Result<(i64, i64), String>)
        ensures
            match r {
                Ok((offset, limit)) => self.page_size <= MAX_PAGE_SIZE && offset == self.page
                    * self.page_size && limit == self.page_size,
                Err(m) => self.page_size > MAX_PAGE_SIZE && m@ == "page_size cannot exceed 100"@,
            },
    {
        if self.page_size > MAX_PAGE_SIZE {
            return Err(string_of("page_size cannot exceed 100"));
        }
        let page = self.page as i64;
        let size = self.page_size as i64;
        assert(page * size <= 0xffff_ffffi64 * 100) by (nonlinear_arith)
            requires
                0 <= page <= 0xffff_ffff,
                0 <= size <= 100,
        ;
        assert(0 <= page * size) by (nonlinear_arith)
            requires
                0 <= page,
                0 <= size,
        ;
        Ok((page * size, size))
    }
}

/// The number of pages that `total` rows fill at `page_size` rows a page:
/// the quotient rounded up, at most `u32::MAX`; no pages when there are no
/// rows, and `u32::MAX` for rows at a page size of zero.
pub open spec fn page_count(total: int, page_size: int) -> int {
    if total <= 0 {
        0
    } else if page_size == 0 {
        u32::MAX as int
    } else {
        let q = (total + page_size - 1) / page_size;
        if q > u32::MAX {
            u32::MAX as int
        } else {
            q
        }
    }
}

/// The number of pages of a listing (see `page_count`).
pub fn total_pages(total: i64, page_size: u32) -> (r: u32)
    ensures
        r == page_count(total as int, page_size as int),
{
    if total <= 0 {
        0
    } else if page_size == 0 {
        u32::MAX
    } else {
        let t = total as u64;
        let p = page_size as u64;
        let q = t / p + if t % p == 0 {
            0
        } else {
            1
        };
        assert(q == (total + page_size - 1) / (page_size as int)) by (nonlinear_arith)
            requires
                t == total,
                p == page_size,
                p > 0,
                t > 0,
                q == t / p + if t % p == 0 {
                    0int
                } else {
                    1int
                },
        ;
        if q > u32::MAX as u64 {
            u32::MAX
        } else {
            q as u32
        }
    }
}

/// The pages of a listing hold all its rows and no page is empty: with
/// `n` pages of `page_size` rows, the rows fill more than `n - 1` pages and
/// at most `n` (when the count is not capped).
pub proof fn pages_cover_rows(total: int, page_size: int)
    requires
        total > 0,
        page_size > 0,
        page_count(total, page_size) < u32::MAX,
    ensures
        page_count(total, page_size) * page_size >= total,
        (page_count(total, page_size) - 1) * page_size < total,
{
    let q = (total + page_size - 1) / page_size;
    assert(q * page_size >= total && (q - 1) * page_size < total) by (nonlinear_arith)
        requires
            total > 0,
            page_size > 0,
            q == (total + page_size - 1) / page_size,
    ;
}

// ---------------------------------------------------------------------------
// Field validation
// ---------------------------------------------------------------------------

/// What the `url` validation of a text returns: whether it parses as an
/// absolute URL.
pub uninterp spec fn url_parses(s: Seq<char>) -> bool;

/// The `url` rule of the `validator` crate (`ValidateUrl::validate_url`,
/// which asks `url::Url::parse`): the claim is only that the answer is the
/// one `url_parses` names for this text.
#[verifier::external_body]
pub(crate) fn url_is_valid(s: &str) -> (r: bool)
    ensures
        r == url_parses(s@),
{
    s.validate_url()
}

/// The first field of a configuration that breaks its rule and the rule's
/// code, given whether its URL (for `website` and `yt`) parses: the other
/// kinds need a non-empty address.
pub open spec fn config_violation(config: TemplateKind, url_ok: bool) -> Option<(Seq<char>, Seq<char>)> {
    match config {
        TemplateKind::Rtsp(c) => if c.url@.len() == 0 {
            Some(("url"@, "length"@))
        } else {
            None
        },
        TemplateKind::Ffmpeg(c) => if c.source_url@.len() == 0 {
            Some(("source_url"@, "length"@))
        } else {
            None
        },
        TemplateKind::File(c) => if c.file_path@.len() == 0 {
            Some(("file_path"@, "length"@))
        } else {
            None
        },
        TemplateKind::Website(_) => if url_ok {
            None
        } else {
            Some(("url"@, "url"@))
        },
        TemplateKind::Yt(_) => if url_ok {
            None
        } else {
            Some(("url"@, "url"@))
        },
    }
}

/// The text of a field violation: `<field>: Validation error: <code>`.
pub open spec fn violation_text(field: Seq<char>, code: Seq<char>) -> Seq<char> {
    field + ": Validation error: "@ + code
}

/// The URL a configuration is checked against (`website` and `yt`).
pub open spec fn checked_url(config: TemplateKind) -> Option<Seq<char>> {
    match config {
        TemplateKind::Website(c) => Some(c.url@),
        TemplateKind::Yt(c) => Some(c.url@),
        _ => None,
    }
}

fn violation(field: &str, code: &str) -> (r: Result<(), String>)
    ensures
        r matches Err(m) && m@ == violation_text(field@, code@),
{
    Err(join3(field, ": Validation error: ", code))
}

/// The verdict on a configuration given whether its URL parses (`url_ok`
/// only matters for `website` and `yt`).
pub fn stream_config_verdict(config: &StreamConfig, url_ok: bool) -> (r: Result<(), String>)
    ensures
        match r {
            Ok(()) => config_violation(*config, url_ok) is None,
            Err(m) => config_violation(*config, url_ok) matches Some((f, c)) && m@
                == violation_text(f, c),
        },
{
    match config {
        TemplateKind::Rtsp(c) => if c.url.as_str().unicode_len() == 0 {
            violation("url", "length")
        } else {
            Ok(())
        },
        TemplateKind::Ffmpeg(c) => if c.source_url.as_str().unicode_len() == 0 {
            violation("source_url", "length")
        } else {
            Ok(())
        },
        TemplateKind::File(c) => if c.file_path.as_str().unicode_len() == 0 {
            violation("file_path", "length")
        } else {
            Ok(())
        },
        TemplateKind::Website(_) => if url_ok {
            Ok(())
        } else {
            violation("url", "url")
        },
        TemplateKind::Yt(_) => if url_ok {
            Ok(())
        } else {
            violation("url", "url")
        },
    }
}

/// Checks a stream configuration's fields: RTSP, FFmpeg and file sources
/// need a non-empty address, web pages and yt-dlp sources a URL that
/// parses.
pub fn validate_stream_config(config: &StreamConfig) -> (r: Result<(), String>)
    ensures
        match checked_url(*config) {
            None => match r {
                Ok(()) => config_violation(*config, true) is None,
                Err(m) => config_violation(*config, true) matches Some((f, c)) && m@
                    == violation_text(f, c),
            },
            Some(u) => match r {
                Ok(()) => url_parses(u),
                Err(m) => !url_parses(u) && m@ == violation_text("url"@, "url"@),
            },
        },
{
    let url_ok = match config {
        TemplateKind::Website(c) => url_is_valid(c.url.as_str()),
        TemplateKind::Yt(c) => url_is_valid(c.url.as_str()),
        _ => true,
    };
    stream_config_verdict(config, url_ok)
}

/// The first field of a create request that breaks its rule: a name of 1 to
/// 100 characters, a description of at most 500.
pub open spec fn request_violation(name: Option<Seq<char>>, description: Option<Seq<char>>) -> Option<
    Seq<char>,
> {
    if name matches Some(n) && (n.len() < 1 || n.len() > 100) {
        Some("name"@)
    } else if description matches Some(d) && d.len() > 500 {
        Some("description"@)
    } else {
        None
    }
}

/// The text of a refused request: `Validation error: <field>: Validation
/// error: length`.
pub open spec fn request_violation_text(field: Seq<char>) -> Seq<char> {
    "Validation error: "@ + violation_text(field, "length"@)
}

fn check_request_fields(name: Option<&String>, description: Option<&String>) -> (r: Result<
    (),
    String,
>)
    ensures
        match r {
            Ok(()) => request_violation(opt_text(name), opt_text(description)) is None,
            Err(m) => request_violation(opt_text(name), opt_text(description)) matches Some(f)
                && m@ == request_violation_text(f),
        },
{
    proof {
        reveal_strlit("name");
        reveal_strlit("description");
        reveal_strlit("Validation error: ");
        reveal_strlit(": Validation error: ");
        reveal_strlit(": Validation error: length");
        reveal_strlit("length");
    }
    if let Some(n) = name {
        let len = n.as_str().unicode_len();
        if len < 1 || len > 100 {
            return Err(join3("Validation error: ", "name", ": Validation error: length"));
        }
    }
    if let Some(d) = description {
        if d.as_str().unicode_len() > 500 {
            return Err(join3("Validation error: ", "description", ": Validation error: length"));
        }
    }
    Ok(())
}

/// The text of an optional string reference.
pub open spec fn opt_text(o: Option<&String>) -> Option<Seq<char>> {
    match o {
        Some(s) => Some(s@),
        None => None,
    }
}

/// A request to create a stream.
#[derive(Debug)]
pub struct CreateStreamApiRequest {
    pub name: String,
    pub description: Option<String>,
    pub config: StreamConfig,
    pub is_default: bool,
}

/// A request to change a stream; absent fields stay as they are.
#[derive(Debug)]
pub struct UpdateStreamApiRequest {
    pub name: Option<String>,
    pub description: Option<String>,
    pub config: Option<StreamConfig>,
    pub is_default: Option<bool>,
}

impl CreateStreamApiRequest {
    /// Checks the name (1 to 100 characters) and the description (at most
    /// 500).
    pub fn validate(&self) -> (r: Result<(), String>)
        ensures
            match r {
                Ok(()) => request_violation(Some(self.name@), opt_view(self.description)) is None,
                Err(m) => request_violation(Some(self.name@), opt_view(self.description)) matches Some(
                    f,
                ) && m@ == request_violation_text(f),
            },
    {
        check_request_fields(Some(&self.name), self.description.as_ref())
    }
}

impl UpdateStreamApiRequest {
    /// Checks the name (1 to 100 characters) and the description (at most
    /// 500) where they are given.
    pub fn validate(&self) -> (r: Result<(), String>)
        ensures
            match r {
                Ok(()) => request_violation(opt_view(self.name), opt_view(self.description)) is None,
                Err(m) => request_violation(opt_view(self.name), opt_view(self.description)) matches Some(
                    f,
                ) && m@ == request_violation_text(f),
            },
    {
        check_request_fields(self.name.as_ref(), self.description.as_ref())
    }
}

/// The text of an optional string.
pub open spec fn opt_view(o: Option<String>) -> Option<Seq<char>> {
    match o {
        Some(s) => Some(s@),
        None => None,
    }
}

} // verus!
