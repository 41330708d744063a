//! The request checks of the AI endpoints: text to summarize and images to
//! describe.
use vstd::prelude::*;

use base64::Engine;

use crate::text::{str_chars, string_of, trim_chars, trim_seq};
use crate::web::session::{utf8_len, utf8_width};

verus! {

/// A request to summarize text.
#[derive(Debug)]
pub struct SummarizeApiRequest {
    pub text: String,
    pub max_length: Option<usize>,
    /// `brief`, `detailed` or `technical`.
    pub style: Option<String>,
}

/// A request to describe an image.
#[derive(Debug)]
pub struct DescribeFrameApiRequest {
    /// The image, base64 encoded.
    pub image_base64: String,
    /// `jpeg` or `png`.
    pub image_format: String,
    /// `low`, `high` or `auto`.
    pub detail_level: Option<String>,
    /// `objects`, `activity` or `scene`.
    pub focus: Option<String>,
}

/// The success-or-error envelope of the AI endpoints.
#[derive(Debug)]
pub struct ApiResponse<T> {
    pub success: bool,
    pub data: Option<T>,
    pub error: Option<String>,
}

impl<T> ApiResponse<T> {
    /// A successful answer carrying `data`.
    pub fn success(data: T) -> (r: Self)
        ensures
            r.success && r.data == Some(data) && r.error is None,
    {
        ApiResponse { success: true, data: Some(data), error: None }
    }

    /// A failed answer carrying `error`.
    pub fn error(error: String) -> (r: Self)
        ensures
            !r.success && r.data is None && r.error == Some(error),
    {
        ApiResponse { success: false, data: None, error: Some(error) }
    }
}

/// The error answer of the AI endpoints.
#[derive(Debug)]
pub struct ErrorResponse {
    pub error: String,
    pub message: String,
}

impl ErrorResponse {
    pub fn new(error: &str, message: &str) -> (r: Self)
        ensures
            r.error@ == error@ && r.message@ == message@,
    {
        ErrorResponse { error: string_of(error), message: string_of(message) }
    }
}

/// Whether the UTF-8 form of `s` is longer than `limit` bytes.
fn utf8_longer_than(s: &[char], limit: usize) -> (r: bool)
    ensures
        r == (utf8_len(s@) > limit),
{
    let mut n: usize = 0;
    let mut i: usize = 0;
    while i < s.len()
        invariant
            i <= s@.len(),
            n == utf8_len(s@.take(i as int)),
            n <= limit,
        decreases s@.len() - i,
    {
        let c = s[i];
        let u = c as u32;
        let w: usize = if u < 0x80 {
            1
        } else if u < 0x800 {
            2
        } else if u < 0x10000 {
            3
        } else {
            4
        };
        proof {
            assert(s@.take(i + 1).drop_last() =~= s@.take(i as int));
            assert(w == utf8_width(c));
        }
        if w > limit - n {
            proof {
                lemma_utf8_len_prefix_le(s@, i + 1);
            }
            return true;
        }
        n = n + w;
        i += 1;
    }
    assert(s@.take(s@.len() as int) =~= s@);
    false
}

proof fn lemma_utf8_len_prefix_le(s: Seq<char>, k: int)
    requires
        0 <= k <= s.len(),
    ensures
        utf8_len(s.take(k)) <= utf8_len(s),
    decreases s.len() - k,
{
    if k < s.len() {
        lemma_utf8_len_prefix_le(s, k + 1);
        assert(s.take(k + 1).drop_last() =~= s.take(k));
    } else {
        assert(s.take(k) =~= s);
    }
}

/// Why a summary request is refused, if it is: its text is blank, or
/// longer than 50,000 bytes.
pub open spec fn summarize_refusal(text: Seq<char>) -> Option<Seq<char>> {
    if trim_seq(text).len() == 0 {
        Some("Text cannot be empty"@)
    } else if utf8_len(text) > 50000 {
        Some("Text too long (max 50,000 characters)"@)
    } else {
        None
    }
}

/// Checks a summary request (see `summarize_refusal`); a refusal is a
/// `validation_error`.
pub fn check_summarize_request(request: &SummarizeApiRequest) -> (r: Result<(), ErrorResponse>)
    ensures
        match r {
            Ok(()) => summarize_refusal(request.text@) is None,
            Err(e) => e.error@ == "validation_error"@ && summarize_refusal(request.text@) == Some(
                e.message@,
            ),
        },
{
    let chars = str_chars(request.text.as_str());
    let trimmed = trim_chars(chars.as_slice());
    if trimmed.len() == 0 {
        return Err(ErrorResponse::new("validation_error", "Text cannot be empty"));
    }
    if utf8_longer_than(chars.as_slice(), 50000) {
        return Err(ErrorResponse::new("validation_error", "Text too long (max 50,000 characters)"));
    }
    Ok(())
}

/// What the standard base64 engine (with padding) decodes a text to, or
/// nothing when it is not base64.
pub uninterp spec fn base64_standard_decode(s: Seq<char>) -> Option<Seq<u8>>;

/// `base64::engine::general_purpose::STANDARD.decode`: the claim is only
/// that the result is the one `base64_standard_decode` names.
#[verifier::external_body]
fn decode_base64(s: &str) -> (r: Option<Vec<u8>>)
    ensures
        match r {
            Some(v) => base64_standard_decode(s@) == Some(v@),
            None => base64_standard_decode(s@) is None,
        },
{
    base64::engine::general_purpose::STANDARD.decode(s).ok()
}

/// The image of a description request: its base64 decoded; text that is
/// not base64 and images over 10,000,000 bytes are refused as a
/// `validation_error`.
pub fn decode_frame_image(request: &DescribeFrameApiRequest) -> (r: Result<Vec<u8>, ErrorResponse>)
    ensures
        match base64_standard_decode(request.image_base64@) {
            None => r matches Err(e) && e.error@ == "validation_error"@ && e.message@
                == "Invalid base64 image data"@,
            Some(bytes) => if bytes.len() > 10_000_000 {
                r matches Err(e) && e.error@ == "validation_error"@ && e.message@
                    == "Image too large (max 10MB)"@
            } else {
                r matches Ok(v) && v@ == bytes
            },
        },
{
    match decode_base64(request.image_base64.as_str()) {
        None => Err(ErrorResponse::new("validation_error", "Invalid base64 image data")),
        Some(v) => if v.len() > 10_000_000 {
            Err(ErrorResponse::new("validation_error", "Image too large (max 10MB)"))
        } else {
            Ok(v)
        },
    }
}

} // verus!
