//! Typed stream configurations: reading them from JSON documents (a `kind`
//! tag selects the source type) and checking their fields.
use vstd::prelude::*;

use crate::text::{str_chars, str_is, string_of};
use crate::web::json::{entry_lookup, take_member, JsonNumber, JsonValue};

verus! {

/// An RTSP camera source.
#[derive(Debug)]
pub struct RtspTemplate {
    pub url: String,
}

/// A source read through FFmpeg.
#[derive(Debug)]
pub struct FfmpegTemplate {
    pub source_url: String,
}

/// A local video file.
#[derive(Debug)]
pub struct FileTemplate {
    pub file_path: String,
}

/// A web page captured by a browser.
#[derive(Debug)]
pub struct WebsiteTemplate {
    pub url: String,
    pub headless: Option<bool>,
    pub stealth: Option<bool>,
    pub width: Option<u32>,
    pub height: Option<u32>,
    pub element_selector: Option<String>,
}

/// A video fetched through yt-dlp.
#[derive(Debug)]
pub struct YtTemplate {
    pub url: String,
    pub format: Option<String>,
    pub is_live: Option<bool>,
    pub timeout: Option<u64>,
    pub options: Option<Vec<(String, JsonValue)>>,
}

/// A stream source configuration, tagged by `kind`.
#[derive(Debug)]
pub enum TemplateKind {
    Rtsp(RtspTemplate),
    Ffmpeg(FfmpegTemplate),
    File(FileTemplate),
    Website(WebsiteTemplate),
    Yt(YtTemplate),
}

/// Stream configurations are template configurations.
pub type StreamConfig = TemplateKind;

/// Why a document is not a stream configuration.
#[derive(Debug, Clone, Copy, PartialEq, Eq, Structural)]
pub enum ConfigDecodeError {
    /// Neither an object nor an array.
    NotAConfig,
    /// No `kind` tag, or a tag that is not a string.
    MissingKind,
    /// A `kind` that names no source type.
    UnknownKind,
    /// A required field is missing.
    MissingField,
    /// A field holds a value of the wrong type.
    InvalidField,
    /// An array form with more elements than the source type has fields.
    TooManyElements,
}

// ---------------------------------------------------------------------------
// Field decoding
// ---------------------------------------------------------------------------

/// A required text field.
pub open spec fn field_text(v: Option<JsonValue>) -> Result<String, ConfigDecodeError> {
    match v {
        None => Err(ConfigDecodeError::MissingField),
        Some(JsonValue::Str(s)) => Ok(s),
        Some(_) => Err(ConfigDecodeError::InvalidField),
    }
}

/// An optional boolean field (`null` counts as absent).
pub open spec fn field_opt_bool(v: Option<JsonValue>) -> Result<Option<bool>, ConfigDecodeError> {
    match v {
        None => Ok(None),
        Some(JsonValue::Null) => Ok(None),
        Some(JsonValue::Bool(b)) => Ok(Some(b)),
        Some(_) => Err(ConfigDecodeError::InvalidField),
    }
}

/// An optional `u32` field (`null` counts as absent).
pub open spec fn field_opt_u32(v: Option<JsonValue>) -> Result<Option<u32>, ConfigDecodeError> {
    match v {
        None => Ok(None),
        Some(JsonValue::Null) => Ok(None),
        Some(JsonValue::Number(JsonNumber::PosInt(n))) => if n <= u32::MAX {
            Ok(Some(n as u32))
        } else {
            Err(ConfigDecodeError::InvalidField)
        },
        Some(_) => Err(ConfigDecodeError::InvalidField),
    }
}

/// An optional `u64` field (`null` counts as absent).
pub open spec fn field_opt_u64(v: Option<JsonValue>) -> Result<Option<u64>, ConfigDecodeError> {
    match v {
        None => Ok(None),
        Some(JsonValue::Null) => Ok(None),
        Some(JsonValue::Number(JsonNumber::PosInt(n))) => Ok(Some(n)),
        Some(_) => Err(ConfigDecodeError::InvalidField),
    }
}

/// An optional text field (`null` counts as absent).
pub open spec fn field_opt_text(v: Option<JsonValue>) -> Result<Option<String>, ConfigDecodeError> {
    match v {
        None => Ok(None),
        Some(JsonValue::Null) => Ok(None),
        Some(JsonValue::Str(s)) => Ok(Some(s)),
        Some(_) => Err(ConfigDecodeError::InvalidField),
    }
}

/// An optional object field (`null` counts as absent).
pub open spec fn field_opt_object(v: Option<JsonValue>) -> Result<
    Option<Vec<(String, JsonValue)>>,
    ConfigDecodeError,
> {
    match v {
        None => Ok(None),
        Some(JsonValue::Null) => Ok(None),
        Some(JsonValue::Object(es)) => Ok(Some(es)),
        Some(_) => Err(ConfigDecodeError::InvalidField),
    }
}

fn decode_text(v: Option<JsonValue>) -> (r: Result<String, ConfigDecodeError>)
    ensures
        r == field_text(v),
{
    match v {
        None => Err(ConfigDecodeError::MissingField),
        Some(JsonValue::Str(s)) => Ok(s),
        Some(_) => Err(ConfigDecodeError::InvalidField),
    }
}

fn decode_opt_bool(v: Option<JsonValue>) -> (r: Result<Option<bool>, ConfigDecodeError>)
    ensures
        r == field_opt_bool(v),
{
    match v {
        None => Ok(None),
        Some(JsonValue::Null) => Ok(None),
        Some(JsonValue::Bool(b)) => Ok(Some(b)),
        Some(_) => Err(ConfigDecodeError::InvalidField),
    }
}

fn decode_opt_u32(v: Option<JsonValue>) -> (r: Result<Option<u32>, ConfigDecodeError>)
    ensures
        r == field_opt_u32(v),
{
    match v {
        None => Ok(None),
        Some(JsonValue::Null) => Ok(None),
        Some(JsonValue::Number(JsonNumber::PosInt(n))) => if n <= u32::MAX as u64 {
            Ok(Some(n as u32))
        } else {
            Err(ConfigDecodeError::InvalidField)
        },
        Some(_) => Err(ConfigDecodeError::InvalidField),
    }
}

fn decode_opt_u64(v: Option<JsonValue>) -> (r: Result<Option<u64>, ConfigDecodeError>)
    ensures
        r == field_opt_u64(v),
{
    match v {
        None => Ok(None),
        Some(JsonValue::Null) => Ok(None),
        Some(JsonValue::Number(JsonNumber::PosInt(n))) => Ok(Some(n)),
        Some(_) => Err(ConfigDecodeError::InvalidField),
    }
}

fn decode_opt_text(v: Option<JsonValue>) -> (r: Result<Option<String>, ConfigDecodeError>)
    ensures
        r == field_opt_text(v),
{
    match v {
        None => Ok(None),
        Some(JsonValue::Null) => Ok(None),
        Some(JsonValue::Str(s)) => Ok(Some(s)),
        Some(_) => Err(ConfigDecodeError::InvalidField),
    }
}

fn decode_opt_object(v: Option<JsonValue>) -> (r: Result<
    Option<Vec<(String, JsonValue)>>,
    ConfigDecodeError,
>)
    ensures
        r == field_opt_object(v),
{
    match v {
        None => Ok(None),
        Some(JsonValue::Null) => Ok(None),
        Some(JsonValue::Object(es)) => Ok(Some(es)),
        Some(_) => Err(ConfigDecodeError::InvalidField),
    }
}

/// Whether a field result is an invalid-type error.
pub open spec fn invalid<T>(r: Result<T, ConfigDecodeError>) -> bool {
    r == Err::<T, ConfigDecodeError>(ConfigDecodeError::InvalidField)
}

// ---------------------------------------------------------------------------
// Source types from their fields
// ---------------------------------------------------------------------------

/// A source type with a single required text field.
pub open spec fn single_text(
    f: Result<String, ConfigDecodeError>,
) -> Result<String, ConfigDecodeError> {
    f
}

/// A `website` configuration from its six fields (in declaration order);
/// an invalid field wins over a missing `url`.
pub open spec fn website_of(
    url: Result<String, ConfigDecodeError>,
    headless: Result<Option<bool>, ConfigDecodeError>,
    stealth: Result<Option<bool>, ConfigDecodeError>,
    width: Result<Option<u32>, ConfigDecodeError>,
    height: Result<Option<u32>, ConfigDecodeError>,
    selector: Result<Option<String>, ConfigDecodeError>,
) -> Result<WebsiteTemplate, ConfigDecodeError> {
    if invalid(url) || invalid(headless) || invalid(stealth) || invalid(width) || invalid(height)
        || invalid(selector) {
        Err(ConfigDecodeError::InvalidField)
    } else if url is Err {
        Err(ConfigDecodeError::MissingField)
    } else {
        Ok(
            WebsiteTemplate {
                url: url->Ok_0,
                headless: headless->Ok_0,
                stealth: stealth->Ok_0,
                width: width->Ok_0,
                height: height->Ok_0,
                element_selector: selector->Ok_0,
            },
        )
    }
}

/// A `yt` configuration from its five fields (in declaration order); an
/// invalid field wins over a missing `url`.
pub open spec fn yt_of(
    url: Result<String, ConfigDecodeError>,
    format: Result<Option<String>, ConfigDecodeError>,
    is_live: Result<Option<bool>, ConfigDecodeError>,
    timeout: Result<Option<u64>, ConfigDecodeError>,
    options: Result<Option<Vec<(String, JsonValue)>>, ConfigDecodeError>,
) -> Result<YtTemplate, ConfigDecodeError> {
    if invalid(url) || invalid(format) || invalid(is_live) || invalid(timeout) || invalid(options) {
        Err(ConfigDecodeError::InvalidField)
    } else if url is Err {
        Err(ConfigDecodeError::MissingField)
    } else {
        Ok(
            YtTemplate {
                url: url->Ok_0,
                format: format->Ok_0,
                is_live: is_live->Ok_0,
                timeout: timeout->Ok_0,
                options: options->Ok_0,
            },
        )
    }
}

/// The source type a tag names: 0 rtsp, 1 ffmpeg, 2 file, 3 website, 4 yt.
pub open spec fn kind_index(tag: Seq<char>) -> Option<nat> {
    if tag == "rtsp"@ {
        Some(0)
    } else if tag == "ffmpeg"@ {
        Some(1)
    } else if tag == "file"@ {
        Some(2)
    } else if tag == "website"@ {
        Some(3)
    } else if tag == "yt"@ {
        Some(4)
    } else {
        None
    }
}

/// Number of fields of each source type.
pub open spec fn kind_field_count(k: nat) -> nat {
    if k <= 2 {
        1
    } else if k == 3 {
        6
    } else {
        5
    }
}

/// The configuration of source type `k` whose fields are looked up with
/// `get` (by field position and name).
pub open spec fn config_of(k: nat, get: spec_fn(nat, Seq<char>) -> Option<JsonValue>) -> Result<
    TemplateKind,
    ConfigDecodeError,
> {
    if k == 0 {
        match field_text(get(0, "url"@)) {
            Ok(s) => Ok(TemplateKind::Rtsp(RtspTemplate { url: s })),
            Err(e) => Err(e),
        }
    } else if k == 1 {
        match field_text(get(0, "source_url"@)) {
            Ok(s) => Ok(TemplateKind::Ffmpeg(FfmpegTemplate { source_url: s })),
            Err(e) => Err(e),
        }
    } else if k == 2 {
        match field_text(get(0, "file_path"@)) {
            Ok(s) => Ok(TemplateKind::File(FileTemplate { file_path: s })),
            Err(e) => Err(e),
        }
    } else if k == 3 {
        match website_of(
            field_text(get(0, "url"@)),
            field_opt_bool(get(1, "headless"@)),
            field_opt_bool(get(2, "stealth"@)),
            field_opt_u32(get(3, "width"@)),
            field_opt_u32(get(4, "height"@)),
            field_opt_text(get(5, "element_selector"@)),
        ) {
            Ok(w) => Ok(TemplateKind::Website(w)),
            Err(e) => Err(e),
        }
    } else {
        match yt_of(
            field_text(get(0, "url"@)),
            field_opt_text(get(1, "format"@)),
            field_opt_bool(get(2, "is_live"@)),
            field_opt_u64(get(3, "timeout"@)),
            field_opt_object(get(4, "options"@)),
        ) {
            Ok(y) => Ok(TemplateKind::Yt(y)),
            Err(e) => Err(e),
        }
    }
}

/// What a stream configuration document decodes to.  An object holds a
/// string `kind` and the fields by name (other members are ignored); an
/// array holds the `kind` first and then the fields in declaration order,
/// no more of them than the type has.
pub open spec fn decode_config(v: JsonValue) -> Result<TemplateKind, ConfigDecodeError> {
    match v {
        JsonValue::Object(es) => match entry_lookup(es@, "kind"@) {
            None => Err(ConfigDecodeError::MissingKind),
            Some(JsonValue::Str(tag)) => match kind_index(tag@) {
                None => Err(ConfigDecodeError::UnknownKind),
                Some(k) => config_of(k, |i: nat, name: Seq<char>| entry_lookup(es@, name)),
            },
            Some(_) => Err(ConfigDecodeError::UnknownKind),
        },
        JsonValue::Array(items) => if items@.len() == 0 {
            Err(ConfigDecodeError::MissingKind)
        } else {
            match items@[0] {
                JsonValue::Str(tag) => match kind_index(tag@) {
                    None => Err(ConfigDecodeError::UnknownKind),
                    Some(k) => {
                        let fields = items@.drop_first();
                        match config_of(
                            k,
                            |i: nat, name: Seq<char>|
                                if i < fields.len() {
                                    Some(fields[i as int])
                                } else {
                                    None
                                },
                        ) {
                            Ok(c) => if fields.len() > kind_field_count(k) {
                                Err(ConfigDecodeError::TooManyElements)
                            } else {
                                Ok(c)
                            },
                            Err(e) => Err(e),
                        }
                    },
                },
                _ => Err(ConfigDecodeError::UnknownKind),
            }
        },
        _ => Err(ConfigDecodeError::NotAConfig),
    }
}

/// Which source type a tag names.
fn kind_of(tag: &str) -> (r: Option<u8>)
    ensures
        match r {
            Some(k) => kind_index(tag@) == Some(k as nat),
            None => kind_index(tag@) is None,
        },
{
    if str_is(tag, "rtsp") {
        Some(0)
    } else if str_is(tag, "ffmpeg") {
        Some(1)
    } else if str_is(tag, "file") {
        Some(2)
    } else if str_is(tag, "website") {
        Some(3)
    } else if str_is(tag, "yt") {
        Some(4)
    } else {
        None
    }
}

/// The name of field `i` of source type `k`.
pub open spec fn field_name(k: nat, i: nat) -> Seq<char> {
    if k == 0 {
        "url"@
    } else if k == 1 {
        "source_url"@
    } else if k == 2 {
        "file_path"@
    } else if k == 3 {
        if i == 0 {
            "url"@
        } else if i == 1 {
            "headless"@
        } else if i == 2 {
            "stealth"@
        } else if i == 3 {
            "width"@
        } else if i == 4 {
            "height"@
        } else {
            "element_selector"@
        }
    } else {
        if i == 0 {
            "url"@
        } else if i == 1 {
            "format"@
        } else if i == 2 {
            "is_live"@
        } else if i == 3 {
            "timeout"@
        } else {
            "options"@
        }
    }
}

fn field_name_exec(k: u8, i: u8) -> (r: &'static str)
    requires
        k <= 4,
    ensures
        r@ == field_name(k as nat, i as nat),
{
    if k == 0 {
        "url"
    } else if k == 1 {
        "source_url"
    } else if k == 2 {
        "file_path"
    } else if k == 3 {
        if i == 0 {
            "url"
        } else if i == 1 {
            "headless"
        } else if i == 2 {
            "stealth"
        } else if i == 3 {
            "width"
        } else if i == 4 {
            "height"
        } else {
            "element_selector"
        }
    } else {
        if i == 0 {
            "url"
        } else if i == 1 {
            "format"
        } else if i == 2 {
            "is_live"
        } else if i == 3 {
            "timeout"
        } else {
            "options"
        }
    }
}

/// Whether `q` is among the first `i` field names of source type `k`.
pub open spec fn among_first(k: nat, i: nat, q: Seq<char>) -> bool
    decreases i,
{
    if i == 0 {
        false
    } else {
        among_first(k, (i - 1) as nat, q) || field_name(k, (i - 1) as nat) == q
    }
}

proof fn lemma_not_among(k: nat, i: nat, q: Seq<char>)
    requires
        forall|j: nat| j < i ==> field_name(k, j) != q,
    ensures
        !among_first(k, i, q),
    decreases i,
{
    if i > 0 {
        lemma_not_among(k, (i - 1) as nat, q);
    }
}

/// The field names of one source type differ from each other and from the
/// `kind` tag.
proof fn lemma_field_names_distinct(k: nat, i: nat)
    requires
        k <= 4,
        i < kind_field_count(k),
    ensures
        field_name(k, i) != "kind"@,
        forall|j: nat| j < i ==> field_name(k, j) != field_name(k, i),
{
    reveal_strlit("kind");
    reveal_strlit("url");
    reveal_strlit("source_url");
    reveal_strlit("file_path");
    reveal_strlit("headless");
    reveal_strlit("stealth");
    reveal_strlit("width");
    reveal_strlit("height");
    reveal_strlit("element_selector");
    reveal_strlit("format");
    reveal_strlit("is_live");
    reveal_strlit("timeout");
    reveal_strlit("options");
    assert(("is_live"@)[0] != ("timeout"@)[0]);
    assert(("is_live"@)[0] != ("options"@)[0]);
    assert(("timeout"@)[0] != ("options"@)[0]);
    assert(("stealth"@)[0] != ("is_live"@)[0]);
    assert(field_name(k, i).len() != 4);
    assert forall|j: nat| j < i implies field_name(k, j) != field_name(k, i) by {
        if field_name(k, j) == field_name(k, i) {
            assert(field_name(k, j).len() == field_name(k, i).len());
            assert(field_name(k, j)[0] == field_name(k, i)[0]);
        }
    }
}

/// Builds the configuration of source type `k` from its field values
/// (`vals[i]` is field `i`, `None` when absent).
fn build_config(k: u8, vals: Vec<Option<JsonValue>>) -> (r: Result<TemplateKind, ConfigDecodeError>)
    requires
        k <= 4,
        vals@.len() == kind_field_count(k as nat),
    ensures
        r == config_of(
            k as nat,
            |i: nat, name: Seq<char>|
                if i < vals@.len() {
                    vals@[i as int]
                } else {
                    None
                },
        ),
{
    let mut vals = vals;
    let ghost orig = vals@;
    let ghost get = |i: nat, name: Seq<char>|
        if i < orig.len() {
            orig[i as int]
        } else {
            None
        };
    if k <= 2 {
        let v0 = vals.remove(0);
        let t = decode_text(v0);
        match t {
            Ok(s) => if k == 0 {
                Ok(TemplateKind::Rtsp(RtspTemplate { url: s }))
            } else if k == 1 {
                Ok(TemplateKind::Ffmpeg(FfmpegTemplate { source_url: s }))
            } else {
                Ok(TemplateKind::File(FileTemplate { file_path: s }))
            },
            Err(e) => Err(e),
        }
    } else if k == 3 {
        let v0 = vals.remove(0);
        let v1 = vals.remove(0);
        let v2 = vals.remove(0);
        let v3 = vals.remove(0);
        let v4 = vals.remove(0);
        let v5 = vals.remove(0);
        assert(v0 == orig[0] && v1 == orig[1] && v2 == orig[2] && v3 == orig[3] && v4 == orig[4]
            && v5 == orig[5]);
        let url = decode_text(v0);
        let headless = decode_opt_bool(v1);
        let stealth = decode_opt_bool(v2);
        let width = decode_opt_u32(v3);
        let height = decode_opt_u32(v4);
        let selector = decode_opt_text(v5);
        let bad = matches!(url, Err(ConfigDecodeError::InvalidField)) || matches!(headless, Err(ConfigDecodeError::InvalidField))
            || matches!(stealth, Err(ConfigDecodeError::InvalidField)) || matches!(width, Err(ConfigDecodeError::InvalidField))
            || matches!(height, Err(ConfigDecodeError::InvalidField)) || matches!(selector, Err(ConfigDecodeError::InvalidField));
        if bad {
            return Err(ConfigDecodeError::InvalidField);
        }
        match (url, headless, stealth, width, height, selector) {
            (Ok(u), Ok(h), Ok(s), Ok(w), Ok(ht), Ok(sel)) => Ok(
                TemplateKind::Website(
                    WebsiteTemplate {
                        url: u,
                        headless: h,
                        stealth: s,
                        width: w,
                        height: ht,
                        element_selector: sel,
                    },
                ),
            ),
            _ => Err(ConfigDecodeError::MissingField),
        }
    } else {
        let v0 = vals.remove(0);
        let v1 = vals.remove(0);
        let v2 = vals.remove(0);
        let v3 = vals.remove(0);
        let v4 = vals.remove(0);
        assert(v0 == orig[0] && v1 == orig[1] && v2 == orig[2] && v3 == orig[3] && v4 == orig[4]);
        let url = decode_text(v0);
        let format = decode_opt_text(v1);
        let is_live = decode_opt_bool(v2);
        let timeout = decode_opt_u64(v3);
        let options = decode_opt_object(v4);
        let bad = matches!(url, Err(ConfigDecodeError::InvalidField)) || matches!(format, Err(ConfigDecodeError::InvalidField))
            || matches!(is_live, Err(ConfigDecodeError::InvalidField)) || matches!(timeout, Err(ConfigDecodeError::InvalidField))
            || matches!(options, Err(ConfigDecodeError::InvalidField));
        if bad {
            return Err(ConfigDecodeError::InvalidField);
        }
        match (url, format, is_live, timeout, options) {
            (Ok(u), Ok(f), Ok(l), Ok(t), Ok(o)) => Ok(
                TemplateKind::Yt(YtTemplate { url: u, format: f, is_live: l, timeout: t, options: o }),
            ),
            _ => Err(ConfigDecodeError::MissingField),
        }
    }
}

impl TemplateKind {
    /// Reads a stream configuration from a JSON document (see
    /// `decode_config`).
    pub fn from_json(v: JsonValue) -> (r: Result<TemplateKind, ConfigDecodeError>)
        ensures
            r == decode_config(v),
    {
        let ghost orig = v;
        match v {
            JsonValue::Object(es) => {
                let mut es = es;
                let ghost e0 = es@;
                let tag = take_member(&mut es, "kind");
                let k = match &tag {
                    None => return Err(ConfigDecodeError::MissingKind),
                    Some(JsonValue::Str(t)) => match kind_of(t.as_str()) {
                        None => return Err(ConfigDecodeError::UnknownKind),
                        Some(k) => k,
                    },
                    Some(_) => return Err(ConfigDecodeError::UnknownKind),
                };
                let n: u8 = if k <= 2 {
                    1
                } else if k == 3 {
                    6
                } else {
                    5
                };
                let mut vals: Vec<Option<JsonValue>> = Vec::new();
                let mut i: u8 = 0;
                while i < n
                    invariant
                        k <= 4,
                        n as nat == kind_field_count(k as nat),
                        i <= n,
                        vals@.len() == i,
                        forall|j: int|
                            0 <= j < i ==> vals@[j] == entry_lookup(
                                e0,
                                field_name(k as nat, j as nat),
                            ),
                        forall|q: Seq<char>|
                            q != "kind"@ && !among_first(k as nat, i as nat, q) ==> #[trigger] entry_lookup(
                                es@,
                                q,
                            ) == entry_lookup(e0, q),
                    decreases n - i,
                {
                    let name = field_name_exec(k, i);
                    let ghost before = es@;
                    let x = take_member(&mut es, name);
                    proof {
                        lemma_field_names_distinct(k as nat, i as nat);
                        lemma_not_among(k as nat, i as nat, name@);
                        assert forall|q: Seq<char>|
                            q != "kind"@ && !among_first(k as nat, (i + 1) as nat, q) implies #[trigger] entry_lookup(
                            es@,
                            q,
                        ) == entry_lookup(e0, q) by {
                            assert(q != name@);
                            assert(entry_lookup(before, q) == entry_lookup(e0, q));
                        }
                    }
                    vals.push(x);
                    i += 1;
                }
                build_config(k, vals)
            },
            JsonValue::Array(items) => {
                let mut items = items;
                if items.len() == 0 {
                    return Err(ConfigDecodeError::MissingKind);
                }
                let first = items.remove(0);
                let k = match &first {
                    JsonValue::Str(t) => match kind_of(t.as_str()) {
                        None => return Err(ConfigDecodeError::UnknownKind),
                        Some(k) => k,
                    },
                    _ => return Err(ConfigDecodeError::UnknownKind),
                };
                let extra = items.len() as u64;
                let n: u8 = if k <= 2 {
                    1
                } else if k == 3 {
                    6
                } else {
                    5
                };
                let ghost fields = items@;
                let mut vals: Vec<Option<JsonValue>> = Vec::new();
                let mut i: u8 = 0;
                while i < n
                    invariant
                        i <= n,
                        vals@.len() == i,
                        items@ == fields.subrange(
                            if i <= fields.len() {
                                i as int
                            } else {
                                fields.len() as int
                            },
                            fields.len() as int,
                        ),
                        forall|j: int|
                            0 <= j < i ==> vals@[j] == if j < fields.len() {
                                Some(fields[j])
                            } else {
                                None
                            },
                    decreases n - i,
                {
                    if items.len() > 0 {
                        let ghost before = items@;
                        let x = items.remove(0);
                        assert(x == fields[i as int]);
                        assert(items@ =~= fields.subrange(i + 1, fields.len() as int));
                        vals.push(Some(x));
                    } else {
                        vals.push(None);
                    }
                    i += 1;
                }
                let r = build_config(k, vals);
                match r {
                    Ok(c) => if extra > n as u64 {
                        Err(ConfigDecodeError::TooManyElements)
                    } else {
                        Ok(c)
                    },
                    Err(e) => Err(e),
                }
            },
            _ => Err(ConfigDecodeError::NotAConfig),
        }
    }
}

} // verus!
