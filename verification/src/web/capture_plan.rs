//! What a stored stream configuration asks the capture layer to run: the
//! source type and its settings, read from the configuration's JSON.
//!
//! Settings that a configuration leaves out are `None` here: the capture
//! source then keeps its own default for them.
use vstd::prelude::*;

use crate::error::Error;
use crate::text::{
    char_is_numeric, ends_with, is_unicode_numeric, join3, join_str, parse_u32_chars,
    parse_unsigned, seq_ends_with, seq_starts_with, starts_with, str_chars, str_is, string_of,
    sub_chars, to_lowercase, unicode_lowercase,
};
use crate::web::json::{get_bool, get_str, get_u64, json_get, JsonValue};

verus! {

/// Hardware acceleration for FFmpeg decoding.
#[derive(Debug, Clone, Copy, PartialEq, Eq, Structural)]
pub enum HardwareAccel {
    Disabled,
    Vaapi,
    Cuda,
    Qsv,
    VideoToolbox,
}

/// How FFmpeg carries an RTSP session.
#[derive(Debug, Clone, Copy, PartialEq, Eq, Structural)]
pub enum RtspTransport {
    Tcp,
    Udp,
    Auto,
}

/// Which yt-dlp format to fetch.
#[derive(Debug)]
pub enum OutputFormat {
    Best,
    Worst,
    FormatId(String),
    BestWithHeight(u32),
}

/// An FFmpeg capture (also used for RTSP cameras).
#[derive(Debug)]
pub struct FfmpegPlan {
    pub input_url: String,
    pub hardware_accel: Option<HardwareAccel>,
    pub input_options: Vec<(String, String)>,
    pub video_codec: Option<String>,
    pub timeout: Option<u32>,
    pub quality: Option<u8>,
    pub rtsp_transport: Option<RtspTransport>,
}

/// A browser capture of a web page.
#[derive(Debug)]
pub struct WebsitePlan {
    pub url: String,
    pub headless: Option<bool>,
    pub stealth: Option<bool>,
    pub width: Option<u32>,
    pub height: Option<u32>,
    pub element_selector: Option<String>,
    pub basic_auth_username: Option<String>,
    pub basic_auth_password: Option<String>,
}

/// A yt-dlp capture.
#[derive(Debug)]
pub struct YtPlan {
    pub url: String,
    pub format: Option<OutputFormat>,
    pub is_live: Option<bool>,
    pub timeout: Option<u32>,
    pub options: Vec<(String, String)>,
}

/// The capture source a stream configuration describes.
#[derive(Debug)]
pub enum CapturePlan {
    File(String),
    Ffmpeg(FfmpegPlan),
    Website(WebsitePlan),
    Yt(YtPlan),
}

// ---------------------------------------------------------------------------
// Mathematical models of the plans
// ---------------------------------------------------------------------------

pub enum FormatModel {
    Best,
    Worst,
    FormatId(Seq<char>),
    BestWithHeight(u32),
}

pub struct FfmpegModel {
    pub input_url: Seq<char>,
    pub hardware_accel: Option<HardwareAccel>,
    pub input_options: Seq<(Seq<char>, Seq<char>)>,
    pub video_codec: Option<Seq<char>>,
    pub timeout: Option<u32>,
    pub quality: Option<u8>,
    pub rtsp_transport: Option<RtspTransport>,
}

pub struct WebsiteModel {
    pub url: Seq<char>,
    pub headless: Option<bool>,
    pub stealth: Option<bool>,
    pub width: Option<u32>,
    pub height: Option<u32>,
    pub element_selector: Option<Seq<char>>,
    pub basic_auth_username: Option<Seq<char>>,
    pub basic_auth_password: Option<Seq<char>>,
}

pub struct YtModel {
    pub url: Seq<char>,
    pub format: Option<FormatModel>,
    pub is_live: Option<bool>,
    pub timeout: Option<u32>,
    pub options: Seq<(Seq<char>, Seq<char>)>,
}

pub enum PlanModel {
    File(Seq<char>),
    Ffmpeg(FfmpegModel),
    Website(WebsiteModel),
    Yt(YtModel),
}

/// The text of an optional string.
pub open spec fn opt_view(o: Option<String>) -> Option<Seq<char>> {
    match o {
        Some(s) => Some(s@),
        None => None,
    }
}

/// The texts of a list of string pairs.
pub open spec fn pairs_view(v: Seq<(String, String)>) -> Seq<(Seq<char>, Seq<char>)> {
    v.map_values(|p: (String, String)| (p.0@, p.1@))
}

impl View for OutputFormat {
    type V = FormatModel;

    open spec fn view(&self) -> FormatModel {
        match self {
            OutputFormat::Best => FormatModel::Best,
            OutputFormat::Worst => FormatModel::Worst,
            OutputFormat::FormatId(s) => FormatModel::FormatId(s@),
            OutputFormat::BestWithHeight(h) => FormatModel::BestWithHeight(*h),
        }
    }
}

impl View for FfmpegPlan {
    type V = FfmpegModel;

    open spec fn view(&self) -> FfmpegModel {
        FfmpegModel {
            input_url: self.input_url@,
            hardware_accel: self.hardware_accel,
            input_options: pairs_view(self.input_options@),
            video_codec: opt_view(self.video_codec),
            timeout: self.timeout,
            quality: self.quality,
            rtsp_transport: self.rtsp_transport,
        }
    }
}

impl View for WebsitePlan {
    type V = WebsiteModel;

    open spec fn view(&self) -> WebsiteModel {
        WebsiteModel {
            url: self.url@,
            headless: self.headless,
            stealth: self.stealth,
            width: self.width,
            height: self.height,
            element_selector: opt_view(self.element_selector),
            basic_auth_username: opt_view(self.basic_auth_username),
            basic_auth_password: opt_view(self.basic_auth_password),
        }
    }
}

impl View for YtPlan {
    type V = YtModel;

    open spec fn view(&self) -> YtModel {
        YtModel {
            url: self.url@,
            format: match self.format {
                Some(f) => Some(f@),
                None => None,
            },
            is_live: self.is_live,
            timeout: self.timeout,
            options: pairs_view(self.options@),
        }
    }
}

impl View for CapturePlan {
    type V = PlanModel;

    open spec fn view(&self) -> PlanModel {
        match self {
            CapturePlan::File(p) => PlanModel::File(p@),
            CapturePlan::Ffmpeg(f) => PlanModel::Ffmpeg(f@),
            CapturePlan::Website(w) => PlanModel::Website(w@),
            CapturePlan::Yt(y) => PlanModel::Yt(y@),
        }
    }
}

// ---------------------------------------------------------------------------
// What a configuration describes
// ---------------------------------------------------------------------------

/// The acceleration a lowercase name selects; unknown names select none.
pub open spec fn accel_named(s: Seq<char>) -> HardwareAccel {
    if s == "vaapi"@ {
        HardwareAccel::Vaapi
    } else if s == "cuda"@ {
        HardwareAccel::Cuda
    } else if s == "qsv"@ {
        HardwareAccel::Qsv
    } else if s == "videotoolbox"@ {
        HardwareAccel::VideoToolbox
    } else {
        HardwareAccel::Disabled
    }
}

/// The transport a lowercase name selects; unknown names select `Auto`.
pub open spec fn transport_named(s: Seq<char>) -> RtspTransport {
    if s == "tcp"@ {
        RtspTransport::Tcp
    } else if s == "udp"@ {
        RtspTransport::Udp
    } else {
        RtspTransport::Auto
    }
}

/// The string-valued members of an object, in order; other members are
/// skipped.
pub open spec fn string_members(es: Seq<(String, JsonValue)>) -> Seq<(Seq<char>, Seq<char>)>
    decreases es.len(),
{
    if es.len() == 0 {
        Seq::empty()
    } else {
        let rest = string_members(es.drop_last());
        match es.last().1 {
            JsonValue::Str(s) => rest.push((es.last().0@, s@)),
            _ => rest,
        }
    }
}

/// The string-valued members of an optional object member (none when it is
/// absent or not an object).
pub open spec fn object_string_members(v: Option<JsonValue>) -> Seq<(Seq<char>, Seq<char>)> {
    match v {
        Some(JsonValue::Object(es)) => string_members(es@),
        _ => Seq::empty(),
    }
}

/// A number narrowed to `u32` by `as` (keeping its low 32 bits).
pub open spec fn narrowed_u32(n: Option<u64>) -> Option<u32> {
    match n {
        Some(t) => Some(t as u32),
        None => None,
    }
}

/// The FFmpeg settings of an `ffmpeg` configuration reading `url`.
pub open spec fn ffmpeg_model(config: JsonValue, url: Seq<char>) -> FfmpegModel {
    FfmpegModel {
        input_url: url,
        hardware_accel: match get_str(config, "hardware_accel"@) {
            Some(h) => Some(accel_named(unicode_lowercase(h))),
            None => None,
        },
        input_options: object_string_members(json_get(config, "input_options"@)),
        video_codec: get_str(config, "video_codec"@),
        timeout: narrowed_u32(get_u64(config, "timeout"@)),
        quality: match get_u64(config, "quality"@) {
            Some(q) => Some(q as u8),
            None => None,
        },
        rtsp_transport: None,
    }
}

/// The FFmpeg settings of an `rtsp` configuration reading `url`: TCP and a
/// ten-second timeout unless the configuration says otherwise.
pub open spec fn rtsp_model(config: JsonValue, url: Seq<char>) -> FfmpegModel {
    FfmpegModel {
        input_url: url,
        hardware_accel: None,
        input_options: Seq::empty(),
        video_codec: None,
        timeout: match get_u64(config, "timeout"@) {
            Some(t) => Some(t as u32),
            None => Some(10),
        },
        quality: None,
        rtsp_transport: match get_str(config, "transport"@) {
            Some(t) => Some(transport_named(unicode_lowercase(t))),
            None => Some(RtspTransport::Tcp),
        },
    }
}

/// The browser settings of a `website` configuration reading `url`.
pub open spec fn website_model(config: JsonValue, url: Seq<char>) -> WebsiteModel {
    WebsiteModel {
        url: url,
        headless: get_bool(config, "headless"@),
        stealth: get_bool(config, "stealth"@),
        width: narrowed_u32(get_u64(config, "width"@)),
        height: narrowed_u32(get_u64(config, "height"@)),
        element_selector: get_str(config, "element_selector"@),
        basic_auth_username: get_str(config, "basic_auth_username"@),
        basic_auth_password: get_str(config, "basic_auth_password"@),
    }
}

/// Whether every character is numeric or `+` (a yt-dlp format id).
pub open spec fn is_format_id(f: Seq<char>) -> bool {
    forall|i: int| 0 <= i < f.len() ==> is_unicode_numeric(#[trigger] f[i]) || f[i] == '+'
}

/// The yt-dlp format a `format` setting names.
pub open spec fn format_named(f: Seq<char>) -> FormatModel {
    if f == "best"@ {
        FormatModel::Best
    } else if f == "worst"@ {
        FormatModel::Worst
    } else if is_format_id(f) {
        FormatModel::FormatId(f)
    } else if seq_starts_with(f, "best[height<="@) && seq_ends_with(f, "]"@) {
        match parse_unsigned(f.subrange(13, f.len() - 1), u32::MAX as nat) {
            Some(h) => FormatModel::BestWithHeight(h as u32),
            None => FormatModel::Best,
        }
    } else {
        FormatModel::Best
    }
}

/// The yt-dlp settings of a `yt` configuration reading `url`.
pub open spec fn yt_model(config: JsonValue, url: Seq<char>) -> YtModel {
    YtModel {
        url: url,
        format: match get_str(config, "format"@) {
            Some(f) => Some(format_named(f)),
            None => None,
        },
        is_live: get_bool(config, "is_live"@),
        timeout: narrowed_u32(get_u64(config, "timeout"@)),
        options: object_string_members(json_get(config, "options"@)),
    }
}

/// The capture a stored configuration describes, or the configuration
/// error.  `snapshot` selects the on-demand snapshot reading, which also
/// knows `rtsp` and words the missing file path differently;
/// `website_enabled` says whether browser capture is built in.
pub open spec fn capture_plan_of(config: JsonValue, website_enabled: bool, snapshot: bool) -> Result<
    PlanModel,
    Seq<char>,
> {
    match get_str(config, "kind"@) {
        None => Err("Stream config missing 'kind' field"@),
        Some(kind) => if kind == "file"@ {
            match get_str(config, "file_path"@) {
                Some(p) => Ok(PlanModel::File(p)),
                None => Err(
                    if snapshot {
                        "File stream config missing 'file_path' field"@
                    } else {
                        "Missing file_path"@
                    },
                ),
            }
        } else if kind == "ffmpeg"@ {
            match get_str(config, "source_url"@) {
                Some(u) => Ok(PlanModel::Ffmpeg(ffmpeg_model(config, u))),
                None => Err("FFmpeg stream config missing 'source_url' field"@),
            }
        } else if kind == "website"@ {
            if !website_enabled {
                Err("Website capture not enabled - compile with 'website' feature"@)
            } else {
                match get_str(config, "url"@) {
                    Some(u) => Ok(PlanModel::Website(website_model(config, u))),
                    None => Err("Website stream config missing 'url' field"@),
                }
            }
        } else if kind == "yt"@ {
            match get_str(config, "url"@) {
                Some(u) => Ok(PlanModel::Yt(yt_model(config, u))),
                None => Err("yt stream config missing 'url' field"@),
            }
        } else if snapshot && kind == "rtsp"@ {
            match get_str(config, "url"@) {
                Some(u) => Ok(PlanModel::Ffmpeg(rtsp_model(config, u))),
                None => Err("RTSP stream config missing 'url' field"@),
            }
        } else {
            Err("Unsupported stream kind: "@ + kind)
        },
    }
}

/// `r` is the library's answer for the described result `spec`: the plan,
/// or a configuration error with the described text.
pub open spec fn answers(r: Result<CapturePlan, Error>, spec: Result<PlanModel, Seq<char>>) -> bool {
    match r {
        Ok(p) => spec == Ok::<PlanModel, Seq<char>>(p@),
        Err(e) => e is Config && spec == Err::<PlanModel, Seq<char>>(e.spec_detail()),
    }
}

// ---------------------------------------------------------------------------
// Reading the settings
// ---------------------------------------------------------------------------

fn text_member(config: &JsonValue, key: &str) -> (r: Option<String>)
    ensures
        opt_view(r) == get_str(*config, key@),
{
    match config.get(key) {
        Some(v) => match v.as_str() {
            Some(s) => Some(string_of(s)),
            None => None,
        },
        None => None,
    }
}

fn number_member(config: &JsonValue, key: &str) -> (r: Option<u64>)
    ensures
        r == get_u64(*config, key@),
{
    match config.get(key) {
        Some(v) => v.as_u64(),
        None => None,
    }
}

fn flag_member(config: &JsonValue, key: &str) -> (r: Option<bool>)
    ensures
        r == get_bool(*config, key@),
{
    match config.get(key) {
        Some(v) => v.as_bool(),
        None => None,
    }
}

fn narrow(n: Option<u64>) -> (r: Option<u32>)
    ensures
        r == narrowed_u32(n),
{
    match n {
        Some(t) => Some(t as u32),
        None => None,
    }
}

/// The string-valued members of an object's member list, in order.
fn string_pairs(es: &Vec<(String, JsonValue)>) -> (r: Vec<(String, String)>)
    ensures
        pairs_view(r@) == string_members(es@),
{
    let mut out: Vec<(String, String)> = Vec::new();
    let mut i: usize = 0;
    while i < es.len()
        invariant
            i <= es@.len(),
            pairs_view(out@) == string_members(es@.take(i as int)),
        decreases es@.len() - i,
    {
        let ghost prev = out@;
        assert(es@.take(i + 1).drop_last() =~= es@.take(i as int));
        assert(es@.take(i + 1).last() == es@[i as int]);
        match &es[i].1 {
            JsonValue::Str(s) => {
                out.push((es[i].0.clone(), s.clone()));
                assert(pairs_view(out@) =~= pairs_view(prev).push((es@[i as int].0@, s@)));
            },
            _ => {},
        }
        i += 1;
    }
    assert(es@.take(es@.len() as int) =~= es@);
    out
}

fn object_member_pairs(config: &JsonValue, key: &str) -> (r: Vec<(String, String)>)
    ensures
        pairs_view(r@) == object_string_members(json_get(*config, key@)),
{
    match config.get(key) {
        Some(JsonValue::Object(es)) => string_pairs(es),
        _ => {
            let v: Vec<(String, String)> = Vec::new();
            assert(pairs_view(v@) =~= Seq::empty());
            v
        },
    }
}

fn accel_of(name: &str) -> (r: HardwareAccel)
    ensures
        r == accel_named(unicode_lowercase(name@)),
{
    let lower = to_lowercase(name);
    let l = lower.as_str();
    if str_is(l, "vaapi") {
        HardwareAccel::Vaapi
    } else if str_is(l, "cuda") {
        HardwareAccel::Cuda
    } else if str_is(l, "qsv") {
        HardwareAccel::Qsv
    } else if str_is(l, "videotoolbox") {
        HardwareAccel::VideoToolbox
    } else {
        HardwareAccel::Disabled
    }
}

fn transport_of(name: &str) -> (r: RtspTransport)
    ensures
        r == transport_named(unicode_lowercase(name@)),
{
    let lower = to_lowercase(name);
    let l = lower.as_str();
    if str_is(l, "tcp") {
        RtspTransport::Tcp
    } else if str_is(l, "udp") {
        RtspTransport::Udp
    } else {
        RtspTransport::Auto
    }
}

fn format_id_chars(f: &[char]) -> (r: bool)
    ensures
        r == is_format_id(f@),
{
    let mut i: usize = 0;
    while i < f.len()
        invariant
            i <= f@.len(),
            forall|j: int| 0 <= j < i ==> is_unicode_numeric(#[trigger] f@[j]) || f@[j] == '+',
        decreases f@.len() - i,
    {
        if !(char_is_numeric(f[i]) || f[i] == '+') {
            return false;
        }
        i += 1;
    }
    true
}

/// The yt-dlp format a `format` setting names.
pub fn format_of(f: &str) -> (r: OutputFormat)
    ensures
        r@ == format_named(f@),
{
    let chars = str_chars(f);
    if str_is(f, "best") {
        OutputFormat::Best
    } else if str_is(f, "worst") {
        OutputFormat::Worst
    } else if format_id_chars(chars.as_slice()) {
        OutputFormat::FormatId(string_of(f))
    } else {
        let pre = str_chars("best[height<=");
        let post = str_chars("]");
        if starts_with(chars.as_slice(), pre.as_slice()) && ends_with(chars.as_slice(), post.as_slice()) {
            proof {
                reveal_strlit("best[height<=");
                reveal_strlit("]");
                assert(chars@.len() >= 14) by {
                    if chars@.len() == 13 {
                        assert(chars@.take(13)[12] == pre@[12]);
                        assert(chars@.skip(12)[0] == post@[0]);
                    }
                }
            }
            let part = sub_chars(chars.as_slice(), 13, chars.len() - 1);
            match parse_u32_chars(part.as_slice()) {
                Some(h) => OutputFormat::BestWithHeight(h),
                None => OutputFormat::Best,
            }
        } else {
            OutputFormat::Best
        }
    }
}

fn ffmpeg_plan(config: &JsonValue, url: String) -> (r: FfmpegPlan)
    ensures
        r@ == ffmpeg_model(*config, url@),
{
    let hardware_accel = match config.get("hardware_accel") {
        Some(v) => match v.as_str() {
            Some(h) => Some(accel_of(h)),
            None => None,
        },
        None => None,
    };
    let quality = match number_member(config, "quality") {
        Some(q) => Some(q as u8),
        None => None,
    };
    FfmpegPlan {
        input_url: url,
        hardware_accel,
        input_options: object_member_pairs(config, "input_options"),
        video_codec: text_member(config, "video_codec"),
        timeout: narrow(number_member(config, "timeout")),
        quality,
        rtsp_transport: None,
    }
}

fn rtsp_plan(config: &JsonValue, url: String) -> (r: FfmpegPlan)
    ensures
        r@ == rtsp_model(*config, url@),
{
    let transport = match config.get("transport") {
        Some(v) => match v.as_str() {
            Some(t) => transport_of(t),
            None => RtspTransport::Tcp,
        },
        None => RtspTransport::Tcp,
    };
    let timeout = match number_member(config, "timeout") {
        Some(t) => t as u32,
        None => 10,
    };
    let options: Vec<(String, String)> = Vec::new();
    let r = FfmpegPlan {
        input_url: url,
        hardware_accel: None,
        input_options: options,
        video_codec: None,
        timeout: Some(timeout),
        quality: None,
        rtsp_transport: Some(transport),
    };
    assert(pairs_view(r.input_options@) =~= Seq::empty());
    r
}

fn website_plan(config: &JsonValue, url: String) -> (r: WebsitePlan)
    ensures
        r@ == website_model(*config, url@),
{
    WebsitePlan {
        url,
        headless: flag_member(config, "headless"),
        stealth: flag_member(config, "stealth"),
        width: narrow(number_member(config, "width")),
        height: narrow(number_member(config, "height")),
        element_selector: text_member(config, "element_selector"),
        basic_auth_username: text_member(config, "basic_auth_username"),
        basic_auth_password: text_member(config, "basic_auth_password"),
    }
}

fn yt_plan(config: &JsonValue, url: String) -> (r: YtPlan)
    ensures
        r@ == yt_model(*config, url@),
{
    let format = match config.get("format") {
        Some(v) => match v.as_str() {
            Some(f) => Some(format_of(f)),
            None => None,
        },
        None => None,
    };
    YtPlan {
        url,
        format,
        is_live: flag_member(config, "is_live"),
        timeout: narrow(number_member(config, "timeout")),
        options: object_member_pairs(config, "options"),
    }
}

fn config_error(msg: &str) -> (r: Result<CapturePlan, String>)
    ensures
        r matches Err(m) && m@ == msg@,
{
    Err(string_of(msg))
}

/// The capture a parsed configuration describes (see `capture_plan_of`).
fn plan_from_config(config: &JsonValue, website_enabled: bool, snapshot: bool) -> (r: Result<
    CapturePlan,
    String,
>)
    ensures
        match r {
            Ok(p) => capture_plan_of(*config, website_enabled, snapshot) == Ok::<
                PlanModel,
                Seq<char>,
            >(p@),
            Err(m) => capture_plan_of(*config, website_enabled, snapshot) == Err::<
                PlanModel,
                Seq<char>,
            >(m@),
        },
{
    let kind = match config.get("kind") {
        Some(v) => match v.as_str() {
            Some(k) => k,
            None => return config_error("Stream config missing 'kind' field"),
        },
        None => return config_error("Stream config missing 'kind' field"),
    };
    if str_is(kind, "file") {
        match text_member(config, "file_path") {
            Some(p) => Ok(CapturePlan::File(p)),
            None => if snapshot {
                config_error("File stream config missing 'file_path' field")
            } else {
                config_error("Missing file_path")
            },
        }
    } else if str_is(kind, "ffmpeg") {
        match text_member(config, "source_url") {
            Some(u) => Ok(CapturePlan::Ffmpeg(ffmpeg_plan(config, u))),
            None => config_error("FFmpeg stream config missing 'source_url' field"),
        }
    } else if str_is(kind, "website") {
        if !website_enabled {
            config_error("Website capture not enabled - compile with 'website' feature")
        } else {
            match text_member(config, "url") {
                Some(u) => Ok(CapturePlan::Website(website_plan(config, u))),
                None => config_error("Website stream config missing 'url' field"),
            }
        }
    } else if str_is(kind, "yt") {
        match text_member(config, "url") {
            Some(u) => Ok(CapturePlan::Yt(yt_plan(config, u))),
            None => config_error("yt stream config missing 'url' field"),
        }
    } else if snapshot && str_is(kind, "rtsp") {
        match text_member(config, "url") {
            Some(u) => Ok(CapturePlan::Ffmpeg(rtsp_plan(config, u))),
            None => config_error("RTSP stream config missing 'url' field"),
        }
    } else {
        Err(join_str("Unsupported stream kind: ", kind))
    }
}

fn as_config_error(r: Result<CapturePlan, String>) -> (out: Result<CapturePlan, Error>)
    ensures
        match r {
            Ok(p) => out == Ok::<CapturePlan, Error>(p),
            Err(m) => out matches Err(Error::Config(n)) && n@ == m@,
        },
{
    match r {
        Ok(p) => Ok(p),
        Err(m) => Err(Error::Config(m)),
    }
}

/// The text of a configuration that does not parse as JSON.
pub open spec fn invalid_json_text(parse_error: Seq<char>) -> Seq<char> {
    "Invalid stream config JSON: "@ + parse_error
}

/// The capture source for starting a stream from its stored configuration.
/// `config` is the configuration parsed as JSON, or the parser's message
/// when it does not parse.
pub fn create_capture_source_from_stream(
    config: Result<JsonValue, String>,
    website_enabled: bool,
) -> (r: Result<CapturePlan, Error>)
    ensures
        match config {
            Err(e) => r matches Err(Error::Config(m)) && m@ == invalid_json_text(e@),
            Ok(c) => answers(r, capture_plan_of(c, website_enabled, false)),
        },
{
    match config {
        Err(e) => Err(Error::Config(join_str("Invalid stream config JSON: ", e.as_str()))),
        Ok(c) => as_config_error(plan_from_config(&c, website_enabled, false)),
    }
}

/// The capture that takes an on-demand snapshot of stream `stream_id` when
/// no recent frame is at hand.  `stored` is the stream's configuration as
/// the store holds it (`None` when there is no such stream), parsed as
/// JSON or the parser's message.
pub fn take_snapshot_plan(
    stream_id: &str,
    stored: Option<Result<JsonValue, String>>,
    website_enabled: bool,
) -> (r: Result<CapturePlan, Error>)
    ensures
        match stored {
            None => r matches Err(Error::NotFound(m)) && m@ == "Stream "@ + stream_id@
                + " not found"@,
            Some(Err(e)) => r matches Err(Error::Config(m)) && m@ == invalid_json_text(e@),
            Some(Ok(c)) => answers(r, capture_plan_of(c, website_enabled, true)),
        },
{
    match stored {
        None => Err(Error::NotFound(join3("Stream ", stream_id, " not found"))),
        Some(Err(e)) => Err(Error::Config(join_str("Invalid stream config JSON: ", e.as_str()))),
        Some(Ok(c)) => as_config_error(plan_from_config(&c, website_enabled, true)),
    }
}

} // verus!
