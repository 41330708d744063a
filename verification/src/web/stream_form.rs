//! The stream form of the administration pages: turning a submitted form
//! into a stored configuration, and a stored configuration back into the
//! form's fields.
use vstd::prelude::*;

use crate::text::{str_is, string_of};
use crate::web::json::{entry_lookup, get_bool, get_str, get_u64, json_get, JsonNumber, JsonValue};
use crate::web::streams::{opt_view, StoredStream};

verus! {

/// The fields of a submitted stream form (checkboxes arrive as present or
/// absent text).
#[derive(Debug)]
pub struct StreamCreateForm {
    pub name: String,
    pub description: Option<String>,
    pub config_kind: String,
    pub is_default: Option<String>,
    pub snapshot_interval: Option<u32>,
    pub rtsp_url: Option<String>,
    pub rtsp_width: Option<u32>,
    pub rtsp_height: Option<u32>,
    pub ffmpeg_source: Option<String>,
    pub ffmpeg_args: Option<String>,
    pub ffmpeg_width: Option<u32>,
    pub ffmpeg_height: Option<u32>,
    pub file_path: Option<String>,
    pub website_url: Option<String>,
    pub website_width: Option<u32>,
    pub website_height: Option<u32>,
    pub website_timeout: Option<u32>,
    pub element_selector: Option<String>,
    pub selector_type: Option<String>,
    pub headless: Option<String>,
    pub stealth: Option<String>,
    pub auth_username: Option<String>,
    pub auth_password: Option<String>,
    pub youtube_url: Option<String>,
    pub youtube_format: Option<String>,
    pub youtube_is_live: Option<String>,
    /// Older name of `snapshot_interval`.
    pub capture_interval: Option<u32>,
}

/// A scalar member of a configuration object.
pub enum Leaf {
    Text(Seq<char>),
    Num(u64),
    Flag(bool),
}

/// The scalar a JSON value holds, if it is one.
pub open spec fn leaf_of(v: JsonValue) -> Option<Leaf> {
    match v {
        JsonValue::Str(s) => Some(Leaf::Text(s@)),
        JsonValue::Number(JsonNumber::PosInt(n)) => Some(Leaf::Num(n)),
        JsonValue::Bool(b) => Some(Leaf::Flag(b)),
        _ => None,
    }
}

/// `es` holds exactly the members `want`, in that order.
pub open spec fn holds_members(es: Seq<(String, JsonValue)>, want: Seq<(Seq<char>, Leaf)>) -> bool {
    &&& es.len() == want.len()
    &&& forall|i: int|
        0 <= i < es.len() ==> (#[trigger] es[i]).0@ == want[i].0 && leaf_of(es[i].1) == Some(
            want[i].1,
        )
}

/// The text of an optional field, empty when absent.
pub open spec fn or_empty(o: Option<String>) -> Seq<char> {
    match o {
        Some(s) => s@,
        None => Seq::empty(),
    }
}

/// The value of an optional number, `d` when absent.
pub open spec fn num_or(o: Option<u32>, d: u32) -> u64 {
    match o {
        Some(n) => n as u64,
        None => d as u64,
    }
}

/// A text member for an optional field that is given and not empty; nothing
/// otherwise.
pub open spec fn optional_member(key: Seq<char>, o: Option<String>) -> Seq<(Seq<char>, Leaf)> {
    match o {
        Some(s) => if s@.len() > 0 {
            seq![(key, Leaf::Text(s@))]
        } else {
            Seq::empty()
        },
        None => Seq::empty(),
    }
}

/// How often the form asks for snapshots: `snapshot_interval`, else the
/// older `capture_interval`, else every 30 seconds.
pub open spec fn form_interval(form: StreamCreateForm) -> u32 {
    match form.snapshot_interval {
        Some(n) => n,
        None => match form.capture_interval {
            Some(n) => n,
            None => 30,
        },
    }
}

/// The snapshot-interval member every configuration ends its fixed part
/// with.
pub open spec fn interval_member(interval: u32) -> (Seq<char>, Leaf) {
    ("snapshot_interval_seconds"@, Leaf::Num(interval as u64))
}

/// The members of an `rtsp` configuration.
pub open spec fn rtsp_members(
    url: Option<String>,
    width: Option<u32>,
    height: Option<u32>,
    interval: u32,
) -> Seq<(Seq<char>, Leaf)> {
    seq![
        ("kind"@, Leaf::Text("rtsp"@)),
        ("url"@, Leaf::Text(or_empty(url))),
        ("width"@, Leaf::Num(num_or(width, 1920))),
        ("height"@, Leaf::Num(num_or(height, 1080))),
        interval_member(interval),
    ]
}

/// The members of a `file` configuration.
pub open spec fn file_members(path: Option<String>, interval: u32) -> Seq<(Seq<char>, Leaf)> {
    seq![
        ("kind"@, Leaf::Text("file"@)),
        ("file_path"@, Leaf::Text(or_empty(path))),
        interval_member(interval),
    ]
}

/// The fixed members of a `website` configuration.
pub open spec fn website_base_members(
    url: Option<String>,
    width: Option<u32>,
    height: Option<u32>,
    timeout: Option<u32>,
    headless: bool,
    stealth: bool,
    selector_type: Option<String>,
    interval: u32,
) -> Seq<(Seq<char>, Leaf)> {
    seq![
        ("kind"@, Leaf::Text("website"@)),
        ("url"@, Leaf::Text(or_empty(url))),
        ("width"@, Leaf::Num(num_or(width, 1920))),
        ("height"@, Leaf::Num(num_or(height, 1080))),
        ("timeout"@, Leaf::Num(num_or(timeout, 30))),
        ("headless"@, Leaf::Flag(headless)),
        ("stealth"@, Leaf::Flag(stealth)),
        ("selector_type"@, Leaf::Text(
            match selector_type {
                Some(t) => t@,
                None => "css"@,
            },
        )),
        interval_member(interval),
    ]
}

/// The members of an `ffmpeg` configuration.
pub open spec fn ffmpeg_members(
    source: Option<String>,
    args: Option<String>,
    width: Option<u32>,
    height: Option<u32>,
    interval: u32,
) -> Seq<(Seq<char>, Leaf)> {
    seq![
        ("kind"@, Leaf::Text("ffmpeg"@)),
        ("source"@, Leaf::Text(or_empty(source))),
        ("args"@, Leaf::Text(or_empty(args))),
        ("width"@, Leaf::Num(num_or(width, 1920))),
        ("height"@, Leaf::Num(num_or(height, 1080))),
        interval_member(interval),
    ]
}

/// The members of a `youtube` configuration.
pub open spec fn youtube_members(
    url: Option<String>,
    format: Option<String>,
    is_live: bool,
    interval: u32,
) -> Seq<(Seq<char>, Leaf)> {
    seq![
        ("kind"@, Leaf::Text("youtube"@)),
        ("url"@, Leaf::Text(or_empty(url))),
        ("format"@, Leaf::Text(
            match format {
                Some(f) => f@,
                None => "best"@,
            },
        )),
        ("is_live"@, Leaf::Flag(is_live)),
        interval_member(interval),
    ]
}

/// The members of the configuration a form describes, in order; `None` for
/// a stream type the form does not know.  Empty optional texts of the
/// `website` type are left out.
pub open spec fn form_members(form: StreamCreateForm) -> Option<Seq<(Seq<char>, Leaf)>> {
    let kind = form.config_kind@;
    let interval = form_interval(form);
    if kind == "rtsp"@ {
        Some(rtsp_members(form.rtsp_url, form.rtsp_width, form.rtsp_height, interval))
    } else if kind == "file"@ {
        Some(file_members(form.file_path, interval))
    } else if kind == "website"@ {
        Some(
            website_base_members(
                form.website_url,
                form.website_width,
                form.website_height,
                form.website_timeout,
                form.headless is Some,
                form.stealth is Some,
                form.selector_type,
                interval,
            ) + optional_member("element_selector"@, form.element_selector) + optional_member(
                "auth_username"@,
                form.auth_username,
            ) + optional_member("auth_password"@, form.auth_password),
        )
    } else if kind == "ffmpeg"@ {
        Some(
            ffmpeg_members(
                form.ffmpeg_source,
                form.ffmpeg_args,
                form.ffmpeg_width,
                form.ffmpeg_height,
                interval,
            ),
        )
    } else if kind == "youtube"@ {
        Some(youtube_members(form.youtube_url, form.youtube_format, form.youtube_is_live is Some, interval))
    } else {
        None
    }
}

/// A non-empty optional text; empty text counts as absent.
pub open spec fn non_empty(o: Option<String>) -> Option<Seq<char>> {
    match o {
        Some(s) => if s@.len() > 0 {
            Some(s@)
        } else {
            None
        },
        None => None,
    }
}

/// What a stream form asks to store.
#[derive(Debug)]
pub struct StreamDraft {
    pub name: String,
    pub description: Option<String>,
    pub config: JsonValue,
    pub is_default: bool,
}

// ---------------------------------------------------------------------------
// Building the configuration
// ---------------------------------------------------------------------------

fn push_text(es: &mut Vec<(String, JsonValue)>, key: &str, value: String)
    ensures
        final(es)@.len() == old(es)@.len() + 1,
        final(es)@.drop_last() == old(es)@,
        final(es)@.last().0@ == key@,
        final(es)@.last().1 == JsonValue::Str(value),
{
    es.push((string_of(key), JsonValue::Str(value)));
    proof {
        assert(es@.drop_last() =~= old(es)@);
    }
}

fn push_num(es: &mut Vec<(String, JsonValue)>, key: &str, value: u32)
    ensures
        final(es)@.len() == old(es)@.len() + 1,
        final(es)@.drop_last() == old(es)@,
        final(es)@.last().0@ == key@,
        final(es)@.last().1 == JsonValue::Number(JsonNumber::PosInt(value as u64)),
{
    es.push((string_of(key), JsonValue::Number(JsonNumber::PosInt(value as u64))));
    proof {
        assert(es@.drop_last() =~= old(es)@);
    }
}

fn push_flag(es: &mut Vec<(String, JsonValue)>, key: &str, value: bool)
    ensures
        final(es)@.len() == old(es)@.len() + 1,
        final(es)@.drop_last() == old(es)@,
        final(es)@.last().0@ == key@,
        final(es)@.last().1 == JsonValue::Bool(value),
{
    es.push((string_of(key), JsonValue::Bool(value)));
    proof {
        assert(es@.drop_last() =~= old(es)@);
    }
}

/// Adding a member keeps `holds_members` in step.
proof fn lemma_holds_push(
    es: Seq<(String, JsonValue)>,
    want: Seq<(Seq<char>, Leaf)>,
    next: Seq<(String, JsonValue)>,
    w: (Seq<char>, Leaf),
)
    requires
        holds_members(es, want),
        next.len() == es.len() + 1,
        next.drop_last() == es,
        next.last().0@ == w.0,
        leaf_of(next.last().1) == Some(w.1),
    ensures
        holds_members(next, want.push(w)),
{
    assert forall|i: int| 0 <= i < next.len() implies (#[trigger] next[i]).0@ == want.push(w)[i].0
        && leaf_of(next[i].1) == Some(want.push(w)[i].1) by {
        if i < es.len() {
            assert(next[i] == next.drop_last()[i]);
            assert(next[i] == es[i]);
        }
    }
}

fn push_optional(es: &mut Vec<(String, JsonValue)>, key: &str, o: Option<String>, Ghost(
    want,
): Ghost<Seq<(Seq<char>, Leaf)>>)
    requires
        holds_members(old(es)@, want),
    ensures
        holds_members(final(es)@, want + optional_member(key@, o)),
{
    match o {
        Some(s) => {
            if s.as_str().unicode_len() > 0 {
                let ghost text = s@;
                let ghost before = es@;
                push_text(es, key, s);
                proof {
                    lemma_holds_push(before, want, es@, (key@, Leaf::Text(text)));
                    assert(want + optional_member(key@, o) =~= want.push((key@, Leaf::Text(text))));
                }
            } else {
                assert(want + optional_member(key@, o) =~= want);
            }
        },
        None => {
            assert(want + optional_member(key@, o) =~= want);
        },
    }
}

fn text_or_default(o: Option<String>, d: &str) -> (r: String)
    ensures
        r@ == match o {
            Some(s) => s@,
            None => d@,
        },
{
    match o {
        Some(s) => s,
        None => string_of(d),
    }
}

fn empty_if_none(o: Option<String>) -> (r: String)
    ensures
        r@ == or_empty(o),
{
    proof {
        reveal_strlit("");
        assert(""@ =~= Seq::<char>::empty());
    }
    text_or_default(o, "")
}

fn u32_or(o: Option<u32>, d: u32) -> (r: u32)
    ensures
        r as u64 == num_or(o, d),
{
    match o {
        Some(n) => n,
        None => d,
    }
}

fn rtsp_config(url: Option<String>, width: Option<u32>, height: Option<u32>, interval: u32) -> (es:
    Vec<(String, JsonValue)>)
    ensures
        holds_members(es@, rtsp_members(url, width, height, interval)),
{
    let mut es: Vec<(String, JsonValue)> = Vec::new();
    let ghost mut want: Seq<(Seq<char>, Leaf)> = Seq::empty();
    let u = empty_if_none(url);
    let ghost ut = u@;
    let ghost e = es@;
    push_text(&mut es, "kind", string_of("rtsp"));
    proof {
        lemma_holds_push(e, want, es@, ("kind"@, Leaf::Text("rtsp"@)));
        want = want.push(("kind"@, Leaf::Text("rtsp"@)));
    }
    let ghost e = es@;
    push_text(&mut es, "url", u);
    proof {
        lemma_holds_push(e, want, es@, ("url"@, Leaf::Text(ut)));
        want = want.push(("url"@, Leaf::Text(ut)));
    }
    let w = u32_or(width, 1920);
    let ghost e = es@;
    push_num(&mut es, "width", w);
    proof {
        lemma_holds_push(e, want, es@, ("width"@, Leaf::Num(w as u64)));
        want = want.push(("width"@, Leaf::Num(w as u64)));
    }
    let h = u32_or(height, 1080);
    let ghost e = es@;
    push_num(&mut es, "height", h);
    proof {
        lemma_holds_push(e, want, es@, ("height"@, Leaf::Num(h as u64)));
        want = want.push(("height"@, Leaf::Num(h as u64)));
    }
    let ghost e = es@;
    push_num(&mut es, "snapshot_interval_seconds", interval);
    proof {
        lemma_holds_push(e, want, es@, interval_member(interval));
        want = want.push(interval_member(interval));
        assert(want =~= rtsp_members(url, width, height, interval));
    }
    es
}

fn file_config(path: Option<String>, interval: u32) -> (es: Vec<(String, JsonValue)>)
    ensures
        holds_members(es@, file_members(path, interval)),
{
    let mut es: Vec<(String, JsonValue)> = Vec::new();
    let ghost mut want: Seq<(Seq<char>, Leaf)> = Seq::empty();
    let p = empty_if_none(path);
    let ghost pt = p@;
    let ghost e = es@;
    push_text(&mut es, "kind", string_of("file"));
    proof {
        lemma_holds_push(e, want, es@, ("kind"@, Leaf::Text("file"@)));
        want = want.push(("kind"@, Leaf::Text("file"@)));
    }
    let ghost e = es@;
    push_text(&mut es, "file_path", p);
    proof {
        lemma_holds_push(e, want, es@, ("file_path"@, Leaf::Text(pt)));
        want = want.push(("file_path"@, Leaf::Text(pt)));
    }
    let ghost e = es@;
    push_num(&mut es, "snapshot_interval_seconds", interval);
    proof {
        lemma_holds_push(e, want, es@, interval_member(interval));
        want = want.push(interval_member(interval));
        assert(want =~= file_members(path, interval));
    }
    es
}

fn website_base_config(
    url: Option<String>,
    width: Option<u32>,
    height: Option<u32>,
    timeout: Option<u32>,
    headless: bool,
    stealth: bool,
    selector_type: Option<String>,
    interval: u32,
) -> (es: Vec<(String, JsonValue)>)
    ensures
        holds_members(
            es@,
            website_base_members(url, width, height, timeout, headless, stealth, selector_type, interval),
        ),
{
    let mut es: Vec<(String, JsonValue)> = Vec::new();
    let ghost mut want: Seq<(Seq<char>, Leaf)> = Seq::empty();
    let u = empty_if_none(url);
    let ghost ut = u@;
    let ghost e = es@;
    push_text(&mut es, "kind", string_of("website"));
    proof {
        lemma_holds_push(e, want, es@, ("kind"@, Leaf::Text("website"@)));
        want = want.push(("kind"@, Leaf::Text("website"@)));
    }
    let ghost e = es@;
    push_text(&mut es, "url", u);
    proof {
        lemma_holds_push(e, want, es@, ("url"@, Leaf::Text(ut)));
        want = want.push(("url"@, Leaf::Text(ut)));
    }
    let w = u32_or(width, 1920);
    let ghost e = es@;
    push_num(&mut es, "width", w);
    proof {
        lemma_holds_push(e, want, es@, ("width"@, Leaf::Num(w as u64)));
        want = want.push(("width"@, Leaf::Num(w as u64)));
    }
    let h = u32_or(height, 1080);
    let ghost e = es@;
    push_num(&mut es, "height", h);
    proof {
        lemma_holds_push(e, want, es@, ("height"@, Leaf::Num(h as u64)));
        want = want.push(("height"@, Leaf::Num(h as u64)));
    }
    let t = u32_or(timeout, 30);
    let ghost e = es@;
    push_num(&mut es, "timeout", t);
    proof {
        lemma_holds_push(e, want, es@, ("timeout"@, Leaf::Num(t as u64)));
        want = want.push(("timeout"@, Leaf::Num(t as u64)));
    }
    let ghost e = es@;
    push_flag(&mut es, "headless", headless);
    proof {
        lemma_holds_push(e, want, es@, ("headless"@, Leaf::Flag(headless)));
        want = want.push(("headless"@, Leaf::Flag(headless)));
    }
    let ghost e = es@;
    push_flag(&mut es, "stealth", stealth);
    proof {
        lemma_holds_push(e, want, es@, ("stealth"@, Leaf::Flag(stealth)));
        want = want.push(("stealth"@, Leaf::Flag(stealth)));
    }
    let st = text_or_default(selector_type, "css");
    let ghost stt = st@;
    let ghost e = es@;
    push_text(&mut es, "selector_type", st);
    proof {
        lemma_holds_push(e, want, es@, ("selector_type"@, Leaf::Text(stt)));
        want = want.push(("selector_type"@, Leaf::Text(stt)));
    }
    let ghost e = es@;
    push_num(&mut es, "snapshot_interval_seconds", interval);
    proof {
        lemma_holds_push(e, want, es@, interval_member(interval));
        want = want.push(interval_member(interval));
        assert(want =~= website_base_members(
            url,
            width,
            height,
            timeout,
            headless,
            stealth,
            selector_type,
            interval,
        ));
    }
    es
}

fn ffmpeg_config(
    source: Option<String>,
    args: Option<String>,
    width: Option<u32>,
    height: Option<u32>,
    interval: u32,
) -> (es: Vec<(String, JsonValue)>)
    ensures
        holds_members(es@, ffmpeg_members(source, args, width, height, interval)),
{
    let mut es: Vec<(String, JsonValue)> = Vec::new();
    let ghost mut want: Seq<(Seq<char>, Leaf)> = Seq::empty();
    let src = empty_if_none(source);
    let ghost srct = src@;
    let a = empty_if_none(args);
    let ghost at = a@;
    let ghost e = es@;
    push_text(&mut es, "kind", string_of("ffmpeg"));
    proof {
        lemma_holds_push(e, want, es@, ("kind"@, Leaf::Text("ffmpeg"@)));
        want = want.push(("kind"@, Leaf::Text("ffmpeg"@)));
    }
    let ghost e = es@;
    push_text(&mut es, "source", src);
    proof {
        lemma_holds_push(e, want, es@, ("source"@, Leaf::Text(srct)));
        want = want.push(("source"@, Leaf::Text(srct)));
    }
    let ghost e = es@;
    push_text(&mut es, "args", a);
    proof {
        lemma_holds_push(e, want, es@, ("args"@, Leaf::Text(at)));
        want = want.push(("args"@, Leaf::Text(at)));
    }
    let w = u32_or(width, 1920);
    let ghost e = es@;
    push_num(&mut es, "width", w);
    proof {
        lemma_holds_push(e, want, es@, ("width"@, Leaf::Num(w as u64)));
        want = want.push(("width"@, Leaf::Num(w as u64)));
    }
    let h = u32_or(height, 1080);
    let ghost e = es@;
    push_num(&mut es, "height", h);
    proof {
        lemma_holds_push(e, want, es@, ("height"@, Leaf::Num(h as u64)));
        want = want.push(("height"@, Leaf::Num(h as u64)));
    }
    let ghost e = es@;
    push_num(&mut es, "snapshot_interval_seconds", interval);
    proof {
        lemma_holds_push(e, want, es@, interval_member(interval));
        want = want.push(interval_member(interval));
        assert(want =~= ffmpeg_members(source, args, width, height, interval));
    }
    es
}

fn youtube_config(url: Option<String>, format: Option<String>, is_live: bool, interval: u32) -> (es:
    Vec<(String, JsonValue)>)
    ensures
        holds_members(es@, youtube_members(url, format, is_live, interval)),
{
    let mut es: Vec<(String, JsonValue)> = Vec::new();
    let ghost mut want: Seq<(Seq<char>, Leaf)> = Seq::empty();
    let u = empty_if_none(url);
    let ghost ut = u@;
    let f = text_or_default(format, "best");
    let ghost ft = f@;
    let ghost e = es@;
    push_text(&mut es, "kind", string_of("youtube"));
    proof {
        lemma_holds_push(e, want, es@, ("kind"@, Leaf::Text("youtube"@)));
        want = want.push(("kind"@, Leaf::Text("youtube"@)));
    }
    let ghost e = es@;
    push_text(&mut es, "url", u);
    proof {
        lemma_holds_push(e, want, es@, ("url"@, Leaf::Text(ut)));
        want = want.push(("url"@, Leaf::Text(ut)));
    }
    let ghost e = es@;
    push_text(&mut es, "format", f);
    proof {
        lemma_holds_push(e, want, es@, ("format"@, Leaf::Text(ft)));
        want = want.push(("format"@, Leaf::Text(ft)));
    }
    let ghost e = es@;
    push_flag(&mut es, "is_live", is_live);
    proof {
        lemma_holds_push(e, want, es@, ("is_live"@, Leaf::Flag(is_live)));
        want = want.push(("is_live"@, Leaf::Flag(is_live)));
    }
    let ghost e = es@;
    push_num(&mut es, "snapshot_interval_seconds", interval);
    proof {
        lemma_holds_push(e, want, es@, interval_member(interval));
        want = want.push(interval_member(interval));
        assert(want =~= youtube_members(url, format, is_live, interval));
    }
    es
}

/// The configuration members of a known stream type (see `form_members`).
fn form_config(form: StreamCreateForm) -> (r: Option<Vec<(String, JsonValue)>>)
    ensures
        match r {
            Some(es) => form_members(form) matches Some(want) && holds_members(es@, want),
            None => form_members(form) is None,
        },
{
    let interval: u32 = match form.snapshot_interval {
        Some(n) => n,
        None => match form.capture_interval {
            Some(n) => n,
            None => 30,
        },
    };
    let kind = form.config_kind.as_str();
    if str_is(kind, "rtsp") {
        Some(rtsp_config(form.rtsp_url, form.rtsp_width, form.rtsp_height, interval))
    } else if str_is(kind, "file") {
        Some(file_config(form.file_path, interval))
    } else if str_is(kind, "website") {
        let mut es = website_base_config(
            form.website_url,
            form.website_width,
            form.website_height,
            form.website_timeout,
            form.headless.is_some(),
            form.stealth.is_some(),
            form.selector_type,
            interval,
        );
        let ghost base = website_base_members(
            form.website_url,
            form.website_width,
            form.website_height,
            form.website_timeout,
            form.headless is Some,
            form.stealth is Some,
            form.selector_type,
            interval,
        );
        let ghost w1 = base + optional_member("element_selector"@, form.element_selector);
        let ghost w2 = w1 + optional_member("auth_username"@, form.auth_username);
        push_optional(&mut es, "element_selector", form.element_selector, Ghost(base));
        push_optional(&mut es, "auth_username", form.auth_username, Ghost(w1));
        push_optional(&mut es, "auth_password", form.auth_password, Ghost(w2));
        Some(es)
    } else if str_is(kind, "ffmpeg") {
        Some(
            ffmpeg_config(
                form.ffmpeg_source,
                form.ffmpeg_args,
                form.ffmpeg_width,
                form.ffmpeg_height,
                interval,
            ),
        )
    } else if str_is(kind, "youtube") {
        Some(youtube_config(form.youtube_url, form.youtube_format, form.youtube_is_live.is_some(), interval))
    } else {
        None
    }
}

/// What a submitted stream form asks to store, for creating and for
/// editing a stream alike: the configuration its stream type describes
/// (see `form_members`), the name, the description unless empty, and
/// whether the default box was ticked.  `None` for a stream type the form
/// does not know ("Invalid stream type").
pub fn stream_draft_from_form(form: StreamCreateForm) -> (r: Option<StreamDraft>)
    ensures
        match r {
            Some(d) => form_members(form) matches Some(want) && d.config matches JsonValue::Object(
                es,
            ) && holds_members(es@, want) && d.name@ == form.name@ && opt_view(d.description)
                == non_empty(form.description) && d.is_default == (form.is_default is Some),
            None => form_members(form) is None,
        },
{
    let ghost f = form;
    let name = form.name;
    let description = match form.description {
        Some(d) => if d.as_str().unicode_len() > 0 {
            Some(d)
        } else {
            None
        },
        None => None,
    };
    let is_default = form.is_default.is_some();
    let rest = StreamCreateForm { name: String::new(), description: None, ..form };
    proof {
        assert(form_members(rest) == form_members(f));
    }
    match form_config(rest) {
        Some(es) => Some(StreamDraft { name, description, config: JsonValue::Object(es), is_default }),
        None => None,
    }
}

// ---------------------------------------------------------------------------
// The edit form of a stored stream
// ---------------------------------------------------------------------------

/// The fields of the stream form, filled for a new or a stored stream.
#[derive(Debug)]
pub struct StreamConfigForEdit {
    pub id: String,
    pub name: String,
    pub description: String,
    pub config_kind: String,
    pub is_default: bool,
    pub snapshot_interval: u32,
    pub width: u32,
    pub height: u32,
    pub rtsp_url: String,
    pub ffmpeg_source: String,
    pub ffmpeg_args: String,
    pub file_path: String,
    pub website_url: String,
    pub website_width: u32,
    pub website_height: u32,
    pub website_timeout: u32,
    pub element_selector: String,
    pub selector_type: String,
    pub headless: bool,
    pub stealth: bool,
    pub auth_username: String,
    pub auth_password: String,
    pub youtube_url: String,
    pub youtube_format: String,
    pub youtube_is_live: bool,
    /// Older name of `snapshot_interval`, kept equal to it.
    pub capture_interval: u32,
}

impl StreamConfigForEdit {
    /// The form of a new stream: a snapshot every 30 seconds, 1920x1080,
    /// a headless browser without stealth and CSS selectors, and the best
    /// yt-dlp format.
    pub fn empty() -> (r: Self)
        ensures
            r.id@.len() == 0 && r.name@.len() == 0 && r.description@.len() == 0,
            r.config_kind@.len() == 0,
            !r.is_default,
            r.snapshot_interval == 30 && r.width == 1920 && r.height == 1080,
            r.rtsp_url@.len() == 0 && r.ffmpeg_source@.len() == 0 && r.ffmpeg_args@.len() == 0,
            r.file_path@.len() == 0 && r.website_url@.len() == 0,
            r.website_width == 1920 && r.website_height == 1080 && r.website_timeout == 30,
            r.element_selector@.len() == 0,
            r.selector_type@ == "css"@,
            r.headless && !r.stealth,
            r.auth_username@.len() == 0 && r.auth_password@.len() == 0,
            r.youtube_url@.len() == 0,
            r.youtube_format@ == "best"@,
            !r.youtube_is_live,
            r.capture_interval == r.snapshot_interval,
    {
        StreamConfigForEdit {
            id: String::new(),
            name: String::new(),
            description: String::new(),
            config_kind: String::new(),
            is_default: false,
            snapshot_interval: 30,
            width: 1920,
            height: 1080,
            rtsp_url: String::new(),
            ffmpeg_source: String::new(),
            ffmpeg_args: String::new(),
            file_path: String::new(),
            website_url: String::new(),
            website_width: 1920,
            website_height: 1080,
            website_timeout: 30,
            element_selector: String::new(),
            selector_type: string_of("css"),
            headless: true,
            stealth: false,
            auth_username: String::new(),
            auth_password: String::new(),
            youtube_url: String::new(),
            youtube_format: string_of("best"),
            youtube_is_live: false,
            capture_interval: 30,
        }
    }
}

/// The text member `key` of a configuration, else `d`.
pub open spec fn text_or(config: JsonValue, key: Seq<char>, d: Seq<char>) -> Seq<char> {
    match get_str(config, key) {
        Some(s) => s,
        None => d,
    }
}

/// The number member `key` of a configuration narrowed to `u32` by `as`,
/// else `d`.
pub open spec fn num_member_or(config: JsonValue, key: Seq<char>, d: u64) -> u32 {
    (match get_u64(config, key) {
        Some(n) => n,
        None => d,
    }) as u32
}

/// The flag member `key` of a configuration, else `d`.
pub open spec fn flag_or(config: JsonValue, key: Seq<char>, d: bool) -> bool {
    match get_bool(config, key) {
        Some(b) => b,
        None => d,
    }
}

/// The stream type of a stored configuration (`file` when it names none).
pub open spec fn edit_kind(config: JsonValue) -> Seq<char> {
    text_or(config, "kind"@, "file"@)
}

/// The snapshot interval of a stored configuration: the member
/// `snapshot_interval_seconds` if present, else the older
/// `capture_interval_seconds`; 30 when that member is absent or not a
/// number.
pub open spec fn edit_interval(config: JsonValue) -> u32 {
    let m = match json_get(config, "snapshot_interval_seconds"@) {
        Some(v) => Some(v),
        None => json_get(config, "capture_interval_seconds"@),
    };
    (match m {
        Some(JsonValue::Number(JsonNumber::PosInt(n))) => n,
        _ => 30,
    }) as u32
}

/// The address field of the form for stream type `k`: the `url` member
/// when the stored type is one of `kinds`, empty otherwise.
pub open spec fn url_for(config: JsonValue, of_kind: bool) -> Seq<char> {
    if of_kind {
        text_or(config, "url"@, Seq::empty())
    } else {
        Seq::empty()
    }
}

fn text_or_exec(config: &JsonValue, key: &str, d: &str) -> (r: String)
    ensures
        r@ == text_or(*config, key@, d@),
{
    match config.get(key) {
        Some(v) => match v.as_str() {
            Some(s) => string_of(s),
            None => string_of(d),
        },
        None => string_of(d),
    }
}

fn num_or_exec(config: &JsonValue, key: &str, d: u64) -> (r: u32)
    ensures
        r == num_member_or(*config, key@, d),
{
    let n = match config.get(key) {
        Some(v) => match v.as_u64() {
            Some(n) => n,
            None => d,
        },
        None => d,
    };
    n as u32
}

fn flag_or_exec(config: &JsonValue, key: &str, d: bool) -> (r: bool)
    ensures
        r == flag_or(*config, key@, d),
{
    match config.get(key) {
        Some(v) => match v.as_bool() {
            Some(b) => b,
            None => d,
        },
        None => d,
    }
}

fn url_for_exec(config: &JsonValue, of_kind: bool) -> (r: String)
    ensures
        r@ == url_for(*config, of_kind),
{
    proof {
        reveal_strlit("");
        assert(""@ =~= Seq::<char>::empty());
    }
    if of_kind {
        text_or_exec(config, "url", "")
    } else {
        string_of("")
    }
}

/// The form fields of a stored stream whose configuration text parsed to
/// `config` (`Null` when it did not parse).  Members of the configuration
/// fill the fields they name; the address fields are filled only for the
/// stream's own type (`yt` and `youtube` both fill the YouTube address).
pub fn parse_stream_config_for_edit(db_stream: &StoredStream, config: &JsonValue) -> (r:
    StreamConfigForEdit)
    ensures
        r.id@ == db_stream.id@,
        r.name@ == db_stream.name@,
        r.description@ == or_empty(db_stream.description),
        r.is_default == db_stream.is_default,
        r.config_kind@ == edit_kind(*config),
        r.snapshot_interval == edit_interval(*config),
        r.capture_interval == edit_interval(*config),
        r.width == num_member_or(*config, "width"@, 1920),
        r.height == num_member_or(*config, "height"@, 1080),
        r.rtsp_url@ == url_for(*config, edit_kind(*config) == "rtsp"@),
        r.file_path@ == text_or(*config, "file_path"@, Seq::empty()),
        r.ffmpeg_source@ == text_or(*config, "source"@, Seq::empty()),
        r.ffmpeg_args@ == text_or(*config, "args"@, Seq::empty()),
        r.website_url@ == url_for(*config, edit_kind(*config) == "website"@),
        r.website_width == num_member_or(*config, "width"@, 1920),
        r.website_height == num_member_or(*config, "height"@, 1080),
        r.website_timeout == num_member_or(*config, "timeout"@, 30),
        r.element_selector@ == text_or(*config, "element_selector"@, Seq::empty()),
        r.selector_type@ == text_or(*config, "selector_type"@, "css"@),
        r.headless == flag_or(*config, "headless"@, true),
        r.stealth == flag_or(*config, "stealth"@, true),
        r.auth_username@ == text_or(*config, "auth_username"@, Seq::empty()),
        r.auth_password@ == text_or(*config, "auth_password"@, Seq::empty()),
        r.youtube_url@ == url_for(
            *config,
            edit_kind(*config) == "youtube"@ || edit_kind(*config) == "yt"@,
        ),
        r.youtube_format@ == text_or(*config, "format"@, "best"@),
        r.youtube_is_live == flag_or(*config, "is_live"@, false),
{
    proof {
        reveal_strlit("");
        assert(""@ =~= Seq::<char>::empty());
    }
    let kind = text_or_exec(config, "kind", "file");
    let interval_member = match config.get("snapshot_interval_seconds") {
        Some(v) => Some(v),
        None => config.get("capture_interval_seconds"),
    };
    let interval_wide: u64 = match interval_member {
        Some(v) => match v.as_u64() {
            Some(n) => n,
            None => 30,
        },
        None => 30,
    };
    let snapshot_interval = interval_wide as u32;
    let k = kind.as_str();
    let is_rtsp = str_is(k, "rtsp");
    let is_website = str_is(k, "website");
    let is_youtube = str_is(k, "youtube") || str_is(k, "yt");
    let description = match &db_stream.description {
        Some(d) => d.clone(),
        None => String::new(),
    };
    StreamConfigForEdit {
        id: db_stream.id.clone(),
        name: db_stream.name.clone(),
        description,
        config_kind: kind,
        is_default: db_stream.is_default,
        snapshot_interval,
        width: num_or_exec(config, "width", 1920),
        height: num_or_exec(config, "height", 1080),
        rtsp_url: url_for_exec(config, is_rtsp),
        ffmpeg_source: text_or_exec(config, "source", ""),
        ffmpeg_args: text_or_exec(config, "args", ""),
        file_path: text_or_exec(config, "file_path", ""),
        website_url: url_for_exec(config, is_website),
        website_width: num_or_exec(config, "width", 1920),
        website_height: num_or_exec(config, "height", 1080),
        website_timeout: num_or_exec(config, "timeout", 30),
        element_selector: text_or_exec(config, "element_selector", ""),
        selector_type: text_or_exec(config, "selector_type", "css"),
        headless: flag_or_exec(config, "headless", true),
        stealth: flag_or_exec(config, "stealth", true),
        auth_username: text_or_exec(config, "auth_username", ""),
        auth_password: text_or_exec(config, "auth_password", ""),
        youtube_url: url_for_exec(config, is_youtube),
        youtube_format: text_or_exec(config, "format", "best"),
        youtube_is_live: flag_or_exec(config, "is_live", false),
        capture_interval: snapshot_interval,
    }
}

} // verus!
