//! Pieces of the server-rendered pages: escaping text for HTML, the rows
//! of the administration page, and the small helpers of the page handlers.
use vstd::prelude::*;

use crate::crypto::{hex_encode, hex_encode_seq, sha256, sha256_digest};
use crate::text::{join3, str_is, string_of};
use crate::web::json::{get_str, JsonValue};
use crate::web::streams::StoredStream;

verus! {

// ---------------------------------------------------------------------------
// Escaping
// ---------------------------------------------------------------------------

/// The HTML text of one character: `&`, `<`, `>`, `"` and `'` become
/// entities, every other character stays.
pub open spec fn escape_char(c: char) -> Seq<char> {
    if c == '&' {
        "&amp;"@
    } else if c == '<' {
        "&lt;"@
    } else if c == '>' {
        "&gt;"@
    } else if c == '"' {
        "&quot;"@
    } else if c == '\'' {
        "&#x27;"@
    } else {
        seq![c]
    }
}

/// A text escaped for HTML, character by character.
pub open spec fn html_escape_seq(s: Seq<char>) -> Seq<char>
    decreases s.len(),
{
    if s.len() == 0 {
        Seq::empty()
    } else {
        html_escape_seq(s.drop_last()) + escape_char(s.last())
    }
}

/// Escapes a text for HTML: `&`, `<`, `>`, `"` and `'` become `&amp;`,
/// `&lt;`, `&gt;`, `&quot;` and `&#x27;`.
pub fn html_escape(input: &str) -> (r: String)
    ensures
        r@ == html_escape_seq(input@),
{
    proof {
        reveal_strlit("&amp;");
        reveal_strlit("&lt;");
        reveal_strlit("&gt;");
        reveal_strlit("&quot;");
        reveal_strlit("&#x27;");
    }
    let chars = crate::text::str_chars(input);
    let mut out: Vec<char> = Vec::new();
    let mut i: usize = 0;
    while i < chars.len()
        invariant
            i <= chars@.len(),
            chars@ == input@,
            out@ == html_escape_seq(chars@.take(i as int)),
        decreases chars@.len() - i,
    {
        let c = chars[i];
        let ghost before = out@;
        if c == '&' {
            out.push('&');
            out.push('a');
            out.push('m');
            out.push('p');
            out.push(';');
        } else if c == '<' {
            out.push('&');
            out.push('l');
            out.push('t');
            out.push(';');
        } else if c == '>' {
            out.push('&');
            out.push('g');
            out.push('t');
            out.push(';');
        } else if c == '"' {
            out.push('&');
            out.push('q');
            out.push('u');
            out.push('o');
            out.push('t');
            out.push(';');
        } else if c == '\'' {
            out.push('&');
            out.push('#');
            out.push('x');
            out.push('2');
            out.push('7');
            out.push(';');
        } else {
            out.push(c);
        }
        proof {
            reveal_strlit("&amp;");
            reveal_strlit("&lt;");
            reveal_strlit("&gt;");
            reveal_strlit("&quot;");
            reveal_strlit("&#x27;");
            assert(chars@.take(i + 1).drop_last() =~= chars@.take(i as int));
            assert(chars@.take(i + 1).last() == c);
            assert(out@ =~= before + escape_char(c));
        }
        i += 1;
    }
    assert(chars@.take(chars@.len() as int) =~= chars@);
    crate::text::string_from_chars(out.as_slice())
}

proof fn lemma_escape_char_plain(c: char)
    ensures
        forall|j: int|
            0 <= j < escape_char(c).len() ==> {
                let d = #[trigger] escape_char(c)[j];
                d != '<' && d != '>' && d != '"' && d != '\''
            },
{
    reveal_strlit("&amp;");
    reveal_strlit("&lt;");
    reveal_strlit("&gt;");
    reveal_strlit("&quot;");
    reveal_strlit("&#x27;");
}

/// Escaped text holds no `<`, `>`, `"` or `'`: it cannot open a tag or
/// leave an attribute value.
pub proof fn escaped_text_is_inert(s: Seq<char>)
    ensures
        forall|i: int|
            0 <= i < html_escape_seq(s).len() ==> {
                let c = #[trigger] html_escape_seq(s)[i];
                c != '<' && c != '>' && c != '"' && c != '\''
            },
    decreases s.len(),
{
    if s.len() > 0 {
        escaped_text_is_inert(s.drop_last());
        lemma_escape_char_plain(s.last());
        let a = html_escape_seq(s.drop_last());
        let b = escape_char(s.last());
        assert forall|i: int| 0 <= i < html_escape_seq(s).len() implies {
            let c = #[trigger] html_escape_seq(s)[i];
            c != '<' && c != '>' && c != '"' && c != '\''
        } by {
            if i < a.len() {
                assert(html_escape_seq(s)[i] == a[i]);
            } else {
                assert(html_escape_seq(s)[i] == b[i - a.len()]);
            }
        }
    }
}

/// The five entities escaping writes.
pub open spec fn is_entity(e: Seq<char>) -> bool {
    ||| e == "&amp;"@
    ||| e == "&lt;"@
    ||| e == "&gt;"@
    ||| e == "&quot;"@
    ||| e == "&#x27;"@
}

/// Text `t` holds entity `e` at position `i`.
pub open spec fn holds_at(t: Seq<char>, i: int, e: Seq<char>) -> bool {
    0 <= i && i + e.len() <= t.len() && t.subrange(i, i + e.len()) == e
}

/// Position `i` of `t` starts one of the five entities.
pub open spec fn entity_at(t: Seq<char>, i: int) -> bool {
    exists|e: Seq<char>| is_entity(e) && #[trigger] holds_at(t, i, e)
}

proof fn lemma_escape_char_amp(c: char)
    ensures
        forall|j: int|
            0 <= j < escape_char(c).len() && #[trigger] escape_char(c)[j] == '&' ==> j == 0
                && is_entity(escape_char(c)),
{
    reveal_strlit("&amp;");
    reveal_strlit("&lt;");
    reveal_strlit("&gt;");
    reveal_strlit("&quot;");
    reveal_strlit("&#x27;");
}

/// Escaping never leaves a bare `&`: every `&` in escaped text starts one
/// of `&amp;`, `&lt;`, `&gt;`, `&quot;` and `&#x27;`.
pub proof fn escaped_ampersands_start_entities(s: Seq<char>)
    ensures
        forall|i: int|
            0 <= i < html_escape_seq(s).len() && #[trigger] html_escape_seq(s)[i] == '&'
                ==> entity_at(html_escape_seq(s), i),
    decreases s.len(),
{
    if s.len() > 0 {
        escaped_ampersands_start_entities(s.drop_last());
        lemma_escape_char_amp(s.last());
        let a = html_escape_seq(s.drop_last());
        let b = escape_char(s.last());
        let t = html_escape_seq(s);
        assert(t == a + b);
        assert forall|i: int| 0 <= i < t.len() && #[trigger] t[i] == '&' implies entity_at(t, i) by {
            if i < a.len() {
                assert(t[i] == a[i]);
                assert(entity_at(a, i));
                let e = choose|e: Seq<char>| is_entity(e) && #[trigger] holds_at(a, i, e);
                assert(t.subrange(i, i + e.len()) =~= a.subrange(i, i + e.len()));
                assert(holds_at(t, i, e));
            } else {
                let j = i - a.len();
                assert(t[i] == b[j]);
                assert(j == 0);
                assert(t.subrange(i, i + b.len()) =~= b);
                assert(holds_at(t, i, b));
            }
        }
    }
}

/// Escaping works character by character: the escape of two texts one
/// after the other is their escapes one after the other.
pub proof fn escape_of_concatenation(a: Seq<char>, b: Seq<char>)
    ensures
        html_escape_seq(a + b) == html_escape_seq(a) + html_escape_seq(b),
    decreases b.len(),
{
    if b.len() == 0 {
        assert(a + b =~= a);
        assert(html_escape_seq(a) + html_escape_seq(b) =~= html_escape_seq(a));
    } else {
        escape_of_concatenation(a, b.drop_last());
        assert((a + b).drop_last() =~= a + b.drop_last());
        assert((a + b).last() == b.last());
        assert(html_escape_seq(a) + html_escape_seq(b) =~= html_escape_seq(a) + html_escape_seq(
            b.drop_last(),
        ) + escape_char(b.last()));
    }
}

// ---------------------------------------------------------------------------
// Joining texts
// ---------------------------------------------------------------------------

/// The texts one after the other.
pub open spec fn flatten_texts(parts: Seq<Seq<char>>) -> Seq<char>
    decreases parts.len(),
{
    if parts.len() == 0 {
        Seq::empty()
    } else {
        flatten_texts(parts.drop_last()) + parts.last()
    }
}

/// The texts of a list of strings.
pub open spec fn texts_of(parts: Seq<String>) -> Seq<Seq<char>> {
    parts.map_values(|p: String| p@)
}

fn concat_all(parts: &Vec<String>) -> (r: String)
    ensures
        r@ == flatten_texts(texts_of(parts@)),
{
    let mut out: Vec<char> = Vec::new();
    let mut i: usize = 0;
    while i < parts.len()
        invariant
            i <= parts@.len(),
            out@ == flatten_texts(texts_of(parts@.take(i as int))),
        decreases parts@.len() - i,
    {
        let piece = crate::text::str_chars(parts[i].as_str());
        out = crate::text::concat_chars(out.as_slice(), piece.as_slice());
        proof {
            assert(texts_of(parts@.take(i + 1)).drop_last() =~= texts_of(parts@.take(i as int)));
        }
        i += 1;
    }
    assert(parts@.take(parts@.len() as int) =~= parts@);
    crate::text::string_from_chars(out.as_slice())
}

// ---------------------------------------------------------------------------
// Streams on the administration page
// ---------------------------------------------------------------------------

/// A stream as the pages show it.
#[derive(Debug)]
pub struct StreamInfo {
    pub id: String,
    pub stream_id: String,
    pub name: String,
    /// `active` or another state.
    pub status: String,
    /// When the stream last ran, or `Never`.
    pub last_frame_at: String,
}

/// The page's view of a stored stream, or nothing when the filter
/// (`active` or `inactive`) leaves it out: the state is the stored
/// execution state (`inactive` when none) and the last frame time the
/// stored run time (`Never` when none).
pub open spec fn shown_status(stream: StoredStream) -> Seq<char> {
    match stream.execution_status {
        Some(s) => s@,
        None => "inactive"@,
    }
}

/// Whether a filter leaves a stream in state `status` out.
pub open spec fn filtered_out(filter: Option<Seq<char>>, status: Seq<char>) -> bool {
    match filter {
        Some(f) => (f == "active"@ && status != "active"@) || (f == "inactive"@ && status
            == "active"@),
        None => false,
    }
}

/// The dashboard filters: no filter keeps every stream; `active` keeps
/// exactly the streams shown as active and `inactive` exactly the others,
/// so each stream is kept by one of the two; any other filter keeps
/// everything.
pub proof fn status_filter_laws(f: Seq<char>, status: Seq<char>)
    ensures
        !filtered_out(None, status),
        filtered_out(Some("active"@), status) <==> status != "active"@,
        filtered_out(Some("inactive"@), status) <==> status == "active"@,
        filtered_out(Some("active"@), status) != filtered_out(Some("inactive"@), status),
        f != "active"@ && f != "inactive"@ ==> !filtered_out(Some(f), status),
{
    reveal_strlit("active");
    reveal_strlit("inactive");
    assert("active"@ != "inactive"@) by {
        assert("active"@.len() != "inactive"@.len());
    }
}

/// A stream kept by the filter is shown with its own state: the filter
/// `active` never drops a stream shown as active, and `inactive` never
/// drops one shown as anything else.
pub proof fn kept_streams_keep_their_state(stream: StoredStream)
    ensures
        shown_status(stream) == "active"@ ==> !filtered_out(Some("active"@), shown_status(stream)),
        shown_status(stream) != "active"@ ==> !filtered_out(
            Some("inactive"@),
            shown_status(stream),
        ),
        stream.execution_status is None ==> shown_status(stream) == "inactive"@,
        stream.execution_status matches Some(x) ==> shown_status(stream) == x@,
{
    status_filter_laws("active"@, shown_status(stream));
}

/// The page's view of a stored stream (see `shown_status`), unless the
/// filter leaves it out.
pub fn stream_info_of(stream: &StoredStream, filter: Option<&str>) -> (r: Option<StreamInfo>)
    ensures
        match r {
            None => filtered_out(
                match filter {
                    Some(f) => Some(f@),
                    None => None,
                },
                shown_status(*stream),
            ),
            Some(info) => !filtered_out(
                match filter {
                    Some(f) => Some(f@),
                    None => None,
                },
                shown_status(*stream),
            ) && info.id@ == stream.id@ && info.stream_id@ == stream.id@ && info.name@
                == stream.name@ && info.status@ == shown_status(*stream) && info.last_frame_at@
                == match stream.last_executed_at {
                Some(t) => t@,
                None => "Never"@,
            },
        },
{
    let status = match &stream.execution_status {
        Some(s) => s.clone(),
        None => string_of("inactive"),
    };
    let active = str_is(status.as_str(), "active");
    match filter {
        Some(f) => {
            if (str_is(f, "active") && !active) || (str_is(f, "inactive") && active) {
                return None;
            }
        },
        None => {},
    }
    let last = match &stream.last_executed_at {
        Some(t) => t.clone(),
        None => string_of("Never"),
    };
    Some(
        StreamInfo {
            id: stream.id.clone(),
            stream_id: stream.id.clone(),
            name: stream.name.clone(),
            status,
            last_frame_at: last,
        },
    )
}
/// The badge colours of a stream state.
pub open spec fn status_badge(status: Seq<char>) -> Seq<char> {
    if status == "active"@ {
        "bg-green-100 text-green-800"@
    } else {
        "bg-gray-100 text-gray-800"@
    }
}

/// The start or stop button of a stream row.
pub open spec fn toggle_button(status: Seq<char>, id: Seq<char>) -> Seq<char> {
    if status == "active"@ {
        "<button hx-post=\"/api/settings/streams/"@ + id
            + "/stop\" hx-target=\"closest tr\" hx-swap=\"outerHTML\" class=\"text-orange-600 hover:text-orange-900\">Stop</button>"@
    } else {
        "<button hx-post=\"/api/settings/streams/"@ + id
            + "/start\" hx-target=\"closest tr\" hx-swap=\"outerHTML\" class=\"text-green-600 hover:text-green-900\">Start</button>"@
    }
}

/// The table row of a stream on the administration page: its escaped
/// name and id, its state badge, its last frame time, a start or stop
/// button for its state, and its edit and delete controls.
pub open spec fn stream_row_text(s: StreamInfo) -> Seq<char> {
    flatten_texts(seq![
        "<tr>\n            <td class=\"px-6 py-4 whitespace-nowrap\">\n                <div class=\"text-sm font-medium text-gray-900\">"@,
        html_escape_seq(s.name@),
        "</div>\n                <div class=\"text-sm text-gray-500\">ID: "@,
        s.id@,
        "</div>\n            </td>\n            <td class=\"px-6 py-4 whitespace-nowrap\">\n                <span class=\"px-2 inline-flex text-xs leading-5 font-semibold rounded-full "@,
        status_badge(s.status@),
        "\">"@,
        s.status@,
        "</span>\n            </td>\n            <td class=\"px-6 py-4 whitespace-nowrap text-sm text-gray-500\">"@,
        s.last_frame_at@,
        "</td>\n            <td class=\"px-6 py-4 whitespace-nowrap text-right text-sm font-medium space-x-2\">\n                "@,
        toggle_button(s.status@, s.id@),
        "\n                <a href=\"/settings/streams/"@,
        s.id@,
        "/edit\" class=\"text-indigo-600 hover:text-indigo-900\">Edit</a>\n                <button hx-delete=\"/api/settings/streams/"@,
        s.id@,
        "\" hx-confirm=\"Delete "@,
        html_escape_seq(s.name@),
        "?\" hx-target=\"closest tr\" hx-swap=\"outerHTML\" class=\"text-red-600 hover:text-red-900\">Delete</button>\n            </td>\n        </tr>"@,
    ])
}

/// The table row of a stream on the administration page (see
/// `stream_row_text`).
pub fn stream_row_html(s: &StreamInfo) -> (r: String)
    ensures
        r@ == stream_row_text(*s),
{
    let active = str_is(s.status.as_str(), "active");
    let badge = if active {
        string_of("bg-green-100 text-green-800")
    } else {
        string_of("bg-gray-100 text-gray-800")
    };
    let button = if active {
        join3(
            "<button hx-post=\"/api/settings/streams/",
            s.id.as_str(),
            "/stop\" hx-target=\"closest tr\" hx-swap=\"outerHTML\" class=\"text-orange-600 hover:text-orange-900\">Stop</button>",
        )
    } else {
        join3(
            "<button hx-post=\"/api/settings/streams/",
            s.id.as_str(),
            "/start\" hx-target=\"closest tr\" hx-swap=\"outerHTML\" class=\"text-green-600 hover:text-green-900\">Start</button>",
        )
    };
    let ghost badge_text = badge@;
    let ghost button_text = button@;
    let mut parts: Vec<String> = Vec::new();
    parts.push(string_of("<tr>\n            <td class=\"px-6 py-4 whitespace-nowrap\">\n                <div class=\"text-sm font-medium text-gray-900\">"));
    parts.push(html_escape(s.name.as_str()));
    parts.push(string_of("</div>\n                <div class=\"text-sm text-gray-500\">ID: "));
    parts.push(s.id.clone());
    parts.push(string_of("</div>\n            </td>\n            <td class=\"px-6 py-4 whitespace-nowrap\">\n                <span class=\"px-2 inline-flex text-xs leading-5 font-semibold rounded-full "));
    parts.push(badge);
    parts.push(string_of("\">"));
    parts.push(s.status.clone());
    parts.push(string_of("</span>\n            </td>\n            <td class=\"px-6 py-4 whitespace-nowrap text-sm text-gray-500\">"));
    parts.push(s.last_frame_at.clone());
    parts.push(string_of("</td>\n            <td class=\"px-6 py-4 whitespace-nowrap text-right text-sm font-medium space-x-2\">\n                "));
    parts.push(button);
    parts.push(string_of("\n                <a href=\"/settings/streams/"));
    parts.push(s.id.clone());
    parts.push(string_of("/edit\" class=\"text-indigo-600 hover:text-indigo-900\">Edit</a>\n                <button hx-delete=\"/api/settings/streams/"));
    parts.push(s.id.clone());
    parts.push(string_of("\" hx-confirm=\"Delete "));
    parts.push(html_escape(s.name.as_str()));
    parts.push(string_of("?\" hx-target=\"closest tr\" hx-swap=\"outerHTML\" class=\"text-red-600 hover:text-red-900\">Delete</button>\n            </td>\n        </tr>"));
    proof {
        assert(texts_of(parts@) =~= seq![
        "<tr>\n            <td class=\"px-6 py-4 whitespace-nowrap\">\n                <div class=\"text-sm font-medium text-gray-900\">"@,
        html_escape_seq(s.name@),
        "</div>\n                <div class=\"text-sm text-gray-500\">ID: "@,
        s.id@,
        "</div>\n            </td>\n            <td class=\"px-6 py-4 whitespace-nowrap\">\n                <span class=\"px-2 inline-flex text-xs leading-5 font-semibold rounded-full "@,
        badge_text,
        "\">"@,
        s.status@,
        "</span>\n            </td>\n            <td class=\"px-6 py-4 whitespace-nowrap text-sm text-gray-500\">"@,
        s.last_frame_at@,
        "</td>\n            <td class=\"px-6 py-4 whitespace-nowrap text-right text-sm font-medium space-x-2\">\n                "@,
        button_text,
        "\n                <a href=\"/settings/streams/"@,
        s.id@,
        "/edit\" class=\"text-indigo-600 hover:text-indigo-900\">Edit</a>\n                <button hx-delete=\"/api/settings/streams/"@,
        s.id@,
        "\" hx-confirm=\"Delete "@,
        html_escape_seq(s.name@),
        "?\" hx-target=\"closest tr\" hx-swap=\"outerHTML\" class=\"text-red-600 hover:text-red-900\">Delete</button>\n            </td>\n        </tr>"@,
    ]);
    }
    concat_all(&parts)
}

// ---------------------------------------------------------------------------
// Settings on the administration page
// ---------------------------------------------------------------------------

/// A setting as the administration page shows it; the bounds of numeric
/// settings come already written as text.
#[derive(Debug)]
pub struct SettingView {
    pub key: String,
    pub value: String,
    pub description: Option<String>,
    pub default_value: Option<String>,
    /// `boolean`, `float`, `integer` or another type shown as text.
    pub data_type: String,
    pub min_value: Option<String>,
    pub max_value: Option<String>,
    pub category: String,
}

/// An optional text, else `d`.
pub open spec fn text_or(o: Option<String>, d: Seq<char>) -> Seq<char> {
    match o {
        Some(s) => s@,
        None => d,
    }
}

fn text_or_exec(o: &Option<String>, d: &str) -> (r: String)
    ensures
        r@ == text_or(*o, d@),
{
    match o {
        Some(s) => s.clone(),
        None => string_of(d),
    }
}

/// The control of a setting on the administration page: a checkbox for a
/// boolean, a number input with its range for a float or an integer, and a
/// text input otherwise, each with its escaped key, title, description and
/// default.
pub open spec fn setting_text(s: SettingView) -> Seq<char> {
    let title = html_escape_seq(text_or(s.description, s.key@));
    let description = html_escape_seq(text_or(s.description, "No description available"@));
    let default_text = html_escape_seq(text_or(s.default_value, "none"@));
    let key = html_escape_seq(s.key@);
    let value = html_escape_seq(s.value@);
    if s.data_type@ == "boolean"@ {
        flatten_texts(seq![
        "\n                    <div class=\"flex items-center justify-between py-4 border-b border-gray-200 last:border-b-0\">\n                        <div class=\"flex-1 pr-4\">\n                            <label for=\""@,
        key,
        "\" class=\"text-sm font-medium text-gray-900\">"@,
        title,
        "</label>\n                            <p class=\"text-xs text-gray-500 mt-1\">"@,
        description,
        "</p>\n                            <span class=\"text-xs text-gray-400\">Default: "@,
        default_text,
        "</span>\n                        </div>\n                        <div class=\"flex items-center\">\n                            <input\n                                type=\"checkbox\"\n                                id=\""@,
        key,
        "\"\n                                "@,
        if s.value@ == "true"@ { "checked"@ } else { Seq::empty() },
        "\n                                class=\"h-4 w-4 text-blue-600 focus:ring-blue-500 border-gray-300 rounded\"\n                                aria-label=\""@,
        title,
        "\"\n                                onchange=\"updateSetting('"@,
        key,
        "', this.checked ? 'true' : 'false')\"\n                            />\n                        </div>\n                    </div>\n                "@,
    ])
    } else if s.data_type@ == "float"@ {
        flatten_texts(seq![
        "\n                    <div class=\"flex items-center justify-between py-4 border-b border-gray-200 last:border-b-0\">\n                        <div class=\"flex-1 pr-4\">\n                            <label for=\""@,
        key,
        "\" class=\"text-sm font-medium text-gray-900\">"@,
        title,
        "</label>\n                            <p class=\"text-xs text-gray-500 mt-1\">"@,
        description,
        "</p>\n                            <span class=\"text-xs text-gray-400\">Range: "@,
        text_or(s.min_value, "0"@),
        " - "@,
        text_or(s.max_value, "∞"@),
        " | Default: "@,
        default_text,
        "</span>\n                        </div>\n                        <div class=\"flex items-center space-x-2\">\n                            <input\n                                type=\"number\"\n                                id=\""@,
        key,
        "\"\n                                value=\""@,
        value,
        "\"\n                                min=\""@,
        text_or(s.min_value, "0"@),
        "\"\n                                max=\""@,
        text_or(s.max_value, "100"@),
        "\"\n                                step=\"0.01\"\n                                class=\"w-20 px-3 py-2 border border-gray-300 rounded-md text-sm focus:ring-blue-500 focus:border-blue-500\"\n                                aria-label=\""@,
        title,
        "\"\n                                onchange=\"updateSetting('"@,
        key,
        "', this.value)\"\n                            />\n                        </div>\n                    </div>\n                "@,
    ])
    } else if s.data_type@ == "integer"@ {
        flatten_texts(seq![
        "\n                    <div class=\"flex items-center justify-between py-4 border-b border-gray-200 last:border-b-0\">\n                        <div class=\"flex-1 pr-4\">\n                            <label for=\""@,
        key,
        "\" class=\"text-sm font-medium text-gray-900\">"@,
        title,
        "</label>\n                            <p class=\"text-xs text-gray-500 mt-1\">"@,
        description,
        "</p>\n                            <span class=\"text-xs text-gray-400\">Range: "@,
        text_or(s.min_value, "0"@),
        " - "@,
        text_or(s.max_value, "∞"@),
        " | Default: "@,
        default_text,
        "</span>\n                        </div>\n                        <div class=\"flex items-center space-x-2\">\n                            <input\n                                type=\"number\"\n                                id=\""@,
        key,
        "\"\n                                value=\""@,
        value,
        "\"\n                                min=\""@,
        text_or(s.min_value, "0"@),
        "\"\n                                max=\""@,
        text_or(s.max_value, "999999"@),
        "\"\n                                class=\"w-20 px-3 py-2 border border-gray-300 rounded-md text-sm focus:ring-blue-500 focus:border-blue-500\"\n                                aria-label=\""@,
        title,
        "\"\n                                onchange=\"updateSetting('"@,
        key,
        "', this.value)\"\n                            />\n                        </div>\n                    </div>\n                "@,
    ])
    } else {
        flatten_texts(seq![
        "\n                    <div class=\"flex items-center justify-between py-4 border-b border-gray-200 last:border-b-0\">\n                        <div class=\"flex-1 pr-4\">\n                            <label for=\""@,
        key,
        "\" class=\"text-sm font-medium text-gray-900\">"@,
        title,
        "</label>\n                            <p class=\"text-xs text-gray-500 mt-1\">"@,
        description,
        "</p>\n                            <span class=\"text-xs text-gray-400\">Default: "@,
        default_text,
        "</span>\n                        </div>\n                        <div class=\"flex items-center space-x-2\">\n                            <input\n                                type=\"text\"\n                                id=\""@,
        key,
        "\"\n                                value=\""@,
        value,
        "\"\n                                class=\"w-32 px-3 py-2 border border-gray-300 rounded-md text-sm focus:ring-blue-500 focus:border-blue-500\"\n                                aria-label=\""@,
        title,
        "\"\n                                onchange=\"updateSetting('"@,
        key,
        "', this.value)\"\n                            />\n                        </div>\n                    </div>\n                "@,
    ])
    }
}

/// The control of a setting on the administration page (see
/// `setting_text`).
pub fn setting_html(s: &SettingView) -> (r: String)
    ensures
        r@ == setting_text(*s),
{
    let title = html_escape(text_or_exec(&s.description, s.key.as_str()).as_str());
    let description = html_escape(text_or_exec(&s.description, "No description available").as_str());
    let default_text = html_escape(text_or_exec(&s.default_value, "none").as_str());
    let ghost title_t = title@;
    let ghost description_t = description@;
    let ghost default_t = default_text@;
    let ghost key_t = html_escape_seq(s.key@);
    let ghost value_t = html_escape_seq(s.value@);
    let kind = s.data_type.as_str();
    if str_is(kind, "boolean") {
        let checked = if str_is(s.value.as_str(), "true") {
            string_of("checked")
        } else {
            string_of("")
        };
        let ghost checked_t = checked@;
        proof {
            reveal_strlit("");
            assert(checked_t == if s.value@ == "true"@ { "checked"@ } else { Seq::<char>::empty() });
        }
        let mut parts: Vec<String> = Vec::new();
        parts.push(string_of("\n                    <div class=\"flex items-center justify-between py-4 border-b border-gray-200 last:border-b-0\">\n                        <div class=\"flex-1 pr-4\">\n                            <label for=\""));
        parts.push(html_escape(s.key.as_str()));
        parts.push(string_of("\" class=\"text-sm font-medium text-gray-900\">"));
        parts.push(title.clone());
        parts.push(string_of("</label>\n                            <p class=\"text-xs text-gray-500 mt-1\">"));
        parts.push(description.clone());
        parts.push(string_of("</p>\n                            <span class=\"text-xs text-gray-400\">Default: "));
        parts.push(default_text.clone());
        parts.push(string_of("</span>\n                        </div>\n                        <div class=\"flex items-center\">\n                            <input\n                                type=\"checkbox\"\n                                id=\""));
        parts.push(html_escape(s.key.as_str()));
        parts.push(string_of("\"\n                                "));
        parts.push(checked);
        parts.push(string_of("\n                                class=\"h-4 w-4 text-blue-600 focus:ring-blue-500 border-gray-300 rounded\"\n                                aria-label=\""));
        parts.push(title.clone());
        parts.push(string_of("\"\n                                onchange=\"updateSetting('"));
        parts.push(html_escape(s.key.as_str()));
        parts.push(string_of("', this.checked ? 'true' : 'false')\"\n                            />\n                        </div>\n                    </div>\n                "));
        proof {
            reveal_strlit("");
            assert(texts_of(parts@) =~= seq![
                "\n                    <div class=\"flex items-center justify-between py-4 border-b border-gray-200 last:border-b-0\">\n                        <div class=\"flex-1 pr-4\">\n                            <label for=\""@,
                key_t,
                "\" class=\"text-sm font-medium text-gray-900\">"@,
                title_t,
                "</label>\n                            <p class=\"text-xs text-gray-500 mt-1\">"@,
                description_t,
                "</p>\n                            <span class=\"text-xs text-gray-400\">Default: "@,
                default_t,
                "</span>\n                        </div>\n                        <div class=\"flex items-center\">\n                            <input\n                                type=\"checkbox\"\n                                id=\""@,
                key_t,
                "\"\n                                "@,
                checked_t,
                "\n                                class=\"h-4 w-4 text-blue-600 focus:ring-blue-500 border-gray-300 rounded\"\n                                aria-label=\""@,
                title_t,
                "\"\n                                onchange=\"updateSetting('"@,
                key_t,
                "', this.checked ? 'true' : 'false')\"\n                            />\n                        </div>\n                    </div>\n                "@,
            ]);
        }
        concat_all(&parts)
    } else if str_is(kind, "float") || str_is(kind, "integer") {
        let min_val = text_or_exec(&s.min_value, "0");
        let max_display = text_or_exec(&s.max_value, "∞");
        let is_float = str_is(kind, "float");
        let max_val = if is_float {
            text_or_exec(&s.max_value, "100")
        } else {
            text_or_exec(&s.max_value, "999999")
        };
        let ghost min_t = min_val@;
        let ghost maxd_t = max_display@;
        let ghost maxv_t = max_val@;
        if is_float {
            let mut parts: Vec<String> = Vec::new();
            parts.push(string_of("\n                    <div class=\"flex items-center justify-between py-4 border-b border-gray-200 last:border-b-0\">\n                        <div class=\"flex-1 pr-4\">\n                            <label for=\""));
            parts.push(html_escape(s.key.as_str()));
            parts.push(string_of("\" class=\"text-sm font-medium text-gray-900\">"));
            parts.push(title.clone());
            parts.push(string_of("</label>\n                            <p class=\"text-xs text-gray-500 mt-1\">"));
            parts.push(description.clone());
            parts.push(string_of("</p>\n                            <span class=\"text-xs text-gray-400\">Range: "));
            parts.push(min_val.clone());
            parts.push(string_of(" - "));
            parts.push(max_display);
            parts.push(string_of(" | Default: "));
            parts.push(default_text);
            parts.push(string_of("</span>\n                        </div>\n                        <div class=\"flex items-center space-x-2\">\n                            <input\n                                type=\"number\"\n                                id=\""));
            parts.push(html_escape(s.key.as_str()));
            parts.push(string_of("\"\n                                value=\""));
            parts.push(html_escape(s.value.as_str()));
            parts.push(string_of("\"\n                                min=\""));
            parts.push(min_val);
            parts.push(string_of("\"\n                                max=\""));
            parts.push(max_val);
            parts.push(string_of("\"\n                                step=\"0.01\"\n                                class=\"w-20 px-3 py-2 border border-gray-300 rounded-md text-sm focus:ring-blue-500 focus:border-blue-500\"\n                                aria-label=\""));
            parts.push(title.clone());
            parts.push(string_of("\"\n                                onchange=\"updateSetting('"));
            parts.push(html_escape(s.key.as_str()));
            parts.push(string_of("', this.value)\"\n                            />\n                        </div>\n                    </div>\n                "));
            proof {
                reveal_strlit("");
                assert(texts_of(parts@) =~= seq![
                    "\n                    <div class=\"flex items-center justify-between py-4 border-b border-gray-200 last:border-b-0\">\n                        <div class=\"flex-1 pr-4\">\n                            <label for=\""@,
                    key_t,
                    "\" class=\"text-sm font-medium text-gray-900\">"@,
                    title_t,
                    "</label>\n                            <p class=\"text-xs text-gray-500 mt-1\">"@,
                    description_t,
                    "</p>\n                            <span class=\"text-xs text-gray-400\">Range: "@,
                    min_t,
                    " - "@,
                    maxd_t,
                    " | Default: "@,
                    default_t,
                    "</span>\n                        </div>\n                        <div class=\"flex items-center space-x-2\">\n                            <input\n                                type=\"number\"\n                                id=\""@,
                    key_t,
                    "\"\n                                value=\""@,
                    value_t,
                    "\"\n                                min=\""@,
                    min_t,
                    "\"\n                                max=\""@,
                    maxv_t,
                    "\"\n                                step=\"0.01\"\n                                class=\"w-20 px-3 py-2 border border-gray-300 rounded-md text-sm focus:ring-blue-500 focus:border-blue-500\"\n                                aria-label=\""@,
                    title_t,
                    "\"\n                                onchange=\"updateSetting('"@,
                    key_t,
                    "', this.value)\"\n                            />\n                        </div>\n                    </div>\n                "@,
                ]);
            }
            concat_all(&parts)
        } else {
            let mut parts: Vec<String> = Vec::new();
            parts.push(string_of("\n                    <div class=\"flex items-center justify-between py-4 border-b border-gray-200 last:border-b-0\">\n                        <div class=\"flex-1 pr-4\">\n                            <label for=\""));
            parts.push(html_escape(s.key.as_str()));
            parts.push(string_of("\" class=\"text-sm font-medium text-gray-900\">"));
            parts.push(title.clone());
            parts.push(string_of("</label>\n                            <p class=\"text-xs text-gray-500 mt-1\">"));
            parts.push(description.clone());
            parts.push(string_of("</p>\n                            <span class=\"text-xs text-gray-400\">Range: "));
            parts.push(min_val.clone());
            parts.push(string_of(" - "));
            parts.push(max_display);
            parts.push(string_of(" | Default: "));
            parts.push(default_text);
            parts.push(string_of("</span>\n                        </div>\n                        <div class=\"flex items-center space-x-2\">\n                            <input\n                                type=\"number\"\n                                id=\""));
            parts.push(html_escape(s.key.as_str()));
            parts.push(string_of("\"\n                                value=\""));
            parts.push(html_escape(s.value.as_str()));
            parts.push(string_of("\"\n                                min=\""));
            parts.push(min_val);
            parts.push(string_of("\"\n                                max=\""));
            parts.push(max_val);
            parts.push(string_of("\"\n                                class=\"w-20 px-3 py-2 border border-gray-300 rounded-md text-sm focus:ring-blue-500 focus:border-blue-500\"\n                                aria-label=\""));
            parts.push(title.clone());
            parts.push(string_of("\"\n                                onchange=\"updateSetting('"));
            parts.push(html_escape(s.key.as_str()));
            parts.push(string_of("', this.value)\"\n                            />\n                        </div>\n                    </div>\n                "));
            proof {
                reveal_strlit("");
                assert(texts_of(parts@) =~= seq![
                    "\n                    <div class=\"flex items-center justify-between py-4 border-b border-gray-200 last:border-b-0\">\n                        <div class=\"flex-1 pr-4\">\n                            <label for=\""@,
                    key_t,
                    "\" class=\"text-sm font-medium text-gray-900\">"@,
                    title_t,
                    "</label>\n                            <p class=\"text-xs text-gray-500 mt-1\">"@,
                    description_t,
                    "</p>\n                            <span class=\"text-xs text-gray-400\">Range: "@,
                    min_t,
                    " - "@,
                    maxd_t,
                    " | Default: "@,
                    default_t,
                    "</span>\n                        </div>\n                        <div class=\"flex items-center space-x-2\">\n                            <input\n                                type=\"number\"\n                                id=\""@,
                    key_t,
                    "\"\n                                value=\""@,
                    value_t,
                    "\"\n                                min=\""@,
                    min_t,
                    "\"\n                                max=\""@,
                    maxv_t,
                    "\"\n                                class=\"w-20 px-3 py-2 border border-gray-300 rounded-md text-sm focus:ring-blue-500 focus:border-blue-500\"\n                                aria-label=\""@,
                    title_t,
                    "\"\n                                onchange=\"updateSetting('"@,
                    key_t,
                    "', this.value)\"\n                            />\n                        </div>\n                    </div>\n                "@,
                ]);
            }
            concat_all(&parts)
        }
    } else {
        let mut parts: Vec<String> = Vec::new();
        parts.push(string_of("\n                    <div class=\"flex items-center justify-between py-4 border-b border-gray-200 last:border-b-0\">\n                        <div class=\"flex-1 pr-4\">\n                            <label for=\""));
        parts.push(html_escape(s.key.as_str()));
        parts.push(string_of("\" class=\"text-sm font-medium text-gray-900\">"));
        parts.push(title.clone());
        parts.push(string_of("</label>\n                            <p class=\"text-xs text-gray-500 mt-1\">"));
        parts.push(description);
        parts.push(string_of("</p>\n                            <span class=\"text-xs text-gray-400\">Default: "));
        parts.push(default_text);
        parts.push(string_of("</span>\n                        </div>\n                        <div class=\"flex items-center space-x-2\">\n                            <input\n                                type=\"text\"\n                                id=\""));
        parts.push(html_escape(s.key.as_str()));
        parts.push(string_of("\"\n                                value=\""));
        parts.push(html_escape(s.value.as_str()));
        parts.push(string_of("\"\n                                class=\"w-32 px-3 py-2 border border-gray-300 rounded-md text-sm focus:ring-blue-500 focus:border-blue-500\"\n                                aria-label=\""));
        parts.push(title.clone());
        parts.push(string_of("\"\n                                onchange=\"updateSetting('"));
        parts.push(html_escape(s.key.as_str()));
        parts.push(string_of("', this.value)\"\n                            />\n                        </div>\n                    </div>\n                "));
        proof {
            reveal_strlit("");
            assert(texts_of(parts@) =~= seq![
                "\n                    <div class=\"flex items-center justify-between py-4 border-b border-gray-200 last:border-b-0\">\n                        <div class=\"flex-1 pr-4\">\n                            <label for=\""@,
                key_t,
                "\" class=\"text-sm font-medium text-gray-900\">"@,
                title_t,
                "</label>\n                            <p class=\"text-xs text-gray-500 mt-1\">"@,
                description_t,
                "</p>\n                            <span class=\"text-xs text-gray-400\">Default: "@,
                default_t,
                "</span>\n                        </div>\n                        <div class=\"flex items-center space-x-2\">\n                            <input\n                                type=\"text\"\n                                id=\""@,
                key_t,
                "\"\n                                value=\""@,
                value_t,
                "\"\n                                class=\"w-32 px-3 py-2 border border-gray-300 rounded-md text-sm focus:ring-blue-500 focus:border-blue-500\"\n                                aria-label=\""@,
                title_t,
                "\"\n                                onchange=\"updateSetting('"@,
                key_t,
                "', this.value)\"\n                            />\n                        </div>\n                    </div>\n                "@,
            ]);
        }
        concat_all(&parts)
    }
}

/// The controls of the settings of one category, in order.
pub open spec fn settings_section_text(settings: Seq<SettingView>, category: Seq<char>) -> Seq<char>
    decreases settings.len(),
{
    if settings.len() == 0 {
        Seq::empty()
    } else {
        settings_section_text(settings.drop_last(), category) + if settings.last().category@
            == category {
            setting_text(settings.last())
        } else {
            Seq::empty()
        }
    }
}

/// The controls of the settings of one category (see
/// `settings_section_text`).
pub fn settings_section(settings: &Vec<SettingView>, category: &str) -> (r: String)
    ensures
        r@ == settings_section_text(settings@, category@),
{
    let mut out: Vec<char> = Vec::new();
    let mut i: usize = 0;
    while i < settings.len()
        invariant
            i <= settings@.len(),
            out@ == settings_section_text(settings@.take(i as int), category@),
        decreases settings@.len() - i,
    {
        proof {
            assert(settings@.take(i + 1).drop_last() =~= settings@.take(i as int));
            assert(settings@.take(i + 1).last() == settings@[i as int]);
        }
        if str_is(settings[i].category.as_str(), category) {
            let h = setting_html(&settings[i]);
            let hc = crate::text::str_chars(h.as_str());
            out = crate::text::concat_chars(out.as_slice(), hc.as_slice());
        } else {
            assert(out@ + Seq::<char>::empty() =~= out@);
        }
        i += 1;
    }
    assert(settings@.take(settings@.len() as int) =~= settings@);
    crate::text::string_from_chars(out.as_slice())
}

/// The rows of a list of streams, in order.
pub open spec fn stream_rows_text(streams: Seq<StreamInfo>) -> Seq<char>
    decreases streams.len(),
{
    if streams.len() == 0 {
        Seq::empty()
    } else {
        stream_rows_text(streams.drop_last()) + stream_row_text(streams.last())
    }
}

/// The rows of the streams table (see `stream_row_text`).
pub fn stream_rows_html(streams: &Vec<StreamInfo>) -> (r: String)
    ensures
        r@ == stream_rows_text(streams@),
{
    let mut out: Vec<char> = Vec::new();
    let mut i: usize = 0;
    while i < streams.len()
        invariant
            i <= streams@.len(),
            out@ == stream_rows_text(streams@.take(i as int)),
        decreases streams@.len() - i,
    {
        proof {
            assert(streams@.take(i + 1).drop_last() =~= streams@.take(i as int));
            assert(streams@.take(i + 1).last() == streams@[i as int]);
        }
        let h = stream_row_html(&streams[i]);
        let hc = crate::text::str_chars(h.as_str());
        out = crate::text::concat_chars(out.as_slice(), hc.as_slice());
        i += 1;
    }
    assert(streams@.take(streams@.len() as int) =~= streams@);
    crate::text::string_from_chars(out.as_slice())
}

// ---------------------------------------------------------------------------
// Handler helpers
// ---------------------------------------------------------------------------

/// The entity tag of an image: the first eight bytes of its SHA-256
/// digest in hex, in double quotes.
pub fn generate_etag(bytes: &[u8]) -> (r: String)
    ensures
        r@ == "\""@ + hex_encode_seq(sha256(bytes@).take(8)) + "\""@,
{
    let digest = sha256_digest(bytes);
    let mut first: Vec<u8> = Vec::new();
    let mut i: usize = 0;
    while i < 8
        invariant
            i <= 8,
            digest@.len() == 32,
            first@ == digest@.take(i as int),
        decreases 8 - i,
    {
        first.push(digest[i]);
        i += 1;
        assert(digest@.take(i as int) =~= digest@.take((i - 1) as int).push(digest@[i - 1]));
    }
    let hex = hex_encode(first.as_slice());
    join3("\"", hex.as_str(), "\"")
}

/// Samples the warnings about lagging MJPEG clients: one in ten is logged.
#[derive(Debug)]
pub struct LagSampler {
    count: u64,
}

impl LagSampler {
    /// How many lag warnings came so far (modulo 2^64).
    pub closed spec fn spec_count(&self) -> u64 {
        self.count
    }

    /// A sampler that has seen no warning.
    pub fn new() -> (r: Self)
        ensures
            r.spec_count() == 0,
    {
        LagSampler { count: 0 }
    }

    /// Counts a lag warning and says whether to log it: the first, and then
    /// every tenth.
    pub fn should_log_mjpeg_lag(&mut self) -> (r: bool)
        ensures
            r == (old(self).spec_count() % 10 == 0),
            final(self).spec_count() == if old(self).spec_count() == u64::MAX {
                0
            } else {
                (old(self).spec_count() + 1) as u64
            },
    {
        let c = self.count;
        self.count = if c == u64::MAX {
            0
        } else {
            c + 1
        };
        c % 10 == 0
    }
}


/// The setting a settings update names: the `key` and `value` members of
/// the request, both strings; a missing one is refused with its message.
pub fn setting_update_of(payload: &JsonValue) -> (r: Result<(String, String), &'static str>)
    ensures
        match r {
            Ok((k, v)) => get_str(*payload, "key"@) == Some(k@) && get_str(*payload, "value"@) == Some(
                v@,
            ),
            Err(m) => if get_str(*payload, "key"@) is None {
                m@ == "Missing 'key' field"@
            } else {
                get_str(*payload, "value"@) is None && m@ == "Missing 'value' field"@
            },
        },
{
    let key = match payload.get("key") {
        Some(k) => match k.as_str() {
            Some(s) => string_of(s),
            None => return Err("Missing 'key' field"),
        },
        None => return Err("Missing 'key' field"),
    };
    let value = match payload.get("value") {
        Some(v) => match v.as_str() {
            Some(s) => string_of(s),
            None => return Err("Missing 'value' field"),
        },
        None => return Err("Missing 'value' field"),
    };
    Ok((key, value))
}

} // verus!
