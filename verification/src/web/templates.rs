//! Validation of template configuration documents.
use vstd::prelude::*;

use crate::text::{concat_chars, join3, seq_starts_with, starts_with, str_chars, str_is, string_from_chars};
use crate::web::json::{entry_lookup, json_as_str, json_get, JsonValue};

verus! {

/// A template as the store keeps it.
#[derive(Debug)]
pub struct StoredTemplate {
    pub id: String,
    pub user_id: String,
    pub name: String,
    pub description: Option<String>,
    /// The configuration as JSON text.
    pub config: String,
    pub is_default: bool,
    pub execution_status: Option<String>,
    pub last_executed_at: Option<String>,
    pub last_error_message: Option<String>,
    pub created_at: String,
    pub updated_at: String,
}

/// The entity tag of a template: its update time in double quotes.
pub fn generate_etag(template: &StoredTemplate) -> (r: String)
    ensures
        r@ == "\""@ + template.updated_at@ + "\""@,
{
    join3("\"", template.updated_at.as_str(), "\"")
}

/// The error text `<kind><suffix>`.
pub open spec fn msg(kind: Seq<char>, suffix: Seq<char>) -> Seq<char> {
    kind + suffix
}

/// The error for a member that must hold an `http(s)` URL, if any.
pub open spec fn url_member_error(es: Seq<(String, JsonValue)>, kind: Seq<char>) -> Option<Seq<char>> {
    match entry_lookup(es, "url"@) {
        None => Some(msg(kind, " config must have 'url' field"@)),
        Some(u) => match json_as_str(u) {
            None => Some(msg(kind, " 'url' must be a string"@)),
            Some(s) => if s.len() == 0 {
                Some(msg(kind, " 'url' cannot be empty"@))
            } else if !seq_starts_with(s, "http://"@) && !seq_starts_with(s, "https://"@) {
                Some(msg(kind, " 'url' must start with http:// or https://"@))
            } else {
                None
            },
        },
    }
}

/// The kinds of JSON value an optional member may be required to have.
pub enum Shape {
    Boolean,
    Number,
    Text,
    Object,
}

/// Whether a value has a shape.
pub open spec fn has_shape(v: JsonValue, shape: Shape) -> bool {
    match shape {
        Shape::Boolean => v is Bool,
        Shape::Number => v is Number,
        Shape::Text => v is Str,
        Shape::Object => v is Object,
    }
}

/// The description of a shape in error texts.
pub open spec fn shape_words(shape: Shape) -> Seq<char> {
    match shape {
        Shape::Boolean => " must be a boolean"@,
        Shape::Number => " must be a number"@,
        Shape::Text => " must be a string"@,
        Shape::Object => " must be an object"@,
    }
}

/// The error for an optional member of the wrong shape, if any.
pub open spec fn optional_member_error(
    es: Seq<(String, JsonValue)>,
    kind: Seq<char>,
    name: Seq<char>,
    shape: Shape,
) -> Option<Seq<char>> {
    match entry_lookup(es, name) {
        Some(v) => if has_shape(v, shape) {
            None
        } else {
            Some(kind + " '"@ + name + "'"@ + shape_words(shape))
        },
        None => None,
    }
}

/// The first error among `errs`, if any.
pub open spec fn first_error(errs: Seq<Option<Seq<char>>>) -> Option<Seq<char>>
    decreases errs.len(),
{
    if errs.len() == 0 {
        None
    } else if errs[0] is Some {
        errs[0]
    } else {
        first_error(errs.drop_first())
    }
}

/// The error of a `website` template's members, if any.
pub open spec fn website_error(es: Seq<(String, JsonValue)>) -> Option<Seq<char>> {
    first_error(
        seq![
            url_member_error(es, "website"@),
            optional_member_error(es, "website"@, "headless"@, Shape::Boolean),
            optional_member_error(es, "website"@, "stealth"@, Shape::Boolean),
            optional_member_error(es, "website"@, "width"@, Shape::Number),
            optional_member_error(es, "website"@, "height"@, Shape::Number),
            optional_member_error(es, "website"@, "element_selector"@, Shape::Text),
        ],
    )
}

/// The error of a `yt` template's members, if any.
pub open spec fn yt_error(es: Seq<(String, JsonValue)>) -> Option<Seq<char>> {
    first_error(
        seq![
            url_member_error(es, "yt"@),
            optional_member_error(es, "yt"@, "format"@, Shape::Text),
            optional_member_error(es, "yt"@, "is_live"@, Shape::Boolean),
            optional_member_error(es, "yt"@, "timeout"@, Shape::Number),
            optional_member_error(es, "yt"@, "options"@, Shape::Object),
        ],
    )
}

/// The error of a template configuration, if any.
pub open spec fn template_config_error(config: JsonValue) -> Option<Seq<char>> {
    match config {
        JsonValue::Object(es) => match json_get(config, "kind"@) {
            Some(JsonValue::Str(k)) => if k@ == "ffmpeg"@ {
                if entry_lookup(es@, "source_url"@) is Some {
                    None
                } else {
                    Some("ffmpeg config must have 'source_url' field"@)
                }
            } else if k@ == "file"@ {
                if entry_lookup(es@, "file_path"@) is Some {
                    None
                } else {
                    Some("file config must have 'file_path' field"@)
                }
            } else if k@ == "website"@ {
                website_error(es@)
            } else if k@ == "yt"@ {
                yt_error(es@)
            } else {
                Some("Unknown template kind: "@ + k@)
            },
            _ => Some("Template config must have a 'kind' field"@),
        },
        _ => Some("Template config must be a JSON object"@),
    }
}

fn text(a: &str, b: &str) -> (r: String)
    ensures
        r@ == a@ + b@,
{
    let x = str_chars(a);
    let y = str_chars(b);
    let z = concat_chars(x.as_slice(), y.as_slice());
    string_from_chars(z.as_slice())
}

fn check_url_member(v: &JsonValue, kind: &str) -> (r: Option<String>)
    requires
        v is Object,
    ensures
        match r {
            Some(m) => url_member_error(v->Object_0@, kind@) == Some(m@),
            None => url_member_error(v->Object_0@, kind@) is None,
        },
{
    match v.get("url") {
        None => Some(text(kind, " config must have 'url' field")),
        Some(u) => match u.as_str() {
            None => Some(text(kind, " 'url' must be a string")),
            Some(s) => {
                let c = str_chars(s);
                if c.len() == 0 {
                    return Some(text(kind, " 'url' cannot be empty"));
                }
                let h1 = str_chars("http://");
                let h2 = str_chars("https://");
                if !starts_with(c.as_slice(), h1.as_slice()) && !starts_with(
                    c.as_slice(),
                    h2.as_slice(),
                ) {
                    Some(text(kind, " 'url' must start with http:// or https://"))
                } else {
                    None
                }
            },
        },
    }
}

fn check_member(v: &JsonValue, kind: &str, name: &str, shape: Shape) -> (r: Option<String>)
    requires
        v is Object,
    ensures
        match r {
            Some(m) => optional_member_error(v->Object_0@, kind@, name@, shape) == Some(m@),
            None => optional_member_error(v->Object_0@, kind@, name@, shape) is None,
        },
{
    match v.get(name) {
        None => None,
        Some(m) => {
            let ok = match shape {
                Shape::Boolean => m.is_boolean(),
                Shape::Number => m.is_number(),
                Shape::Text => m.is_string(),
                Shape::Object => m.is_object(),
            };
            if ok {
                None
            } else {
                let words = match shape {
                    Shape::Boolean => " must be a boolean",
                    Shape::Number => " must be a number",
                    Shape::Text => " must be a string",
                    Shape::Object => " must be an object",
                };
                let a = str_chars(kind);
                let b = str_chars(" '");
                let c = str_chars(name);
                let d = str_chars("'");
                let e = str_chars(words);
                let x = concat_chars(a.as_slice(), b.as_slice());
                let x = concat_chars(x.as_slice(), c.as_slice());
                let x = concat_chars(x.as_slice(), d.as_slice());
                let x = concat_chars(x.as_slice(), e.as_slice());
                Some(string_from_chars(x.as_slice()))
            }
        },
    }
}

proof fn lemma_first_error_cons(a: Option<Seq<char>>, rest: Seq<Option<Seq<char>>>)
    ensures
        first_error(seq![a] + rest) == if a is Some {
            a
        } else {
            first_error(rest)
        },
{
    assert((seq![a] + rest)[0] == a);
    assert((seq![a] + rest).drop_first() =~= rest);
}

fn website_config_error(v: &JsonValue) -> (r: Option<String>)
    requires
        v is Object,
    ensures
        match r {
            Some(m) => website_error(v->Object_0@) == Some(m@),
            None => website_error(v->Object_0@) is None,
        },
{
    let ghost es = v->Object_0@;
    proof {
        let l = seq![
            url_member_error(es, "website"@),
            optional_member_error(es, "website"@, "headless"@, Shape::Boolean),
            optional_member_error(es, "website"@, "stealth"@, Shape::Boolean),
            optional_member_error(es, "website"@, "width"@, Shape::Number),
            optional_member_error(es, "website"@, "height"@, Shape::Number),
            optional_member_error(es, "website"@, "element_selector"@, Shape::Text),
        ];
        assert(l =~= seq![l[0]] + (seq![l[1]] + (seq![l[2]] + (seq![l[3]] + (seq![l[4]] + seq![
            l[5],
        ])))));
        lemma_first_error_cons(l[0], seq![l[1]] + (seq![l[2]] + (seq![l[3]] + (seq![l[4]] + seq![
            l[5],
        ]))));
        lemma_first_error_cons(l[1], seq![l[2]] + (seq![l[3]] + (seq![l[4]] + seq![l[5]])));
        lemma_first_error_cons(l[2], seq![l[3]] + (seq![l[4]] + seq![l[5]]));
        lemma_first_error_cons(l[3], seq![l[4]] + seq![l[5]]);
        lemma_first_error_cons(l[4], seq![l[5]]);
        lemma_first_error_cons(l[5], Seq::empty());
        assert(seq![l[5]] + Seq::<Option<Seq<char>>>::empty() =~= seq![l[5]]);
    }
    if let Some(m) = check_url_member(v, "website") {
        return Some(m);
    }
    if let Some(m) = check_member(v, "website", "headless", Shape::Boolean) {
        return Some(m);
    }
    if let Some(m) = check_member(v, "website", "stealth", Shape::Boolean) {
        return Some(m);
    }
    if let Some(m) = check_member(v, "website", "width", Shape::Number) {
        return Some(m);
    }
    if let Some(m) = check_member(v, "website", "height", Shape::Number) {
        return Some(m);
    }
    check_member(v, "website", "element_selector", Shape::Text)
}

fn yt_config_error(v: &JsonValue) -> (r: Option<String>)
    requires
        v is Object,
    ensures
        match r {
            Some(m) => yt_error(v->Object_0@) == Some(m@),
            None => yt_error(v->Object_0@) is None,
        },
{
    let ghost es = v->Object_0@;
    proof {
        let l = seq![
            url_member_error(es, "yt"@),
            optional_member_error(es, "yt"@, "format"@, Shape::Text),
            optional_member_error(es, "yt"@, "is_live"@, Shape::Boolean),
            optional_member_error(es, "yt"@, "timeout"@, Shape::Number),
            optional_member_error(es, "yt"@, "options"@, Shape::Object),
        ];
        assert(l =~= seq![l[0]] + (seq![l[1]] + (seq![l[2]] + (seq![l[3]] + seq![l[4]]))));
        lemma_first_error_cons(l[0], seq![l[1]] + (seq![l[2]] + (seq![l[3]] + seq![l[4]])));
        lemma_first_error_cons(l[1], seq![l[2]] + (seq![l[3]] + seq![l[4]]));
        lemma_first_error_cons(l[2], seq![l[3]] + seq![l[4]]);
        lemma_first_error_cons(l[3], seq![l[4]]);
        lemma_first_error_cons(l[4], Seq::empty());
        assert(seq![l[4]] + Seq::<Option<Seq<char>>>::empty() =~= seq![l[4]]);
    }
    if let Some(m) = check_url_member(v, "yt") {
        return Some(m);
    }
    if let Some(m) = check_member(v, "yt", "format", Shape::Text) {
        return Some(m);
    }
    if let Some(m) = check_member(v, "yt", "is_live", Shape::Boolean) {
        return Some(m);
    }
    if let Some(m) = check_member(v, "yt", "timeout", Shape::Number) {
        return Some(m);
    }
    check_member(v, "yt", "options", Shape::Object)
}

/// Validates a template configuration: it must be an object with a string
/// `kind` of `ffmpeg`, `file`, `website` or `yt`, and the members each kind
/// requires, of the right types.
pub fn validate_template_config(config: &JsonValue) -> (r: Result<(), String>)
    ensures
        match r {
            Ok(()) => template_config_error(*config) is None,
            Err(m) => template_config_error(*config) == Some(m@),
        },
{
    if !config.is_object() {
        return Err(String::from_str("Template config must be a JSON object"));
    }
    let kind = match config.get("kind") {
        Some(k) => match k.as_str() {
            Some(s) => s,
            None => return Err(String::from_str("Template config must have a 'kind' field")),
        },
        None => return Err(String::from_str("Template config must have a 'kind' field")),
    };
    if str_is(kind, "ffmpeg") {
        if config.get("source_url").is_some() {
            Ok(())
        } else {
            Err(String::from_str("ffmpeg config must have 'source_url' field"))
        }
    } else if str_is(kind, "file") {
        if config.get("file_path").is_some() {
            Ok(())
        } else {
            Err(String::from_str("file config must have 'file_path' field"))
        }
    } else if str_is(kind, "website") {
        match website_config_error(config) {
            Some(m) => Err(m),
            None => Ok(()),
        }
    } else if str_is(kind, "yt") {
        match yt_config_error(config) {
            Some(m) => Err(m),
            None => Ok(()),
        }
    } else {
        Err(text("Unknown template kind: ", kind))
    }
}

} // verus!
