//! API response models: the generic response wrapper, RFC 7807 problem
//! details, stream status and validation error entries.
use vstd::prelude::*;

use crate::text::{concat_chars, push_decimal, str_chars, string_from_chars, decimal};
use crate::web::json::{entry_lookup, object_insert, JsonNumber, JsonValue};

verus! {

/// Generic API response wrapper.
#[derive(Debug)]
pub struct ApiResponse<T> {
    pub success: bool,
    pub data: Option<T>,
    pub error: Option<String>,
}

impl<T> ApiResponse<T> {
    /// A successful response carrying `data`.
    pub fn success(data: T) -> (r: Self)
        ensures
            r.success,
            r.data == Some(data),
            r.error is None,
    {
        ApiResponse { success: true, data: Some(data), error: None }
    }

    /// A failed response carrying an error message.
    pub fn error(error: String) -> (r: Self)
        ensures
            !r.success,
            r.data is None,
            r.error == Some(error),
    {
        ApiResponse { success: false, data: None, error: Some(error) }
    }
}

/// Standard error response.
#[derive(Debug)]
pub struct ErrorResponse {
    pub error: String,
    pub message: String,
    pub details: Option<JsonValue>,
}

impl ErrorResponse {
    /// An error response without details.
    pub fn new(error: &str, message: &str) -> (r: Self)
        ensures
            r.error@ == error@,
            r.message@ == message@,
            r.details is None,
    {
        ErrorResponse {
            error: String::from_str(error),
            message: String::from_str(message),
            details: None,
        }
    }

    /// An error response with details.
    pub fn with_details(error: &str, message: &str, details: JsonValue) -> (r: Self)
        ensures
            r.error@ == error@,
            r.message@ == message@,
            r.details == Some(details),
    {
        ErrorResponse {
            error: String::from_str(error),
            message: String::from_str(message),
            details: Some(details),
        }
    }
}

/// RFC 7807 problem details.
#[derive(Debug)]
pub struct ProblemDetails {
    /// The problem type URI.
    pub problem_type: String,
    /// Human-readable summary.
    pub title: String,
    /// HTTP status code.
    pub status: Option<u16>,
    /// Explanation specific to this occurrence.
    pub detail: Option<String>,
    /// URI of this occurrence.
    pub instance: Option<String>,
    /// Extension members, in order, one per name.
    pub extensions: Vec<(String, JsonValue)>,
}

/// The `detail` of a payload-too-large problem.
pub open spec fn payload_too_large_detail(max_size: u64) -> Seq<char> {
    "Request payload exceeds maximum size of "@ + decimal(max_size as nat) + " bytes"@
}

impl ProblemDetails {
    /// A problem with a type and title and nothing else.
    pub fn new(problem_type: &str, title: &str) -> (r: Self)
        ensures
            r.problem_type@ == problem_type@,
            r.title@ == title@,
            r.status is None,
            r.detail is None,
            r.instance is None,
            r.extensions@.len() == 0,
    {
        ProblemDetails {
            problem_type: String::from_str(problem_type),
            title: String::from_str(title),
            status: None,
            detail: None,
            instance: None,
            extensions: Vec::new(),
        }
    }

    /// Sets the status code.
    pub fn with_status(self, status: u16) -> (r: Self)
        ensures
            r == (ProblemDetails { status: Some(status), ..self }),
    {
        ProblemDetails { status: Some(status), ..self }
    }

    /// Sets the detail message.
    pub fn with_detail(self, detail: String) -> (r: Self)
        ensures
            r == (ProblemDetails { detail: Some(detail), ..self }),
    {
        ProblemDetails { detail: Some(detail), ..self }
    }

    /// Sets the instance URI.
    pub fn with_instance(self, instance: String) -> (r: Self)
        ensures
            r == (ProblemDetails { instance: Some(instance), ..self }),
    {
        ProblemDetails { instance: Some(instance), ..self }
    }

    /// Sets an extension member (replacing one of the same name).
    pub fn with_extension(self, key: &str, value: JsonValue) -> (r: Self)
        ensures
            r.problem_type == self.problem_type,
            r.title == self.title,
            r.status == self.status,
            r.detail == self.detail,
            r.instance == self.instance,
            forall|k: Seq<char>|
                #![trigger entry_lookup(r.extensions@, k)]
                entry_lookup(r.extensions@, k) == if k == key@ {
                    Some(value)
                } else {
                    entry_lookup(self.extensions@, k)
                },
    {
        let mut s = self;
        object_insert(&mut s.extensions, key, value);
        s
    }

    /// A 400 Bad Request problem.
    pub fn validation_error(detail: String) -> (r: Self)
        ensures
            r.problem_type@ == "https://datatracker.ietf.org/rfc/rfc7231.html#section-6.5.1"@,
            r.title@ == "Bad Request"@,
            r.status == Some(400u16),
            r.detail == Some(detail),
            r.instance is None,
            r.extensions@.len() == 0,
    {
        Self::new("https://datatracker.ietf.org/rfc/rfc7231.html#section-6.5.1", "Bad Request")
            .with_status(400).with_detail(detail)
    }

    /// A 429 Too Many Requests problem, with a `retry_after` member when a
    /// delay is given.
    pub fn rate_limit_error(retry_after: Option<u64>) -> (r: Self)
        ensures
            r.problem_type@ == "https://datatracker.ietf.org/rfc/rfc7231.html#section-6.6.4"@,
            r.title@ == "Too Many Requests"@,
            r.status == Some(429u16),
            r.detail matches Some(d) && d@ == "Rate limit exceeded"@,
            r.instance is None,
            forall|k: Seq<char>|
                #![trigger entry_lookup(r.extensions@, k)]
                entry_lookup(r.extensions@, k) == match retry_after {
                    Some(n) => if k == "retry_after"@ {
                        Some(JsonValue::Number(JsonNumber::PosInt(n)))
                    } else {
                        None
                    },
                    None => None,
                },
    {
        let p = Self::new(
            "https://datatracker.ietf.org/rfc/rfc7231.html#section-6.6.4",
            "Too Many Requests",
        ).with_status(429).with_detail(String::from_str("Rate limit exceeded"));
        match retry_after {
            Some(n) => p.with_extension("retry_after", JsonValue::Number(JsonNumber::PosInt(n))),
            None => p,
        }
    }

    /// A 413 Payload Too Large problem naming the maximum size.
    pub fn payload_too_large_error(max_size: u64) -> (r: Self)
        ensures
            r.problem_type@ == "https://datatracker.ietf.org/rfc/rfc7231.html#section-6.5.11"@,
            r.title@ == "Payload Too Large"@,
            r.status == Some(413u16),
            r.detail matches Some(d) && d@ == payload_too_large_detail(max_size),
            r.instance is None,
            forall|k: Seq<char>|
                #![trigger entry_lookup(r.extensions@, k)]
                entry_lookup(r.extensions@, k) == if k == "max_size"@ {
                    Some(JsonValue::Number(JsonNumber::PosInt(max_size)))
                } else {
                    None
                },
    {
        let a = str_chars("Request payload exceeds maximum size of ");
        let mut d = a;
        push_decimal(&mut d, max_size);
        let b = str_chars(" bytes");
        let d2 = concat_chars(d.as_slice(), b.as_slice());
        Self::new("https://datatracker.ietf.org/rfc/rfc7231.html#section-6.5.11", "Payload Too Large")
            .with_status(413).with_detail(string_from_chars(d2.as_slice())).with_extension(
            "max_size",
            JsonValue::Number(JsonNumber::PosInt(max_size)),
        )
    }
}

/// Stream status.
#[derive(Debug, Clone, Copy, PartialEq, Eq, Structural)]
pub enum StreamStatus {
    Active,
    Inactive,
    Error,
    Starting,
    Stopping,
}

/// The lower-case name of a stream status.
pub open spec fn stream_status_name(s: StreamStatus) -> Seq<char> {
    match s {
        StreamStatus::Active => "active"@,
        StreamStatus::Inactive => "inactive"@,
        StreamStatus::Error => "error"@,
        StreamStatus::Starting => "starting"@,
        StreamStatus::Stopping => "stopping"@,
    }
}

impl StreamStatus {
    /// The lower-case name of the status.
    pub fn as_str(&self) -> (r: &'static str)
        ensures
            r@ == stream_status_name(*self),
    {
        match self {
            StreamStatus::Active => "active",
            StreamStatus::Inactive => "inactive",
            StreamStatus::Error => "error",
            StreamStatus::Starting => "starting",
            StreamStatus::Stopping => "stopping",
        }
    }

    /// The displayed form of the status (its name).
    pub fn to_display_string(&self) -> (r: String)
        ensures
            r@ == stream_status_name(*self),
    {
        String::from_str(self.as_str())
    }
}

/// One field error of a validation failure.
#[derive(Debug)]
pub struct ValidationError {
    pub field: String,
    pub code: String,
    pub message: String,
    pub value: Option<JsonValue>,
}

/// The message of a field error: its own message, else
/// `Invalid value for field '<field>'`.
pub open spec fn field_error_message(field: Seq<char>, message: Option<Seq<char>>) -> Seq<char> {
    match message {
        Some(m) => m,
        None => "Invalid value for field '"@ + field + "'"@,
    }
}

/// `j` is the JSON object of field error `e`.
pub open spec fn is_validation_json(j: JsonValue, e: ValidationError) -> bool {
    j matches JsonValue::Object(es) && entry_lookup(es@, "field"@) == Some(JsonValue::Str(e.field))
        && entry_lookup(es@, "code"@) == Some(JsonValue::Str(e.code)) && entry_lookup(
        es@,
        "message"@,
    ) == Some(JsonValue::Str(e.message)) && entry_lookup(es@, "value"@) == Some(
        match e.value {
            Some(v) => v,
            None => JsonValue::Null,
        },
    )
}

impl ValidationError {
    /// The entry for one field error.
    pub fn for_field(field: &str, code: &str, message: Option<&str>, value: Option<JsonValue>) -> (r:
        Self)
        ensures
            r.field@ == field@,
            r.code@ == code@,
            r.message@ == field_error_message(
                field@,
                match message {
                    Some(m) => Some(m@),
                    None => None,
                },
            ),
            r.value == value,
    {
        let msg = match message {
            Some(m) => String::from_str(m),
            None => {
                let a = str_chars("Invalid value for field '");
                let f = str_chars(field);
                let b = str_chars("'");
                let x = concat_chars(a.as_slice(), f.as_slice());
                let y = concat_chars(x.as_slice(), b.as_slice());
                string_from_chars(y.as_slice())
            },
        };
        ValidationError {
            field: String::from_str(field),
            code: String::from_str(code),
            message: msg,
            value,
        }
    }

    /// The entry as a JSON object with members `field`, `code`, `message`
    /// and `value` (`null` when absent).
    pub fn to_json(self) -> (r: JsonValue)
        ensures
            is_validation_json(r, self),
    {
        let mut es: Vec<(String, JsonValue)> = Vec::new();
        let ValidationError { field, code, message, value } = self;
        object_insert(&mut es, "field", JsonValue::Str(field));
        object_insert(&mut es, "code", JsonValue::Str(code));
        object_insert(&mut es, "message", JsonValue::Str(message));
        let v = match value {
            Some(v) => v,
            None => JsonValue::Null,
        };
        object_insert(&mut es, "value", v);
        proof {
            reveal_strlit("field");
            reveal_strlit("code");
            reveal_strlit("message");
            reveal_strlit("value");
            assert("field"@.len() == 5 && "code"@.len() == 4 && "message"@.len() == 7
                && "value"@.len() == 5);
            assert("field"@ != "value"@) by {
                assert("field"@[0] != "value"@[0]);
            }
        }
        JsonValue::Object(es)
    }
}

} // verus!
