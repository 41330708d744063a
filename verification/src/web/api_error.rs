//! API errors rendered as RFC 7807 problem details.
use vstd::prelude::*;

use crate::error::Error;
use crate::text::{concat_chars, str_chars, string_from_chars};
use crate::web::json::{JsonValue, object_insert, entry_lookup};
use crate::web::models::{is_validation_json, ProblemDetails, ValidationError};

verus! {

/// An API error: a problem document and the HTTP status it is sent with.
#[derive(Debug)]
pub struct ApiError {
    pub problem: ProblemDetails,
    pub status_code: u16,
}

/// The problem type URI, title and status of each error class.
pub open spec fn problem_kind_uri(status: u16) -> Seq<char> {
    if status == 400 {
        "https://datatracker.ietf.org/rfc/rfc7231.html#section-6.5.1"@
    } else if status == 401 {
        "https://datatracker.ietf.org/rfc/rfc7235.html#section-3.1"@
    } else if status == 403 {
        "https://datatracker.ietf.org/rfc/rfc7231.html#section-6.5.3"@
    } else if status == 404 {
        "https://datatracker.ietf.org/rfc/rfc7231.html#section-6.5.4"@
    } else {
        "https://datatracker.ietf.org/rfc/rfc7231.html#section-6.6.1"@
    }
}

/// The title of each error class.
pub open spec fn problem_kind_title(status: u16) -> Seq<char> {
    if status == 400 {
        "Bad Request"@
    } else if status == 401 {
        "Unauthorized"@
    } else if status == 403 {
        "Forbidden"@
    } else if status == 404 {
        "Not Found"@
    } else {
        "Internal Server Error"@
    }
}

/// An error of class `status` (400, 401, 403, 404 or 500) with `detail`.
pub open spec fn is_problem(e: ApiError, status: u16, detail: Seq<char>) -> bool {
    &&& e.status_code == status
    &&& e.problem.status == Some(status)
    &&& e.problem.problem_type@ == problem_kind_uri(status)
    &&& e.problem.title@ == problem_kind_title(status)
    &&& e.problem.detail matches Some(d) && d@ == detail
    &&& e.problem.instance is None
    &&& e.problem.extensions@.len() == 0
}

/// The detail of the API error a service error becomes.
pub open spec fn error_detail(e: Error) -> Seq<char> {
    match e {
        Error::NotFound(m) => m@,
        Error::Validation(m) => m@,
        Error::Database(m) => "Database error: "@ + m@,
        Error::Config(m) => "Configuration error: "@ + m@,
        Error::Configuration(m) => "Configuration error: "@ + m@,
        Error::External(m) => "External service error: "@ + m@,
        Error::Io(m) => "IO error: "@ + m@,
        Error::Storage(m) => "Storage error: "@ + m@,
    }
}

/// The status of the API error a service error becomes.
pub open spec fn error_status(e: Error) -> u16 {
    match e {
        Error::NotFound(_) => 404,
        Error::Validation(_) => 400,
        _ => 500,
    }
}

fn prefixed(prefix: &str, m: &String) -> (r: String)
    ensures
        r@ == prefix@ + m@,
{
    let a = str_chars(prefix);
    let b = str_chars(m.as_str());
    let c = concat_chars(a.as_slice(), b.as_slice());
    string_from_chars(c.as_slice())
}

impl ApiError {
    /// An error whose status is the problem's, 500 when it has none.
    pub fn new(problem: ProblemDetails) -> (r: Self)
        ensures
            r.status_code == match problem.status {
                Some(s) => s,
                None => 500,
            },
            r.problem == problem,
    {
        let status_code = match problem.status {
            Some(s) => s,
            None => 500,
        };
        ApiError { problem, status_code }
    }

    /// 400 Bad Request.
    pub fn bad_request(detail: String) -> (r: Self)
        ensures
            is_problem(r, 400, detail@),
    {
        Self::new(ProblemDetails::validation_error(detail))
    }

    /// 401 Unauthorized.
    pub fn unauthorized(detail: String) -> (r: Self)
        ensures
            is_problem(r, 401, detail@),
    {
        Self::new(
            ProblemDetails::new(
                "https://datatracker.ietf.org/rfc/rfc7235.html#section-3.1",
                "Unauthorized",
            ).with_status(401).with_detail(detail),
        )
    }

    /// 403 Forbidden.
    pub fn forbidden(detail: String) -> (r: Self)
        ensures
            is_problem(r, 403, detail@),
    {
        Self::new(
            ProblemDetails::new(
                "https://datatracker.ietf.org/rfc/rfc7231.html#section-6.5.3",
                "Forbidden",
            ).with_status(403).with_detail(detail),
        )
    }

    /// 404 Not Found.
    pub fn not_found(detail: String) -> (r: Self)
        ensures
            is_problem(r, 404, detail@),
    {
        Self::new(
            ProblemDetails::new(
                "https://datatracker.ietf.org/rfc/rfc7231.html#section-6.5.4",
                "Not Found",
            ).with_status(404).with_detail(detail),
        )
    }

    /// 500 Internal Server Error.
    pub fn internal_server_error(detail: String) -> (r: Self)
        ensures
            is_problem(r, 500, detail@),
    {
        Self::new(
            ProblemDetails::new(
                "https://datatracker.ietf.org/rfc/rfc7231.html#section-6.6.1",
                "Internal Server Error",
            ).with_status(500).with_detail(detail),
        )
    }

    /// A 400 error listing field errors in an `errors` extension member.
    pub fn validation(errors: Vec<ValidationError>) -> (r: Self)
        ensures
            r.status_code == 400,
            r.problem.status == Some(400u16),
            r.problem.title@ == "Bad Request"@,
            r.problem.detail matches Some(d) && d@ == "Request validation failed"@,
            entry_lookup(r.problem.extensions@, "errors"@) matches Some(JsonValue::Array(items))
                && items@.len() == errors@.len() && forall|j: int|
                0 <= j < items@.len() ==> is_validation_json(items@[j], errors@[j]),
    {
        let mut items: Vec<JsonValue> = Vec::new();
        let mut rest = errors;
        let ghost orig = rest@;
        while rest.len() > 0
            invariant
                items@.len() + rest@.len() == orig.len(),
                rest@ == orig.skip(items@.len() as int),
                forall|j: int| 0 <= j < items@.len() ==> is_validation_json(items@[j], orig[j]),
            decreases rest@.len(),
        {
            let e = rest.remove(0);
            assert(e == orig[items@.len() as int]);
            items.push(e.to_json());
            assert(rest@ =~= orig.skip(items@.len() as int));
        }
        let problem = ProblemDetails::validation_error(String::from_str("Request validation failed"))
            .with_extension("errors", JsonValue::Array(items));
        Self::new(problem)
    }

    /// The error a service error becomes: not-found and validation errors
    /// keep their text; every other kind is a 500 naming its kind.
    pub fn from_error(e: Error) -> (r: Self)
        ensures
            is_problem(r, error_status(e), error_detail(e)),
    {
        match e {
            Error::NotFound(m) => Self::not_found(m),
            Error::Validation(m) => Self::bad_request(m),
            Error::Database(m) => Self::internal_server_error(prefixed("Database error: ", &m)),
            Error::Config(m) => Self::internal_server_error(prefixed("Configuration error: ", &m)),
            Error::Configuration(m) => Self::internal_server_error(
                prefixed("Configuration error: ", &m),
            ),
            Error::External(m) => Self::internal_server_error(
                prefixed("External service error: ", &m),
            ),
            Error::Io(m) => Self::internal_server_error(prefixed("IO error: ", &m)),
            Error::Storage(m) => Self::internal_server_error(prefixed("Storage error: ", &m)),
        }
    }

    /// The HTTP status to answer with: the error's code when it is a valid
    /// status (100 to 999), else 500.
    pub fn http_status(&self) -> (r: u16)
        ensures
            r == if 100 <= self.status_code <= 999 {
                self.status_code
            } else {
                500
            },
    {
        if 100 <= self.status_code && self.status_code <= 999 {
            self.status_code
        } else {
            500
        }
    }

    /// The error as text: `<title>: <detail>`, with `No details available`
    /// when there is no detail.
    pub fn to_display_string(&self) -> (r: String)
        ensures
            r@ == self.problem.title@ + ": "@ + match self.problem.detail {
                Some(d) => d@,
                None => "No details available"@,
            },
    {
        let t = str_chars(self.problem.title.as_str());
        let sep = str_chars(": ");
        let d = match &self.problem.detail {
            Some(d) => str_chars(d.as_str()),
            None => str_chars("No details available"),
        };
        let x = concat_chars(t.as_slice(), sep.as_slice());
        let y = concat_chars(x.as_slice(), d.as_slice());
        string_from_chars(y.as_slice())
    }
}

} // verus!
