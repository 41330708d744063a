//! Session tokens: where requests carry them (the `Authorization` header or
//! the `auth_token` cookie), the cookie that sets them, and the claims they
//! hold.
use vstd::prelude::*;

use crate::error::Error;
use crate::text::{
    chars_eq, concat_chars, is_unicode_whitespace, push_decimal, seq_starts_with, split_chars,
    split_seq, starts_with, str_chars, string_from_chars, sub_chars, trim_chars, trim_seq, views,
    decimal,
};

verus! {

/// Claims carried by a session token.
#[derive(Debug)]
pub struct Claims {
    /// User id.
    pub sub: String,
    pub email: String,
    /// Expiry, seconds since the Unix epoch.
    pub exp: usize,
    /// Issue time, seconds since the Unix epoch.
    pub iat: usize,
    /// Issuer.
    pub iss: String,
}

/// Token lifetime: 24 hours.
pub const TOKEN_EXPIRATION_SECS: u64 = 86400;

/// Session token utilities.
pub struct JwtAuth;

impl JwtAuth {
    /// Token lifetime in seconds.
    pub fn token_expiration_secs() -> (r: u64)
        ensures
            r == 86400,
    {
        TOKEN_EXPIRATION_SECS
    }

    /// The claims of a token issued at `now` (seconds since the Unix epoch)
    /// for a user: it expires a token lifetime later.
    pub fn claims_for(user_id: &str, email: &str, issuer: &str, now: usize) -> (c: Claims)
        requires
            now + 86400 <= usize::MAX,
        ensures
            c.sub@ == user_id@,
            c.email@ == email@,
            c.iss@ == issuer@,
            c.iat == now,
            c.exp == now + 86400,
    {
        Claims {
            sub: String::from_str(user_id),
            email: String::from_str(email),
            exp: now + 86400,
            iat: now,
            iss: String::from_str(issuer),
        }
    }

    /// The claims of a token issued now, from a clock reading in seconds
    /// since the Unix epoch; a clock before the epoch is an error.
    pub fn claims_at(user_id: &str, email: &str, issuer: &str, clock: i64) -> (r: Result<
        Claims,
        Error,
    >)
        ensures
            clock < 0 ==> r is Err && r->Err_0 is Config,
            clock >= 0 && clock + 86400 <= usize::MAX ==> (r matches Ok(c) && c.sub@ == user_id@
                && c.email@ == email@ && c.iss@ == issuer@ && c.iat == clock && c.exp == clock
                + 86400),
            clock + 86400 > usize::MAX ==> r is Err && r->Err_0 is Config,
    {
        if clock < 0 {
            return Err(Error::Config(String::from_str("Time error: clock is before the Unix epoch")));
        }
        if clock as u64 > (usize::MAX - 86400) as u64 {
            return Err(Error::Config(String::from_str("Time error: clock out of range")));
        }
        Ok(Self::claims_for(user_id, email, issuer, clock as usize))
    }
}

/// The token after `Bearer ` in an `Authorization` header.
pub open spec fn bearer_token_of(h: Seq<char>) -> Option<Seq<char>> {
    if seq_starts_with(h, "Bearer "@) {
        Some(h.skip(7))
    } else {
        None
    }
}

/// The first cookie part (trimmed) that starts with `auth_token=`, without
/// that prefix.
pub open spec fn cookie_token_in(parts: Seq<Seq<char>>) -> Option<Seq<char>>
    decreases parts.len(),
{
    if parts.len() == 0 {
        None
    } else if seq_starts_with(trim_seq(parts[0]), "auth_token="@) {
        Some(trim_seq(parts[0]).skip(11))
    } else {
        cookie_token_in(parts.drop_first())
    }
}

/// The `auth_token` cookie value of a `Cookie` header.
pub open spec fn cookie_token_of(h: Seq<char>) -> Option<Seq<char>> {
    cookie_token_in(split_seq(h, ';'))
}

/// The token a request presents: a bearer token when the `Authorization`
/// header has one, else the `auth_token` cookie.
pub open spec fn request_token_of(authorization: Option<Seq<char>>, cookie: Option<Seq<char>>) -> Option<
    Seq<char>,
> {
    let from_header = match authorization {
        Some(h) => bearer_token_of(h),
        None => None,
    };
    match from_header {
        Some(t) => Some(t),
        None => match cookie {
            Some(c) => cookie_token_of(c),
            None => None,
        },
    }
}

/// The bearer token of an `Authorization` header.
pub fn bearer_token(header: &str) -> (r: Option<String>)
    ensures
        match r {
            Some(t) => bearer_token_of(header@) == Some(t@),
            None => bearer_token_of(header@) is None,
        },
{
    proof {
        reveal_strlit("Bearer ");
    }
    let h = str_chars(header);
    let p = str_chars("Bearer ");
    if starts_with(h.as_slice(), p.as_slice()) {
        let t = sub_chars(h.as_slice(), 7, h.len());
        assert(t@ =~= h@.skip(7));
        Some(string_from_chars(t.as_slice()))
    } else {
        None
    }
}

/// The `auth_token` cookie value of a `Cookie` header.
pub fn cookie_token(header: &str) -> (r: Option<String>)
    ensures
        match r {
            Some(t) => cookie_token_of(header@) == Some(t@),
            None => cookie_token_of(header@) is None,
        },
{
    proof {
        reveal_strlit("auth_token=");
    }
    let h = str_chars(header);
    let parts = split_chars(h.as_slice(), ';');
    let prefix = str_chars("auth_token=");
    let ghost ps = views(parts@);
    let mut i: usize = 0;
    assert(ps.skip(0) =~= ps);
    while i < parts.len()
        invariant
            i <= parts@.len(),
            ps == views(parts@),
            ps == split_seq(header@, ';'),
            prefix@ == "auth_token="@,
            prefix@.len() == 11,
            cookie_token_in(ps) == cookie_token_in(ps.skip(i as int)),
        decreases parts@.len() - i,
    {
        let part = trim_chars(parts[i].as_slice());
        let ghost rest = ps.skip(i as int);
        assert(rest[0] == parts@[i as int]@);
        assert(rest.drop_first() =~= ps.skip(i + 1));
        if starts_with(part.as_slice(), prefix.as_slice()) {
            let t = sub_chars(part.as_slice(), 11, part.len());
            assert(t@ =~= part@.skip(11));
            return Some(string_from_chars(t.as_slice()));
        }
        i += 1;
    }
    None
}

/// Where a request's token comes from: a `Bearer` header gives its token
/// whatever the cookie says.
pub proof fn bearer_header_wins(t: Seq<char>, cookie: Option<Seq<char>>)
    ensures
        bearer_token_of("Bearer "@ + t) == Some(t),
        request_token_of(Some("Bearer "@ + t), cookie) == Some(t),
{
    reveal_strlit("Bearer ");
    assert(("Bearer "@ + t).take(7) =~= "Bearer "@);
    assert(("Bearer "@ + t).skip(7) =~= t);
}

/// When the request has no `Authorization` header, or one that is not a
/// `Bearer` header, the token is exactly the `auth_token` cookie's value,
/// and a request with neither presents no token.
pub proof fn cookie_used_without_bearer(authorization: Option<Seq<char>>, c: Seq<char>)
    requires
        authorization matches Some(h) ==> !seq_starts_with(h, "Bearer "@),
    ensures
        request_token_of(authorization, Some(c)) == cookie_token_of(c),
        request_token_of(authorization, None) is None,
{
}

/// The first `auth_token` part of a cookie header decides: a part in front
/// that is not an `auth_token` part changes nothing, and an `auth_token`
/// part in front gives its value whatever follows.
pub proof fn first_auth_cookie_decides(p: Seq<char>, rest: Seq<Seq<char>>)
    ensures
        !seq_starts_with(trim_seq(p), "auth_token="@) ==> cookie_token_in(seq![p] + rest)
            == cookie_token_in(rest),
        seq_starts_with(trim_seq(p), "auth_token="@) ==> cookie_token_in(seq![p] + rest)
            == Some(trim_seq(p).skip(11)),
        cookie_token_in(Seq::empty()) is None,
{
    assert((seq![p] + rest)[0] == p);
    assert((seq![p] + rest).drop_first() =~= rest);
}

proof fn lemma_split_without_separator(s: Seq<char>, sep: char)
    requires
        forall|i: int| 0 <= i < s.len() ==> s[i] != sep,
    ensures
        split_seq(s, sep) == seq![s],
    decreases s.len(),
{
    if s.len() > 0 {
        lemma_split_without_separator(s.drop_last(), sep);
        assert(s.drop_last().push(s.last()) =~= s);
        assert(split_seq(s, sep) =~= seq![s]);
    } else {
        assert(s =~= Seq::<char>::empty());
    }
}

/// A `Cookie` header that is just `auth_token=<v>` (with `v` holding no
/// `;` and not ending in whitespace) carries the token `v`, and a request
/// with only that cookie presents it.
pub proof fn single_cookie_token(v: Seq<char>)
    requires
        forall|i: int| 0 <= i < v.len() ==> v[i] != ';',
        v.len() > 0 ==> !is_unicode_whitespace(v.last()),
    ensures
        cookie_token_of("auth_token="@ + v) == Some(v),
        request_token_of(None, Some("auth_token="@ + v)) == Some(v),
{
    reveal_strlit("auth_token=");
    let c = "auth_token="@ + v;
    assert(c.len() == 11 + v.len());
    assert forall|i: int| 0 <= i < c.len() implies c[i] != ';' by {
        if i >= 11 {
            assert(c[i] == v[i - 11]);
        }
    }
    lemma_split_without_separator(c, ';');
    assert(c[0] == 'a');
    assert(crate::text::trim_start_seq(c) == c);
    if v.len() > 0 {
        assert(c.last() == v.last());
    } else {
        assert(c.last() == '=');
    }
    assert(crate::text::trim_end_seq(c) == c);
    assert(trim_seq(c) == c);
    assert(c.take(11) =~= "auth_token="@);
    assert(c.skip(11) =~= v);
    assert(split_seq(c, ';')[0] == c);
    assert(split_seq(c, ';').len() == 1);
}

/// The token a request presents (see `request_token_of`).  Each argument is
/// the header text when the header is present and readable.
pub fn request_token(authorization: Option<&str>, cookie: Option<&str>) -> (r: Option<String>)
    ensures
        match r {
            Some(t) => request_token_of(
                match authorization {
                    Some(a) => Some(a@),
                    None => None,
                },
                match cookie {
                    Some(c) => Some(c@),
                    None => None,
                },
            ) == Some(t@),
            None => request_token_of(
                match authorization {
                    Some(a) => Some(a@),
                    None => None,
                },
                match cookie {
                    Some(c) => Some(c@),
                    None => None,
                },
            ) is None,
        },
{
    let from_header = match authorization {
        Some(a) => bearer_token(a),
        None => None,
    };
    match from_header {
        Some(t) => Some(t),
        None => match cookie {
            Some(c) => cookie_token(c),
            None => None,
        },
    }
}

// ---------------------------------------------------------------------------
// The cookie reader of the server-rendered pages
// ---------------------------------------------------------------------------

/// Whether `char::is_alphanumeric` holds of a character (Unicode
/// `Alphabetic` or `Numeric`).
pub uninterp spec fn is_unicode_alphanumeric(c: char) -> bool;

/// `char::is_alphanumeric`: the claim is only that the answer is the one
/// `is_unicode_alphanumeric` names for this character.
#[verifier::external_body]
pub(crate) fn char_is_alphanumeric(c: char) -> (r: bool)
    ensures
        r == is_unicode_alphanumeric(c),
{
    c.is_alphanumeric()
}

/// Number of bytes of a character in UTF-8.
pub open spec fn utf8_width(c: char) -> nat {
    if (c as u32) < 0x80 {
        1
    } else if (c as u32) < 0x800 {
        2
    } else if (c as u32) < 0x10000 {
        3
    } else {
        4
    }
}

/// Number of bytes of a text in UTF-8 (what `str::len` gives).
pub open spec fn utf8_len(s: Seq<char>) -> nat
    decreases s.len(),
{
    if s.len() == 0 {
        0
    } else {
        utf8_len(s.drop_last()) + utf8_width(s.last())
    }
}

/// A character a session token may hold.
pub open spec fn token_char(c: char) -> bool {
    is_unicode_alphanumeric(c) || c == '.' || c == '-' || c == '_'
}

/// The value a page cookie part yields once unquoted: surrounding double
/// quotes are removed.  `None` when the value is a lone `"`, on which the
/// quote removal fails.
pub open spec fn unquoted(v: Seq<char>) -> Option<Seq<char>> {
    if v.len() > 0 && v[0] == '"' && v.last() == '"' {
        if v.len() >= 2 {
            Some(v.subrange(1, v.len() - 1))
        } else {
            None
        }
    } else {
        Some(v)
    }
}

/// Outcome of reading the page cookie: a token, no token, or a lone `"` as
/// the value reached first.
pub enum PageCookieScan {
    Token(Seq<char>),
    NoToken,
    LoneQuote,
}

/// The first `auth_token` part whose (unquoted) value is made of token
/// characters and is longer than ten bytes.
pub open spec fn page_cookie_scan(parts: Seq<Seq<char>>) -> PageCookieScan
    decreases parts.len(),
{
    if parts.len() == 0 {
        PageCookieScan::NoToken
    } else {
        let p = trim_seq(parts[0]);
        if seq_starts_with(p, "auth_token="@) {
            match unquoted(p.skip(11)) {
                None => PageCookieScan::LoneQuote,
                Some(v) => if (forall|i: int| 0 <= i < v.len() ==> token_char(#[trigger] v[i]))
                    && utf8_len(v) > 10 {
                    PageCookieScan::Token(v)
                } else {
                    page_cookie_scan(parts.drop_first())
                },
            }
        } else {
            page_cookie_scan(parts.drop_first())
        }
    }
}

/// The UTF-8 length of a text.
pub fn utf8_length(s: &[char]) -> (n: usize)
    requires
        s@.len() <= usize::MAX / 4,
    ensures
        n == utf8_len(s@),
{
    let mut n: usize = 0;
    let mut i: usize = 0;
    while i < s.len()
        invariant
            i <= s@.len(),
            s@.len() <= usize::MAX / 4,
            n == utf8_len(s@.take(i as int)),
            n <= 4 * i,
        decreases s@.len() - i,
    {
        let c = s[i] as u32;
        let w: usize = if c < 0x80 {
            1
        } else if c < 0x800 {
            2
        } else if c < 0x10000 {
            3
        } else {
            4
        };
        assert(s@.take(i + 1).drop_last() =~= s@.take(i as int));
        n = n + w;
        i += 1;
    }
    assert(s@.take(s@.len() as int) =~= s@);
    n
}

fn all_token_chars(v: &[char]) -> (r: bool)
    ensures
        r == forall|i: int| 0 <= i < v@.len() ==> token_char(#[trigger] v@[i]),
{
    let mut i: usize = 0;
    while i < v.len()
        invariant
            i <= v@.len(),
            forall|j: int| 0 <= j < i ==> token_char(#[trigger] v@[j]),
        decreases v@.len() - i,
    {
        let c = v[i];
        if !(char_is_alphanumeric(c) || c == '.' || c == '-' || c == '_') {
            assert(!token_char(v@[i as int]));
            return false;
        }
        i += 1;
    }
    true
}

/// What the server-rendered pages read from a `Cookie` header: a session
/// token, none, or a lone `"` as the first `auth_token` value reached, on
/// which the quote removal cannot be made.
#[derive(Debug)]
pub enum PageCookieRead {
    Token(String),
    NoToken,
    LoneQuote,
}

/// Reads the `Cookie` header of the server-rendered pages: the first
/// `auth_token` part whose (unquoted) value is made of token characters and
/// is longer than ten bytes, with a lone `"` reached first reported as such.
pub fn page_cookie_read(header: &str) -> (r: PageCookieRead)
    requires
        header@.len() <= usize::MAX / 4,
    ensures
        match r {
            PageCookieRead::Token(t) => page_cookie_scan(split_seq(header@, ';'))
                == PageCookieScan::Token(t@),
            PageCookieRead::NoToken => page_cookie_scan(split_seq(header@, ';')) is NoToken,
            PageCookieRead::LoneQuote => page_cookie_scan(split_seq(header@, ';')) is LoneQuote,
        },
{
    proof {
        reveal_strlit("auth_token=");
    }
    let h = str_chars(header);
    let parts = split_chars(h.as_slice(), ';');
    let prefix = str_chars("auth_token=");
    let ghost ps = views(parts@);
    proof {
        assert(ps.skip(0) =~= ps);
        lemma_parts_short(h@, ';');
    }
    let mut i: usize = 0;
    while i < parts.len()
        invariant
            i <= parts@.len(),
            ps == views(parts@),
            ps == split_seq(header@, ';'),
            header@.len() <= usize::MAX / 4,
            forall|j: int| 0 <= j < ps.len() ==> (#[trigger] ps[j]).len() <= header@.len(),
            prefix@ == "auth_token="@,
            prefix@.len() == 11,
            page_cookie_scan(ps) == page_cookie_scan(ps.skip(i as int)),
        decreases parts@.len() - i,
    {
        let part = trim_chars(parts[i].as_slice());
        let ghost rest = ps.skip(i as int);
        assert(rest[0] == parts@[i as int]@);
        assert(rest.drop_first() =~= ps.skip(i + 1));
        proof {
            lemma_trim_shorter(parts@[i as int]@);
            assert(ps[i as int] == parts@[i as int]@);
            assert(part@.len() <= header@.len());
        }
        if starts_with(part.as_slice(), prefix.as_slice()) {
            let raw = sub_chars(part.as_slice(), 11, part.len());
            assert(raw@ =~= part@.skip(11));
            assert(raw@.len() > 0 ==> raw@.last() == raw@[raw@.len() - 1]);
            if raw.len() == 1 && raw[0] == '"' {
                proof {
                    assert(unquoted(raw@) is None);
                    assert(trim_seq(rest[0]) == part@);
                }
                return PageCookieRead::LoneQuote;
            }
            let value: Vec<char> = if raw.len() >= 2 && raw[0] == '"' && raw[raw.len() - 1] == '"' {
                sub_chars(raw.as_slice(), 1, raw.len() - 1)
            } else {
                raw
            };
            assert(unquoted(raw@) == Some(value@));
            if all_token_chars(value.as_slice()) && utf8_length(value.as_slice()) > 10 {
                return PageCookieRead::Token(string_from_chars(value.as_slice()));
            }
        }
        i += 1;
    }
    PageCookieRead::NoToken
}

/// The session token of the server-rendered pages' `Cookie` header.  A lone
/// `"` as the first `auth_token` value reached is not accepted (the quote
/// removal cannot be made): `page_cookie_read` reports that case.
pub fn page_cookie_token(header: &str) -> (r: Option<String>)
    requires
        !(page_cookie_scan(split_seq(header@, ';')) is LoneQuote),
        header@.len() <= usize::MAX / 4,
    ensures
        match r {
            Some(t) => page_cookie_scan(split_seq(header@, ';')) == PageCookieScan::Token(t@),
            None => page_cookie_scan(split_seq(header@, ';')) is NoToken,
        },
{
    match page_cookie_read(header) {
        PageCookieRead::Token(t) => Some(t),
        PageCookieRead::NoToken => None,
        PageCookieRead::LoneQuote => None,
    }
}

proof fn lemma_trim_shorter(s: Seq<char>)
    ensures
        trim_seq(s).len() <= s.len(),
{
    lemma_trim_start_shorter(s);
    lemma_trim_end_shorter(crate::text::trim_start_seq(s));
}

proof fn lemma_trim_start_shorter(s: Seq<char>)
    ensures
        crate::text::trim_start_seq(s).len() <= s.len(),
    decreases s.len(),
{
    if s.len() > 0 && is_unicode_whitespace(s[0]) {
        lemma_trim_start_shorter(s.drop_first());
    }
}

proof fn lemma_trim_end_shorter(s: Seq<char>)
    ensures
        crate::text::trim_end_seq(s).len() <= s.len(),
    decreases s.len(),
{
    if s.len() > 0 && is_unicode_whitespace(s.last()) {
        lemma_trim_end_shorter(s.drop_last());
    }
}

proof fn lemma_parts_short(s: Seq<char>, sep: char)
    ensures
        forall|j: int|
            0 <= j < split_seq(s, sep).len() ==> (#[trigger] split_seq(s, sep)[j]).len() <= s.len(),
    decreases s.len(),
{
    if s.len() > 0 {
        lemma_parts_short(s.drop_last(), sep);
        let r = split_seq(s.drop_last(), sep);
        crate::text::lemma_split_nonempty(s.drop_last(), sep);
        assert forall|j: int|
            0 <= j < split_seq(s, sep).len() implies (#[trigger] split_seq(s, sep)[j]).len()
            <= s.len() by {
            if j < r.len() {
                assert(r[j].len() <= s.len() - 1);
            }
        }
    }
}

// ---------------------------------------------------------------------------
// The cookie that sets a token
// ---------------------------------------------------------------------------

/// The `Set-Cookie` value that stores a session token.
pub open spec fn auth_cookie_text(token: Seq<char>, max_age: u64, secure: bool) -> Seq<char> {
    "auth_token="@ + token + "; Path=/; Max-Age="@ + decimal(max_age as nat)
        + "; HttpOnly; SameSite=Lax"@ + if secure {
        "; Secure"@
    } else {
        Seq::<char>::empty()
    }
}

/// The `Set-Cookie` value that stores a session token for `max_age`
/// seconds, marked `Secure` when asked.
pub fn auth_cookie(token: &str, max_age: u64, secure: bool) -> (r: String)
    ensures
        r@ == auth_cookie_text(token@, max_age, secure),
{
    let a = str_chars("auth_token=");
    let t = str_chars(token);
    let mut out = concat_chars(a.as_slice(), t.as_slice());
    let b = str_chars("; Path=/; Max-Age=");
    out = concat_chars(out.as_slice(), b.as_slice());
    push_decimal(&mut out, max_age);
    let c = str_chars("; HttpOnly; SameSite=Lax");
    out = concat_chars(out.as_slice(), c.as_slice());
    if secure {
        let d = str_chars("; Secure");
        out = concat_chars(out.as_slice(), d.as_slice());
    } else {
        assert(out@ + Seq::<char>::empty() =~= out@);
    }
    string_from_chars(out.as_slice())
}

proof fn lemma_split_no_sep(s: Seq<char>, sep: char)
    requires
        !s.contains(sep),
    ensures
        split_seq(s, sep) == seq![s],
    decreases s.len(),
{
    if s.len() > 0 {
        assert(!s.drop_last().contains(sep)) by {
            if s.drop_last().contains(sep) {
                let i = choose|i: int| 0 <= i < s.drop_last().len() && s.drop_last()[i] == sep;
                assert(s[i] == sep);
            }
        }
        lemma_split_no_sep(s.drop_last(), sep);
        assert(s.last() != sep) by {
            assert(s[s.len() - 1] == s.last());
        }
        assert(s.drop_last().push(s.last()) =~= s);
        assert(seq![s.drop_last()].update(0, s.drop_last().push(s.last())) =~= seq![s]);
    } else {
        assert(s =~= Seq::<char>::empty());
    }
}

proof fn lemma_split_first(a: Seq<char>, b: Seq<char>, sep: char)
    requires
        !a.contains(sep),
    ensures
        split_seq(a.push(sep) + b, sep)[0] == a,
        split_seq(a.push(sep) + b, sep).len() >= 2,
    decreases b.len(),
{
    let s = a.push(sep) + b;
    if b.len() == 0 {
        assert(s =~= a.push(sep));
        assert(s.drop_last() =~= a);
        lemma_split_no_sep(a, sep);
    } else {
        assert(s.drop_last() =~= a.push(sep) + b.drop_last());
        lemma_split_first(a, b.drop_last(), sep);
    }
}

/// Reading back the cookie that stores a token gives the token, when the
/// token holds no `;` and does not end in whitespace.
pub proof fn cookie_token_roundtrip(token: Seq<char>, max_age: u64, secure: bool)
    requires
        !token.contains(';'),
        token.len() > 0 ==> !is_unicode_whitespace(token.last()),
    ensures
        cookie_token_of(auth_cookie_text(token, max_age, secure)) == Some(token),
{
    reveal_strlit("auth_token=");
    reveal_strlit("; Path=/; Max-Age=");
    reveal_strlit("; HttpOnly; SameSite=Lax");
    reveal_strlit("; Secure");
    reveal_strlit(" Path=/; Max-Age=");
    let a = "auth_token="@ + token;
    let full = auth_cookie_text(token, max_age, secure);
    let rest = " Path=/; Max-Age="@ + decimal(max_age as nat) + "; HttpOnly; SameSite=Lax"@ + if secure {
        "; Secure"@
    } else {
        Seq::<char>::empty()
    };
    assert(full =~= a.push(';') + rest);
    assert(!a.contains(';')) by {
        if a.contains(';') {
            let i = choose|i: int| 0 <= i < a.len() && a[i] == ';';
            if i >= 11 {
                assert(token[i - 11] == ';');
            }
        }
    }
    lemma_split_first(a, rest, ';');
    let parts = split_seq(full, ';');
    assert(parts[0] == a);
    // `a` has no whitespace at either end
    assert(a[0] == 'a');
    assert(trim_seq(a) == a) by {
        assert(crate::text::trim_start_seq(a) == a);
        if token.len() > 0 {
            assert(a.last() == token.last());
        } else {
            assert(a.last() == '=');
        }
        assert(crate::text::trim_end_seq(a) == a);
    }
    assert(seq_starts_with(a, "auth_token="@)) by {
        assert(a.take(11) =~= "auth_token="@);
    }
    assert(a.skip(11) =~= token);
}

// ---------------------------------------------------------------------------
// The authenticated user
// ---------------------------------------------------------------------------

/// The authentication layer: requests must carry a valid session token.
#[derive(Debug, Clone, Copy)]
pub struct RequireAuth;

impl RequireAuth {
    pub fn new() -> (r: Self) {
        RequireAuth
    }
}

/// The user a verified session token names.
#[derive(Debug)]
pub struct AuthUser {
    pub id: String,
    pub email: String,
}

impl AuthUser {
    /// The user of a token's claims: its subject and e-mail address.
    pub fn from_jwt(claims: Claims) -> (r: Self)
        ensures
            r.id == claims.sub,
            r.email == claims.email,
    {
        AuthUser { id: claims.sub, email: claims.email }
    }
}

/// What the authentication layer does with a request.
#[derive(Debug)]
pub enum AuthVerdict {
    /// Pass the request on as this user.
    Authenticated(AuthUser),
    /// Refuse with `401` and this message.
    Unauthorized(&'static str),
}

/// The authentication layer's verdict, given the token found in the
/// request (see `request_token`) and what verifying it gave: no token is
/// "Authentication required", a token that does not verify "Invalid JWT
/// token", and a verified token authenticates its user.
pub fn authenticate(token: Option<&str>, verified: Option<Result<Claims, Error>>) -> (r: AuthVerdict)
    requires
        token is Some <==> verified is Some,
    ensures
        match verified {
            None => r matches AuthVerdict::Unauthorized(m) && m@ == "Authentication required"@,
            Some(Err(_)) => r matches AuthVerdict::Unauthorized(m) && m@ == "Invalid JWT token"@,
            Some(Ok(c)) => r matches AuthVerdict::Authenticated(u) && u.id == c.sub && u.email
                == c.email,
        },
{
    match verified {
        None => AuthVerdict::Unauthorized("Authentication required"),
        Some(Err(_)) => AuthVerdict::Unauthorized("Invalid JWT token"),
        Some(Ok(c)) => AuthVerdict::Authenticated(AuthUser::from_jwt(c)),
    }
}

} // verus!
