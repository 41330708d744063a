//! Request body size limits with per-endpoint overrides.
use vstd::prelude::*;

use crate::text::{chars_eq, seq_starts_with, starts_with, str_chars, string_of};
use crate::web::json::{entry_lookup, JsonNumber, JsonValue};
use crate::web::models::{payload_too_large_detail, ProblemDetails};

verus! {

/// Body size limits configuration.
#[derive(Debug, Clone)]
pub struct BodyLimitsConfig {
    /// Default JSON body size limit in bytes.
    pub default_json_limit: usize,
    /// Per-endpoint override limits (path, limit), one entry per path, in the
    /// order they were added.
    pub endpoint_overrides: Vec<(String, usize)>,
}

/// The overrides as (path, limit) pairs.
pub open spec fn overrides_view(v: Seq<(String, usize)>) -> Seq<(Seq<char>, usize)> {
    v.map_values(|e: (String, usize)| (e.0@, e.1))
}

/// The limit of the first override whose path is exactly `path`.
pub open spec fn exact_override(ovs: Seq<(Seq<char>, usize)>, path: Seq<char>) -> Option<usize>
    decreases ovs.len(),
{
    if ovs.len() == 0 {
        None
    } else if ovs[0].0 == path {
        Some(ovs[0].1)
    } else {
        exact_override(ovs.drop_first(), path)
    }
}

/// The limit of the first override whose path is a prefix of `path`.
pub open spec fn prefix_override(ovs: Seq<(Seq<char>, usize)>, path: Seq<char>) -> Option<usize>
    decreases ovs.len(),
{
    if ovs.len() == 0 {
        None
    } else if seq_starts_with(path, ovs[0].0) {
        Some(ovs[0].1)
    } else {
        prefix_override(ovs.drop_first(), path)
    }
}

/// The limit that applies to `path`: an exact override, else a prefix
/// override, else the default.
pub open spec fn limit_for(default: usize, ovs: Seq<(Seq<char>, usize)>, path: Seq<char>) -> usize {
    match exact_override(ovs, path) {
        Some(l) => l,
        None => match prefix_override(ovs, path) {
            Some(l) => l,
            None => default,
        },
    }
}

/// Every path occurs at most once among the overrides.
pub open spec fn distinct_paths(ovs: Seq<(Seq<char>, usize)>) -> bool {
    forall|i: int, j: int| 0 <= i < j < ovs.len() ==> ovs[i].0 != ovs[j].0
}

/// The overrides after setting `path` to `limit`: the first entry for
/// `path` changes in place, or a new entry is appended.
pub open spec fn set_override(ovs: Seq<(Seq<char>, usize)>, path: Seq<char>, limit: usize) -> Seq<
    (Seq<char>, usize),
>
    decreases ovs.len(),
{
    if ovs.len() == 0 {
        seq![(path, limit)]
    } else if ovs[0].0 == path {
        ovs.update(0, (path, limit))
    } else {
        seq![ovs[0]] + set_override(ovs.drop_first(), path, limit)
    }
}

proof fn lemma_set_at(ovs: Seq<(Seq<char>, usize)>, i: int, path: Seq<char>, limit: usize)
    requires
        0 <= i <= ovs.len(),
        forall|j: int| 0 <= j < i ==> ovs[j].0 != path,
        i < ovs.len() ==> ovs[i].0 == path,
    ensures
        set_override(ovs, path, limit) == if i < ovs.len() {
            ovs.update(i, (path, limit))
        } else {
            ovs.push((path, limit))
        },
    decreases i,
{
    if i > 0 {
        lemma_set_at(ovs.drop_first(), i - 1, path, limit);
        if i < ovs.len() {
            assert(seq![ovs[0]] + ovs.drop_first().update(i - 1, (path, limit)) =~= ovs.update(
                i,
                (path, limit),
            ));
        } else {
            assert(seq![ovs[0]] + ovs.drop_first().push((path, limit)) =~= ovs.push((path, limit)));
        }
    } else if ovs.len() == 0 {
        assert(seq![(path, limit)] =~= ovs.push((path, limit)));
    }
}

proof fn lemma_exact_skip(ovs: Seq<(Seq<char>, usize)>, i: int, path: Seq<char>)
    requires
        0 <= i <= ovs.len(),
        forall|j: int| 0 <= j < i ==> ovs[j].0 != path,
    ensures
        exact_override(ovs, path) == exact_override(ovs.skip(i), path),
    decreases i,
{
    if i > 0 {
        assert(ovs.skip(1) =~= ovs.drop_first());
        lemma_exact_skip(ovs.drop_first(), i - 1, path);
        assert(ovs.drop_first().skip(i - 1) =~= ovs.skip(i));
    } else {
        assert(ovs.skip(0) =~= ovs);
    }
}

proof fn lemma_prefix_skip(ovs: Seq<(Seq<char>, usize)>, i: int, path: Seq<char>)
    requires
        0 <= i <= ovs.len(),
        forall|j: int| 0 <= j < i ==> !seq_starts_with(path, #[trigger] ovs[j].0),
    ensures
        prefix_override(ovs, path) == prefix_override(ovs.skip(i), path),
    decreases i,
{
    if i > 0 {
        assert(ovs.skip(1) =~= ovs.drop_first());
        lemma_prefix_skip(ovs.drop_first(), i - 1, path);
        assert(ovs.drop_first().skip(i - 1) =~= ovs.skip(i));
    } else {
        assert(ovs.skip(0) =~= ovs);
    }
}

proof fn lemma_exact_of_set(ovs: Seq<(Seq<char>, usize)>, path: Seq<char>, limit: usize)
    ensures
        exact_override(set_override(ovs, path, limit), path) == Some(limit),
        distinct_paths(ovs) ==> distinct_paths(set_override(ovs, path, limit)),
{
    let n = set_override(ovs, path, limit);
    if exists|w: int| 0 <= w < ovs.len() && ovs[w].0 == path {
        let w = choose|w: int| 0 <= w < ovs.len() && ovs[w].0 == path;
        lemma_first_match(ovs, path, w);
        let i = choose|i: int|
            0 <= i <= w && ovs[i].0 == path && forall|j: int| 0 <= j < i ==> ovs[j].0 != path;
        lemma_set_at(ovs, i, path, limit);
        lemma_exact_skip(n, i, path);
        assert(n.skip(i)[0] == (path, limit));
        assert forall|a: int| 0 <= a < n.len() implies n[a].0 == ovs[a].0 by {}
    } else {
        lemma_set_at(ovs, ovs.len() as int, path, limit);
        lemma_exact_skip(n, ovs.len() as int, path);
        assert(n.skip(ovs.len() as int)[0] == (path, limit));
    }
}

proof fn lemma_first_match(ovs: Seq<(Seq<char>, usize)>, path: Seq<char>, w: int)
    requires
        0 <= w < ovs.len(),
        ovs[w].0 == path,
    ensures
        exists|i: int|
            0 <= i <= w && ovs[i].0 == path && forall|j: int| 0 <= j < i ==> ovs[j].0 != path,
    decreases w,
{
    if w > 0 && exists|j: int| 0 <= j < w && ovs[j].0 == path {
        let j = choose|j: int| 0 <= j < w && ovs[j].0 == path;
        lemma_first_match(ovs, path, j);
    } else {
        assert(forall|j: int| 0 <= j < w ==> ovs[j].0 != path);
    }
}

impl BodyLimitsConfig {
    /// The overrides as (path, limit) pairs.
    pub open spec fn overrides(&self) -> Seq<(Seq<char>, usize)> {
        overrides_view(self.endpoint_overrides@)
    }

    /// A configuration with the given default limit and no overrides.
    pub fn new(default_json_limit: usize) -> (r: Self)
        ensures
            r.default_json_limit == default_json_limit,
            r.overrides().len() == 0,
    {
        BodyLimitsConfig { default_json_limit, endpoint_overrides: Vec::new() }
    }

    /// The default configuration: a 1 MiB limit and no overrides.
    pub fn default_config() -> (r: Self)
        ensures
            r.default_json_limit == 1048576,
            r.overrides().len() == 0,
    {
        Self::new(1048576)
    }

    /// Adds (or replaces) the override for `path`.
    pub fn with_override(self, path: &str, limit: usize) -> (r: Self)
        ensures
            r.default_json_limit == self.default_json_limit,
            r.overrides() == set_override(self.overrides(), path@, limit),
    {
        let mut s = self;
        let p = str_chars(path);
        let ghost ovs = s.overrides();
        let mut i: usize = 0;
        while i < s.endpoint_overrides.len()
            invariant
                i <= s.endpoint_overrides@.len(),
                ovs == self.overrides(),
                s.default_json_limit == self.default_json_limit,
                ovs == overrides_view(s.endpoint_overrides@),
                p@ == path@,
                forall|j: int| 0 <= j < i ==> ovs[j].0 != path@,
            decreases s.endpoint_overrides@.len() - i,
        {
            let k = str_chars(s.endpoint_overrides[i].0.as_str());
            if chars_eq(k.as_slice(), p.as_slice()) {
                let ghost old_v = s.endpoint_overrides@;
                s.endpoint_overrides.set(i, (String::from_str(path), limit));
                proof {
                    assert(ovs[i as int].0 == path@);
                    lemma_set_at(ovs, i as int, path@, limit);
                    assert(s.overrides() =~= ovs.update(i as int, (path@, limit)));
                }
                return s;
            }
            i += 1;
        }
        s.endpoint_overrides.push((String::from_str(path), limit));
        proof {
            lemma_set_at(ovs, ovs.len() as int, path@, limit);
        }
        assert(s.overrides() =~= ovs.push((path@, limit)));
        s
    }

    /// The limit that applies to a request path.
    pub fn get_limit_for_path(&self, path: &str) -> (r: usize)
        ensures
            r == limit_for(self.default_json_limit, self.overrides(), path@),
    {
        let p = str_chars(path);
        let ghost ovs = self.overrides();
        let n = self.endpoint_overrides.len();
        let mut i: usize = 0;
        while i < n
            invariant
                n == self.endpoint_overrides@.len(),
                i <= n,
                ovs == self.overrides(),
                p@ == path@,
                forall|j: int| 0 <= j < i ==> ovs[j].0 != path@,
            decreases n - i,
        {
            let k = str_chars(self.endpoint_overrides[i].0.as_str());
            if chars_eq(k.as_slice(), p.as_slice()) {
                proof {
                    lemma_exact_skip(ovs, i as int, path@);
                }
                return self.endpoint_overrides[i].1;
            }
            i += 1;
        }
        proof {
            lemma_exact_skip(ovs, n as int, path@);
        }
        let mut j: usize = 0;
        while j < n
            invariant
                n == self.endpoint_overrides@.len(),
                j <= n,
                ovs == self.overrides(),
                p@ == path@,
                exact_override(ovs, path@) is None,
                forall|m: int| 0 <= m < j ==> !seq_starts_with(path@, #[trigger] ovs[m].0),
            decreases n - j,
        {
            let k = str_chars(self.endpoint_overrides[j].0.as_str());
            if starts_with(p.as_slice(), k.as_slice()) {
                proof {
                    lemma_prefix_skip(ovs, j as int, path@);
                }
                return self.endpoint_overrides[j].1;
            }
            j += 1;
        }
        proof {
            lemma_prefix_skip(ovs, n as int, path@);
        }
        self.default_json_limit
    }
}

/// After `with_override(path, limit)`, the limit for `path` is `limit`, and
/// paths stay listed at most once.
pub proof fn override_is_read_back(
    default: usize,
    ovs: Seq<(Seq<char>, usize)>,
    path: Seq<char>,
    limit: usize,
)
    ensures
        limit_for(default, set_override(ovs, path, limit), path) == limit,
        distinct_paths(ovs) ==> distinct_paths(set_override(ovs, path, limit)),
{
    lemma_exact_of_set(ovs, path, limit);
}

/// A path that no override names or starts with gets the default limit.
pub proof fn unmatched_path_gets_default(
    default: usize,
    ovs: Seq<(Seq<char>, usize)>,
    path: Seq<char>,
)
    requires
        forall|i: int| 0 <= i < ovs.len() ==> !seq_starts_with(path, #[trigger] ovs[i].0),
    ensures
        limit_for(default, ovs, path) == default,
{
    assert forall|i: int| 0 <= i < ovs.len() implies ovs[i].0 != path by {
        if ovs[i].0 == path {
            assert(path.take(path.len() as int) =~= path);
            assert(seq_starts_with(path, ovs[i].0));
        }
    }
    lemma_exact_skip(ovs, ovs.len() as int, path);
    lemma_prefix_skip(ovs, ovs.len() as int, path);
}

/// The problem sent for a refused body: the payload-too-large problem for
/// the limit, with the request's `path` and `received_size` added.
pub fn rejection_problem(limit: usize, path: &str, received_size: usize) -> (r: ProblemDetails)
    ensures
        r.problem_type@ == "https://datatracker.ietf.org/rfc/rfc7231.html#section-6.5.11"@,
        r.title@ == "Payload Too Large"@,
        r.status == Some(413u16),
        r.detail matches Some(d) && d@ == payload_too_large_detail(limit as u64),
        r.instance is None,
        entry_lookup(r.extensions@, "max_size"@) == Some(JsonValue::Number(JsonNumber::PosInt(limit as u64))),
        entry_lookup(r.extensions@, "path"@) matches Some(JsonValue::Str(p)) && p@ == path@,
        entry_lookup(r.extensions@, "received_size"@) == Some(
            JsonValue::Number(JsonNumber::PosInt(received_size as u64)),
        ),
{
    proof {
        reveal_strlit("max_size");
        reveal_strlit("path");
        reveal_strlit("received_size");
        assert("max_size"@ != "path"@) by {
            assert("max_size"@.len() != "path"@.len());
        }
        assert("max_size"@ != "received_size"@) by {
            assert("max_size"@.len() != "received_size"@.len());
        }
        assert("path"@ != "received_size"@) by {
            assert("path"@.len() != "received_size"@.len());
        }
    }
    let p0 = ProblemDetails::payload_too_large_error(limit as u64);
    let p1 = p0.with_extension("path", JsonValue::Str(string_of(path)));
    let p2 = p1.with_extension(
        "received_size",
        JsonValue::Number(JsonNumber::PosInt(received_size as u64)),
    );
    p2
}

/// Body size limit middleware: holds the configuration it checks against.
pub struct BodyLimits {
    config: BodyLimitsConfig,
}

/// What the middleware does with a request.
#[derive(Debug, PartialEq, Eq)]
pub enum BodyLimitDecision {
    /// Pass the request on.
    Forward,
    /// Answer 413 Payload Too Large; `limit` is the limit that was exceeded.
    Reject { limit: usize },
}

impl BodyLimits {
    /// The configuration the middleware applies.
    pub closed spec fn spec_config(&self) -> BodyLimitsConfig {
        self.config
    }

    /// A middleware with the given configuration.
    pub fn new(config: BodyLimitsConfig) -> (r: Self)
        ensures
            r.spec_config() == config,
    {
        BodyLimits { config }
    }

    /// The configuration the middleware applies.
    pub fn config(&self) -> (r: &BodyLimitsConfig)
        ensures
            *r == self.spec_config(),
    {
        &self.config
    }

    /// The decision for a request: only JSON requests (content type starting
    /// with `application/json`) that declare a length above the path's limit
    /// are rejected.
    pub fn decide(&self, path: &str, content_type: Option<&str>, content_length: Option<usize>) -> (r:
        BodyLimitDecision)
        ensures
            ({
                let is_json = match content_type {
                    Some(ct) => seq_starts_with(ct@, "application/json"@),
                    None => false,
                };
                let limit = limit_for(
                    self.spec_config().default_json_limit,
                    self.spec_config().overrides(),
                    path@,
                );
                if is_json && content_length is Some && content_length->0 > limit {
                    r == BodyLimitDecision::Reject { limit }
                } else {
                    r == BodyLimitDecision::Forward
                }
            }),
    {
        let is_json = match content_type {
            Some(ct) => {
                let c = str_chars(ct);
                let j = str_chars("application/json");
                starts_with(c.as_slice(), j.as_slice())
            },
            None => false,
        };
        if is_json {
            let limit = self.config.get_limit_for_path(path);
            match content_length {
                Some(len) => {
                    if len > limit {
                        return BodyLimitDecision::Reject { limit };
                    }
                },
                None => {},
            }
        }
        BodyLimitDecision::Forward
    }
}

} // verus!
