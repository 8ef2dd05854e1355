//! Request classification for the local HTTP API: which origins may call it,
//! which handler a method and path go to, and the `jobId` query parameter.
use vstd::prelude::*;
use crate::text::{
    chars_eq, from_chars, has_prefix, slice_chars, starts_with_chars, to_chars,
};

verus! {

// ---------------------------------------------------------------------------
// Searching
// ---------------------------------------------------------------------------

/// The first position at or after `start` that holds `c`, or `s.len()` when
/// there is none.
pub open spec fn index_from(s: Seq<char>, start: int, c: char) -> int
    decreases s.len() - start,
{
    if start < 0 || start >= s.len() {
        s.len() as int
    } else if s[start] == c {
        start
    } else {
        index_from(s, start + 1, c)
    }
}

/// `index_from` lies between `start` and the end.
pub proof fn lemma_index_from_bounds(s: Seq<char>, start: int, c: char)
    requires
        0 <= start <= s.len(),
    ensures
        start <= index_from(s, start, c) <= s.len(),
        index_from(s, start, c) < s.len() ==> s[index_from(s, start, c)] == c,
        forall|j: int| start <= j < index_from(s, start, c) ==> s[j] != c,
    decreases s.len() - start,
{
    if start < s.len() && s[start] != c {
        lemma_index_from_bounds(s, start + 1, c);
    }
}

/// Finds `index_from(v, start, c)`.
pub fn find_char_from(v: &Vec<char>, start: usize, c: char) -> (r: usize)
    requires
        start <= v.len(),
    ensures
        r == index_from(v@, start as int, c),
        start <= r <= v.len(),
{
    let mut i: usize = start;
    while i < v.len() && v[i] != c
        invariant
            start <= i <= v.len(),
            index_from(v@, start as int, c) == index_from(v@, i as int, c),
        decreases v.len() - i,
    {
        i += 1;
    }
    proof {
        lemma_index_from_bounds(v@, start as int, c);
    }
    i
}

// ---------------------------------------------------------------------------
// Origins
// ---------------------------------------------------------------------------

/// `s` without its trailing slashes (`trim_end_matches('/')`).
pub open spec fn strip_slashes(s: Seq<char>) -> Seq<char>
    decreases s.len(),
{
    if s.len() > 0 && s.last() == '/' {
        strip_slashes(s.drop_last())
    } else {
        s
    }
}

/// The origins allowed to call the API: the production site over https or
/// http, and `localhost` or `127.0.0.1` over http on any port, with any
/// trailing slashes ignored.
pub open spec fn origin_allowed(origin: Seq<char>) -> bool {
    let o = strip_slashes(origin);
    ||| o == "https://ggartifact.com"@
    ||| o == "http://ggartifact.com"@
    ||| o == "http://localhost"@
    ||| has_prefix(o, "http://localhost:"@)
    ||| o == "http://127.0.0.1"@
    ||| has_prefix(o, "http://127.0.0.1:"@)
}

proof fn lemma_strip_slashes(s: Seq<char>, k: int)
    requires
        0 <= k <= s.len(),
        forall|j: int| k <= j < s.len() ==> s[j] == '/',
        k == 0 || s[k - 1] != '/',
    ensures
        strip_slashes(s) == s.take(k),
    decreases s.len(),
{
    if s.len() > k {
        lemma_strip_slashes(s.drop_last(), k);
        assert(s.drop_last().take(k) =~= s.take(k));
    } else {
        assert(s.take(k) =~= s);
    }
}

/// `origin` without its trailing slashes.
pub fn strip_trailing_slashes(origin: &str) -> (r: Vec<char>)
    ensures
        r@ == strip_slashes(origin@),
{
    let cs = to_chars(origin);
    let mut k: usize = cs.len();
    while k > 0 && cs[k - 1] == '/'
        invariant
            k <= cs.len(),
            cs@ == origin@,
            forall|j: int| k <= j < cs.len() ==> cs@[j] == '/',
        decreases k,
    {
        k -= 1;
    }
    proof {
        lemma_strip_slashes(cs@, k as int);
    }
    slice_chars(&cs, 0, k)
}

/// Is `origin` allowed to call the API?
pub fn is_origin_allowed(origin: &str) -> (b: bool)
    ensures
        b == origin_allowed(origin@),
{
    let o = strip_trailing_slashes(origin);
    let a = to_chars("https://ggartifact.com");
    let b = to_chars("http://ggartifact.com");
    let c = to_chars("http://localhost");
    let d = to_chars("http://localhost:");
    let e = to_chars("http://127.0.0.1");
    let f = to_chars("http://127.0.0.1:");
    chars_eq(&o, &a) || chars_eq(&o, &b) || chars_eq(&o, &c) || starts_with_chars(&o, &d)
        || chars_eq(&o, &e) || starts_with_chars(&o, &f)
}

/// What the `Origin` header of a request decides.
pub enum OriginCheck {
    /// No header: a non-browser client, served without CORS headers.
    Absent,
    /// An allowed origin, echoed back (without trailing slashes) in the CORS headers.
    Allowed(String),
    /// A disallowed origin: the request is answered 403.
    Rejected,
}

/// Classify the `Origin` header of a request.
pub fn check_origin(origin: Option<&str>) -> (r: OriginCheck)
    ensures
        match origin {
            None => r is Absent,
            Some(o) => if origin_allowed(o@) {
                r matches OriginCheck::Allowed(t) && t@ == strip_slashes(o@)
            } else {
                r is Rejected
            },
        },
{
    match origin {
        None => OriginCheck::Absent,
        Some(o) => {
            if is_origin_allowed(o) {
                let t = strip_trailing_slashes(o);
                OriginCheck::Allowed(from_chars(&t))
            } else {
                OriginCheck::Rejected
            }
        },
    }
}

// ---------------------------------------------------------------------------
// Routing
// ---------------------------------------------------------------------------

/// HTTP method of a request, as far as routing cares.
#[derive(Clone, Copy, Debug, PartialEq, Eq, Structural)]
pub enum Method {
    Get,
    Post,
    Options,
    Other,
}

/// The handler a request goes to.
#[derive(Clone, Copy, Debug, PartialEq, Eq, Structural)]
pub enum Route {
    /// CORS preflight (any `OPTIONS` request): 204.
    Preflight,
    Manage,
    Equip,
    Scan,
    Status,
    Result,
    Health,
    Characters,
    Weapons,
    Artifacts,
    NotFound,
}

/// The routing table: `OPTIONS` is always a preflight; `POST` on exactly
/// `/manage`, `/equip` or `/scan`; `GET` on exactly `/status` or `/health`,
/// and on any path starting with `/result`, `/characters`, `/weapons` or
/// `/artifacts` (which may carry a query); everything else is not found.
pub open spec fn route_of(m: Method, url: Seq<char>) -> Route {
    match m {
        Method::Options => Route::Preflight,
        Method::Post => if url == "/manage"@ {
            Route::Manage
        } else if url == "/equip"@ {
            Route::Equip
        } else if url == "/scan"@ {
            Route::Scan
        } else {
            Route::NotFound
        },
        Method::Get => if url == "/status"@ {
            Route::Status
        } else if has_prefix(url, "/result"@) {
            Route::Result
        } else if url == "/health"@ {
            Route::Health
        } else if has_prefix(url, "/characters"@) {
            Route::Characters
        } else if has_prefix(url, "/weapons"@) {
            Route::Weapons
        } else if has_prefix(url, "/artifacts"@) {
            Route::Artifacts
        } else {
            Route::NotFound
        },
        Method::Other => Route::NotFound,
    }
}

/// The handler for `method` on `url`.
pub fn route(method: Method, url: &str) -> (r: Route)
    ensures
        r == route_of(method, url@),
{
    let u = to_chars(url);
    match method {
        Method::Options => Route::Preflight,
        Method::Post => {
            if chars_eq(&u, &to_chars("/manage")) {
                Route::Manage
            } else if chars_eq(&u, &to_chars("/equip")) {
                Route::Equip
            } else if chars_eq(&u, &to_chars("/scan")) {
                Route::Scan
            } else {
                Route::NotFound
            }
        },
        Method::Get => {
            if chars_eq(&u, &to_chars("/status")) {
                Route::Status
            } else if starts_with_chars(&u, &to_chars("/result")) {
                Route::Result
            } else if chars_eq(&u, &to_chars("/health")) {
                Route::Health
            } else if starts_with_chars(&u, &to_chars("/characters")) {
                Route::Characters
            } else if starts_with_chars(&u, &to_chars("/weapons")) {
                Route::Weapons
            } else if starts_with_chars(&u, &to_chars("/artifacts")) {
                Route::Artifacts
            } else {
                Route::NotFound
            }
        },
        Method::Other => Route::NotFound,
    }
}

// ---------------------------------------------------------------------------
// The jobId query parameter
// ---------------------------------------------------------------------------

/// The query of `url`: the text after its first `?`, up to a second `?`.
pub open spec fn query_part(url: Seq<char>) -> Option<Seq<char>> {
    let i = index_from(url, 0, '?');
    if i >= url.len() {
        None
    } else {
        Some(url.subrange(i + 1, index_from(url, i + 1, '?')))
    }
}

/// The value of the first `&`-separated parameter of `q`, from position
/// `start` on, that starts with `jobId=`.
pub open spec fn job_param_from(q: Seq<char>, start: int) -> Option<Seq<char>>
    decreases q.len() - start,
{
    if start < 0 || start > q.len() {
        None
    } else {
        let e = index_from(q, start, '&');
        let seg = q.subrange(start, e);
        if has_prefix(seg, "jobId="@) {
            Some(seg.skip(6))
        } else if start <= e < q.len() {
            job_param_from(q, e + 1)
        } else {
            None
        }
    }
}

/// The `jobId` of a request URL: the value of the first query parameter
/// that starts with `jobId=`, when that value is not empty.
pub open spec fn job_id_of(url: Seq<char>) -> Option<Seq<char>> {
    match query_part(url) {
        None => None,
        Some(q) => match job_param_from(q, 0) {
            Some(v) => if v.len() > 0 {
                Some(v)
            } else {
                None
            },
            None => None,
        },
    }
}

/// The `jobId` query parameter of `url`, if present and not empty.
pub fn parse_job_id(url: &str) -> (r: Option<String>)
    ensures
        match r {
            Some(s) => job_id_of(url@) == Some(s@),
            None => job_id_of(url@) is None,
        },
{
    let u = to_chars(url);
    let i = find_char_from(&u, 0, '?');
    if i >= u.len() {
        return None;
    }
    let qe = find_char_from(&u, i + 1, '?');
    let q = slice_chars(&u, i + 1, qe);
    let prefix = to_chars("jobId=");
    proof {
        reveal_strlit("jobId=");
    }
    let mut start: usize = 0;
    loop
        invariant
            start <= q.len(),
            prefix@ == "jobId="@,
            prefix@.len() == 6,
            q@ == url@.subrange(i + 1, qe as int),
            query_part(url@) == Some(q@),
            job_param_from(q@, 0) == job_param_from(q@, start as int),
        decreases q.len() - start,
    {
        let e = find_char_from(&q, start, '&');
        let seg = slice_chars(&q, start, e);
        if starts_with_chars(&seg, &prefix) {
            let v = slice_chars(&seg, 6, seg.len());
            assert(v@ =~= seg@.skip(6));
            if v.len() == 0 {
                return None;
            }
            return Some(from_chars(&v));
        }
        if e >= q.len() {
            return None;
        }
        start = e + 1;
    }
}

proof fn lemma_index_from_at(s: Seq<char>, start: int, k: int, c: char)
    requires
        0 <= start <= k <= s.len(),
        forall|j: int| start <= j < k ==> s[j] != c,
        k == s.len() || s[k] == c,
    ensures
        index_from(s, start, c) == k,
    decreases k - start,
{
    if start < k {
        lemma_index_from_at(s, start + 1, k, c);
    }
}

/// A value without `?` or `&`, given as `?jobId=<id>` after any path
/// without a `?`, is read back as the job id.
pub proof fn job_id_round_trip(path: Seq<char>, id: Seq<char>)
    requires
        forall|i: int| 0 <= i < path.len() ==> path[i] != '?',
        forall|i: int| 0 <= i < id.len() ==> id[i] != '?' && id[i] != '&',
        id.len() > 0,
    ensures
        job_id_of(path + "?jobId="@ + id) == Some(id),
{
    reveal_strlit("?jobId=");
    reveal_strlit("jobId=");
    let url = path + "?jobId="@ + id;
    let p = path.len() as int;
    assert(url[p] == '?');
    assert forall|j: int| 0 <= j < p implies url[j] != '?' by {
        assert(url[j] == path[j]);
    }
    lemma_index_from_at(url, 0, p, '?');
    assert forall|j: int| p + 1 <= j < url.len() implies url[j] != '?' by {
        if j < p + 7 {
            assert(url[j] == "?jobId="@[j - p]);
        } else {
            assert(url[j] == id[j - p - 7]);
        }
    }
    lemma_index_from_at(url, p + 1, url.len() as int, '?');
    let q = url.subrange(p + 1, url.len() as int);
    assert(q =~= "jobId="@ + id);
    assert(query_part(url) == Some(q));
    assert forall|j: int| 0 <= j < q.len() implies q[j] != '&' by {
        if j >= 6 {
            assert(q[j] == id[j - 6]);
        }
    }
    lemma_index_from_at(q, 0, q.len() as int, '&');
    assert(q.subrange(0, q.len() as int) =~= q);
    assert(q.take(6) =~= "jobId="@);
    assert(q.skip(6) =~= id);
}


/// Trailing slashes never change whether an origin is allowed.
pub proof fn trailing_slash_ignored(origin: Seq<char>)
    ensures
        origin_allowed(origin.push('/')) == origin_allowed(origin),
{
    assert(origin.push('/').drop_last() =~= origin);
}

/// The headers of a reply to an allowed browser origin: the origin echoed
/// back, the methods and headers allowed, private-network access, and the
/// JSON content type.
pub open spec fn cors_pairs(origin: Seq<char>) -> Seq<(Seq<char>, Seq<char>)> {
    seq![
        ("Access-Control-Allow-Origin"@, origin),
        ("Access-Control-Allow-Methods"@, "GET, POST, OPTIONS"@),
        ("Access-Control-Allow-Headers"@, "Content-Type"@),
        ("Access-Control-Allow-Private-Network"@, "true"@),
        ("Content-Type"@, "application/json; charset=utf-8"@),
    ]
}

fn header(name: &str, value: &str) -> (h: (String, String))
    ensures
        h.0@ == name@ && h.1@ == value@,
{
    (String::from_str(name), String::from_str(value))
}

/// The CORS headers of a reply to the allowed origin `origin`, as name and
/// value.
pub fn cors_headers(origin: &str) -> (r: Vec<(String, String)>)
    ensures
        r@.len() == cors_pairs(origin@).len(),
        forall|i: int|
            0 <= i < r@.len() ==> (#[trigger] r@[i]).0@ == cors_pairs(origin@)[i].0 && r@[i].1@
                == cors_pairs(origin@)[i].1,
{
    let mut r: Vec<(String, String)> = Vec::new();
    r.push(header("Access-Control-Allow-Origin", origin));
    r.push(header("Access-Control-Allow-Methods", "GET, POST, OPTIONS"));
    r.push(header("Access-Control-Allow-Headers", "Content-Type"));
    r.push(header("Access-Control-Allow-Private-Network", "true"));
    r.push(header("Content-Type", "application/json; charset=utf-8"));
    r
}

} // verus!
