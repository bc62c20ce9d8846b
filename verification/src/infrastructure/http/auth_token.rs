//! Where a request carries its access token: the `Authorization: Bearer`
//! header, or else a `token=` parameter of the query (for event streams,
//! which cannot set headers).
use vstd::prelude::*;
use vstd::string::StrSliceExecFns;

verus! {

/// `s` without the prefix `p`, when `s` starts with `p`.
pub open spec fn strip_prefix(s: Seq<char>, p: Seq<char>) -> Option<Seq<char>> {
    if p.len() <= s.len() && s.subrange(0, p.len() as int) == p {
        Some(s.subrange(p.len() as int, s.len() as int))
    } else {
        None
    }
}

pub open spec fn bearer_prefix() -> Seq<char> {
    seq!['B', 'e', 'a', 'r', 'e', 'r', ' ']
}

pub open spec fn token_prefix() -> Seq<char> {
    seq!['t', 'o', 'k', 'e', 'n', '=']
}

/// The end of the `&`-separated part of `q` that starts at `i`.
pub open spec fn part_end(q: Seq<char>, i: int) -> int
    decreases q.len() - i,
{
    if i >= q.len() || q[i] == '&' {
        i
    } else {
        part_end(q, i + 1)
    }
}

/// The value of the first `&`-separated part of `q`, from position `start`
/// on, that starts with `token=`.
pub open spec fn token_in_query_from(q: Seq<char>, start: int) -> Option<Seq<char>>
    decreases q.len() - start,
{
    if start > q.len() {
        None
    } else {
        let e = part_end(q, start);
        let part = q.subrange(start, e);
        match strip_prefix(part, token_prefix()) {
            Some(t) => Some(t),
            None => if e < q.len() && e >= start {
                token_in_query_from(q, e + 1)
            } else {
                None
            },
        }
    }
}

/// The token of a request: the `Authorization` header's value after
/// `Bearer `, if the header has that form, and else the query's `token=`
/// parameter, if there is one.
pub open spec fn request_token(header: Option<Seq<char>>, query: Option<Seq<char>>) -> Option<
    Seq<char>,
> {
    let from_header = match header {
        Some(h) => strip_prefix(h, bearer_prefix()),
        None => None,
    };
    match from_header {
        Some(t) => Some(t),
        None => match query {
            Some(q) => token_in_query_from(q, 0),
            None => None,
        },
    }
}

proof fn lemma_part_end_bounds(q: Seq<char>, i: int)
    requires
        0 <= i <= q.len(),
    ensures
        i <= part_end(q, i) <= q.len(),
        part_end(q, i) < q.len() ==> q[part_end(q, i)] == '&',
        forall|k: int| i <= k < part_end(q, i) ==> q[k] != '&',
    decreases q.len() - i,
{
    if i < q.len() && q[i] != '&' {
        lemma_part_end_bounds(q, i + 1);
    }
}

/// Whether the characters of `s` from `from` on start with `p`.
fn has_prefix_at(s: &str, from: usize, to: usize, p: &str) -> (b: bool)
    requires
        from <= to <= s@.len(),
    ensures
        b == (strip_prefix(s@.subrange(from as int, to as int), p@) is Some),
{
    let m = p.unicode_len();
    if m > to - from {
        return false;
    }
    let mut k: usize = 0;
    while k < m
        invariant
            m == p@.len(),
            m <= to - from,
            from <= to <= s@.len(),
            k <= m,
            forall|j: int| 0 <= j < k ==> s@[from + j] == p@[j],
        decreases m - k,
    {
        if s.get_char(from + k) != p.get_char(k) {
            proof {
                assert(s@.subrange(from as int, to as int).subrange(0, m as int)[k as int]
                    != p@[k as int]);
            }
            return false;
        }
        k = k + 1;
    }
    proof {
        assert(s@.subrange(from as int, to as int).subrange(0, m as int) =~= p@);
    }
    true
}

/// The token that a request carries, given its `Authorization` header's
/// value and its query string, when it has them.
pub fn extract_token(header: Option<&str>, query: Option<&str>) -> (r: Option<String>)
    ensures
        opt_seq(r) == request_token(opt_str(header), opt_str(query)),
{
    let bearer = "Bearer ";
    let token_eq = "token=";
    proof {
        reveal_strlit("Bearer ");
        reveal_strlit("token=");
        assert(bearer@ =~= bearer_prefix());
        assert(token_eq@ =~= token_prefix());
    }
    if let Some(h) = header {
        let n = h.unicode_len();
        if has_prefix_at(h, 0, n, bearer) {
            proof {
                assert(h@.subrange(0, n as int) =~= h@);
            }
            return Some(h.substring_char(7, n).to_owned());
        }
        proof {
            assert(h@.subrange(0, n as int) =~= h@);
        }
    }
    match query {
        Some(q) => token_in_query(q),
        None => None,
    }
}

/// The query's `token=` parameter, if there is one.
fn token_in_query(q: &str) -> (r: Option<String>)
    ensures
        opt_seq(r) == token_in_query_from(q@, 0),
{
    let n = q.unicode_len();
    let token_eq = "token=";
    proof {
        reveal_strlit("token=");
        assert(token_eq@ =~= token_prefix());
    }
    let mut start: usize = 0;
    loop
        invariant
            n == q@.len(),
            start <= n,
            token_eq@ == token_prefix(),
            token_in_query_from(q@, 0) == token_in_query_from(q@, start as int),
        decreases n - start,
    {
        let mut e: usize = start;
        while e < n && q.get_char(e) != '&'
            invariant
                n == q@.len(),
                start <= e <= n,
                part_end(q@, start as int) == part_end(q@, e as int),
            decreases n - e,
        {
            e = e + 1;
        }
        proof {
            lemma_part_end_bounds(q@, start as int);
        }
        if has_prefix_at(q, start, e, token_eq) {
            proof {
                assert(q@.subrange(start as int, e as int).subrange(6, (e - start) as int)
                    =~= q@.subrange(start + 6, e as int));
            }
            return Some(q.substring_char(start + 6, e).to_owned());
        }
        if e >= n {
            return None;
        }
        start = e + 1;
    }
}

/// The optional string seen as optional characters.
pub open spec fn opt_seq(o: Option<String>) -> Option<Seq<char>> {
    match o {
        Some(s) => Some(s@),
        None => None,
    }
}

/// The optional string slice seen as optional characters.
pub open spec fn opt_str(o: Option<&str>) -> Option<Seq<char>> {
    match o {
        Some(s) => Some(s@),
        None => None,
    }
}

proof fn lemma_part_end_of_part(q: Seq<char>, i: int, j: int)
    requires
        0 <= i <= j <= q.len(),
        forall|k: int| i <= k < j ==> q[k] != '&',
        j == q.len() || q[j] == '&',
    ensures
        part_end(q, i) == j,
    decreases j - i,
{
    if i < j {
        lemma_part_end_of_part(q, i + 1, j);
    }
}

proof fn lemma_part_end_shift(x: Seq<char>, y: Seq<char>, i: int)
    requires
        0 <= i <= y.len(),
    ensures
        part_end(x + y, x.len() + i) == x.len() + part_end(y, i),
    decreases y.len() - i,
{
    if i < y.len() {
        assert((x + y)[x.len() + i] == y[i]);
        if y[i] != '&' {
            lemma_part_end_shift(x, y, i + 1);
        }
    }
}

/// Searching `x + y` from where `y` begins is searching `y`.
proof fn lemma_token_search_shift(x: Seq<char>, y: Seq<char>, i: int)
    requires
        0 <= i <= y.len(),
    ensures
        token_in_query_from(x + y, x.len() + i) == token_in_query_from(y, i),
    decreases y.len() - i,
{
    lemma_part_end_shift(x, y, i);
    lemma_part_end_bounds(y, i);
    let e = part_end(y, i);
    assert((x + y).subrange(x.len() + i, x.len() + e) =~= y.subrange(i, e));
    if e < y.len() {
        lemma_token_search_shift(x, y, e + 1);
    }
}

/// A request without a bearer header whose query begins with `token=`
/// carries as its token what follows, up to the first `&` or the end.
pub proof fn lemma_query_token_in_first_part(t: Seq<char>, rest: Seq<char>)
    requires
        forall|k: int| 0 <= k < t.len() ==> t[k] != '&',
        rest.len() == 0 || rest[0] == '&',
    ensures
        request_token(None, Some(token_prefix() + t + rest)) == Some(t),
{
    let p = token_prefix();
    let q = p + t + rest;
    let e: int = (p.len() + t.len()) as int;
    assert forall|k: int| 0 <= k < e implies q[k] != '&' by {
        if k < p.len() {
            assert(q[k] == p[k]);
        } else {
            assert(q[k] == t[k - p.len()]);
        }
    }
    if rest.len() > 0 {
        assert(q[e] == rest[0]);
    }
    lemma_part_end_of_part(q, 0, e);
    assert(q.subrange(0, e).subrange(0, p.len() as int) =~= p);
    assert(q.subrange(0, e).subrange(p.len() as int, e) =~= t);
}

/// A query part that is not a token, before the first `&`, is skipped: the
/// token is the one that the rest of the query carries, if any.
pub proof fn lemma_query_skips_other_parts(part: Seq<char>, rest: Seq<char>)
    requires
        forall|k: int| 0 <= k < part.len() ==> part[k] != '&',
        strip_prefix(part, token_prefix()) is None,
    ensures
        request_token(None, Some(part + seq!['&'] + rest)) == request_token(None, Some(rest)),
{
    let x = part + seq!['&'];
    let q = x + rest;
    assert forall|k: int| 0 <= k < part.len() implies q[k] != '&' by {
        assert(q[k] == part[k]);
    }
    assert(q[part.len() as int] == '&');
    lemma_part_end_of_part(q, 0, part.len() as int);
    assert(q.subrange(0, part.len() as int) =~= part);
    lemma_token_search_shift(x, rest, 0);
    assert(part + seq!['&'] + rest == q);
}

/// A last query part that is not a token leaves the request without one.
pub proof fn lemma_query_last_part_without_token(part: Seq<char>)
    requires
        forall|k: int| 0 <= k < part.len() ==> part[k] != '&',
        strip_prefix(part, token_prefix()) is None,
    ensures
        request_token(None, Some(part)) is None,
{
    lemma_part_end_of_part(part, 0, part.len() as int);
    assert(part.subrange(0, part.len() as int) =~= part);
}

/// A header that is not a bearer header is ignored: the token comes from
/// the query, as if there were no header.
pub proof fn lemma_other_headers_ignored(h: Seq<char>, q: Option<Seq<char>>)
    requires
        strip_prefix(h, bearer_prefix()) is None,
    ensures
        request_token(Some(h), q) == request_token(None, q),
{
}

/// A well-formed `Authorization: Bearer` header wins over the query.
pub proof fn lemma_header_first(h: Seq<char>, q: Option<Seq<char>>)
    requires
        strip_prefix(h, bearer_prefix()) is Some,
    ensures
        request_token(Some(h), q) == strip_prefix(h, bearer_prefix()),
{
}

} // verus!
