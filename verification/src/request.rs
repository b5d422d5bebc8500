//! Request construction: a transmission mode (query-string GET or JSON-body
//! POST) plus a route is turned into the exact URL and body to be sent.

use crate::json::{encode_json_object, json_object_text};
use crate::params::{map_of, ParameterMap};
use vstd::prelude::*;
use vstd::string::StringExecFns;

verus! {

/// How the parameters travel: appended to the URL as a query string, or
/// serialized as a flat JSON object body.
pub enum Mode {
    Get(ParameterMap),
    Post(ParameterMap),
}

/// A fully built HTTP request, ready to be handed to a transport.
pub enum PreparedRequest {
    Get { url: String },
    Post { url: String, body: String },
}

/// The query string for a sequence of parameter entries: one `key=value`
/// pair per entry, in entry order, separated by `&`.
pub open spec fn query_string(s: Seq<(Seq<char>, Seq<char>)>) -> Seq<char>
    decreases s.len(),
{
    if s.len() == 0 {
        Seq::empty()
    } else if s.len() == 1 {
        s[0].0 + "="@ + s[0].1
    } else {
        query_string(s.drop_last()) + "&"@ + s.last().0 + "="@ + s.last().1
    }
}

/// The URL of a GET request: the base address, the route, and — only when
/// there is at least one parameter — a `?` followed by the query string.
pub open spec fn get_url(
    addr: Seq<char>,
    routing: Seq<char>,
    params: Seq<(Seq<char>, Seq<char>)>,
) -> Seq<char> {
    if params.len() == 0 {
        addr + routing
    } else {
        addr + routing + "?"@ + query_string(params)
    }
}

/// The body of a POST request: the parameters as a flat JSON object. It is
/// defined over `map_of` the entries, so it depends only on the mapping.
pub open spec fn post_body(params: Seq<(Seq<char>, Seq<char>)>) -> Seq<char> {
    json_object_text(map_of(params))
}

/// A GET URL carries no query part — in particular no trailing `?` — when
/// the parameter mapping is empty: it is exactly the address and the route.
pub proof fn lemma_get_url_empty(
    addr: Seq<char>,
    routing: Seq<char>,
    params: Seq<(Seq<char>, Seq<char>)>,
)
    requires
        params.len() == 0,
    ensures
        get_url(addr, routing, params) == addr + routing,
{
}

/// Every entry of a parameter mapping stands in the query string as one
/// contiguous `key=value` segment.
pub proof fn lemma_query_string_has_each_pair(s: Seq<(Seq<char>, Seq<char>)>, i: int)
    requires
        0 <= i < s.len(),
    ensures
        exists|lo: int|
            0 <= lo && lo + (s[i].0 + "="@ + s[i].1).len() <= query_string(s).len()
                && #[trigger] query_string(s).subrange(
                lo,
                lo + (s[i].0 + "="@ + s[i].1).len() as int,
            ) == s[i].0 + "="@ + s[i].1,
    decreases s.len(),
{
    let pair = s[i].0 + "="@ + s[i].1;
    let q = query_string(s);
    if s.len() == 1 {
        assert(q.subrange(0, pair.len() as int) =~= pair);
        assert(0 + pair.len() <= q.len() && q.subrange(0, 0 + pair.len() as int) == s[i].0 + "="@
            + s[i].1);
    } else if i == s.len() - 1 {
        let lo = q.len() - pair.len();
        assert(q.subrange(lo as int, lo + pair.len() as int) =~= pair);
        assert(0 <= lo && lo + pair.len() <= q.len() && q.subrange(
            lo as int,
            lo + pair.len() as int,
        ) == s[i].0 + "="@ + s[i].1);
    } else {
        let t = s.drop_last();
        assert(t[i] == s[i]);
        lemma_query_string_has_each_pair(t, i);
        let qt = query_string(t);
        let lo = choose|lo: int|
            0 <= lo && lo + (t[i].0 + "="@ + t[i].1).len() <= qt.len() && #[trigger] qt.subrange(
                lo,
                lo + (t[i].0 + "="@ + t[i].1).len() as int,
            ) == t[i].0 + "="@ + t[i].1;
        assert(q.subrange(lo, lo + pair.len() as int) =~= qt.subrange(
            lo,
            lo + pair.len() as int,
        ));
        assert(0 <= lo && lo + pair.len() <= q.len() && q.subrange(lo, lo + pair.len() as int)
            == s[i].0 + "="@ + s[i].1);
    }
}

/// The POST body depends only on which key/value pairs the mapping holds:
/// two entry sequences that stand for the same mapping — whatever order
/// they were built in — serialize to the same JSON object text.
pub proof fn lemma_post_body_order_independent(
    s1: Seq<(Seq<char>, Seq<char>)>,
    s2: Seq<(Seq<char>, Seq<char>)>,
)
    requires
        map_of(s1) == map_of(s2),
    ensures
        post_body(s1) == post_body(s2),
{
}

proof fn lemma_query_string_step(s: Seq<(Seq<char>, Seq<char>)>, i: int)
    requires
        0 <= i < s.len(),
    ensures
        i == 0 ==> query_string(s.take(1)) == s[0].0 + "="@ + s[0].1,
        i > 0 ==> query_string(s.take(i + 1)) == query_string(s.take(i)) + "&"@ + s[i].0 + "="@
            + s[i].1,
{
    let t = s.take(i + 1);
    assert(t.len() == i + 1);
    assert(t.last() == s[i]);
    if i == 0 {
        assert(query_string(t) == t[0].0 + "="@ + t[0].1);
    } else {
        assert(t.drop_last() =~= s.take(i));
    }
}

/// Builds the query string of a parameter mapping.
pub fn encode_query(params: &ParameterMap) -> (r: String)
    ensures
        r@ == query_string(params@),
{
    let n = params.len();
    let mut out = String::new();
    let mut i: usize = 0;
    while i < n
        invariant
            n == params@.len(),
            0 <= i <= n,
            out@ == query_string(params@.take(i as int)),
        decreases n - i,
    {
        if i > 0 {
            out.append("&");
        }
        out.append(params.key_at(i).as_str());
        out.append("=");
        out.append(params.value_at(i).as_str());
        proof {
            lemma_query_string_step(params@, i as int);
            assert(out@ =~= query_string(params@.take(i + 1)));
        }
        i = i + 1;
    }
    proof {
        assert(params@.take(n as int) =~= params@);
    }
    out
}

/// Builds the URL (and, for POST, the body) that one HTTP call will use:
/// GET appends a non-empty parameter mapping as a query string, POST
/// serializes it as a flat JSON object.
pub fn prepare(addr: &String, routing: &str, mode: Mode) -> (r: PreparedRequest)
    ensures
        (match mode {
            Mode::Get(m) => r matches PreparedRequest::Get { url } && url@ == get_url(
                addr@,
                routing@,
                m@,
            ),
            Mode::Post(m) => r matches PreparedRequest::Post { url, body } && url@ == addr@
                + routing@ && body@ == post_body(m@),
        }),
{
    match mode {
        Mode::Get(map) => {
            let mut url = addr.clone();
            url.append(routing);
            if !map.is_empty() {
                url.append("?");
                let q = encode_query(&map);
                url.append(q.as_str());
                proof {
                    assert(url@ =~= addr@ + routing@ + "?"@ + query_string(map@));
                }
            } else {
                proof {
                    assert(url@ =~= addr@ + routing@);
                }
            }
            PreparedRequest::Get { url }
        },
        Mode::Post(map) => {
            let mut url = addr.clone();
            url.append(routing);
            let body = encode_json_object(map.entries());
            proof {
                assert(url@ =~= addr@ + routing@);
            }
            PreparedRequest::Post { url, body }
        },
    }
}

} // verus!
