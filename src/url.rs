//! URLs and query strings.
use vstd::prelude::*;
use crate::text::{join, push_char, push_str};
use crate::validation::{parse_url_ok, url_parses};

verus! {

/// The host of an absolute URL, if it parses and has one.
pub uninterp spec fn url_host(s: Seq<char>) -> Option<Seq<char>>;

/// The path of an absolute URL, if it parses.
pub uninterp spec fn url_path(s: Seq<char>) -> Option<Seq<char>>;

/// The scheme of an absolute URL, if it parses.
pub uninterp spec fn url_scheme(s: Seq<char>) -> Option<Seq<char>>;

/// Relies on `url::Url::parse` and `Url::host_str`.
#[verifier::external_body]
fn host_of(s: &str) -> (r: Option<String>)
    ensures
        match r {
            Some(h) => url_host(s@) == Some(h@),
            None => url_host(s@) is None,
        },
{
    url::Url::parse(s).ok().and_then(|u| u.host_str().map(|h| h.to_string()))
}

/// Relies on `url::Url::parse` and `Url::path`.
#[verifier::external_body]
fn path_of(s: &str) -> (r: Option<String>)
    ensures
        match r {
            Some(p) => url_path(s@) == Some(p@),
            None => url_path(s@) is None,
        },
{
    url::Url::parse(s).ok().map(|u| u.path().to_string())
}

/// Relies on `url::Url::parse` and `Url::scheme`.
#[verifier::external_body]
fn scheme_of(s: &str) -> (r: Option<String>)
    ensures
        match r {
            Some(p) => url_scheme(s@) == Some(p@),
            None => url_scheme(s@) is None,
        },
{
    url::Url::parse(s).ok().map(|u| u.scheme().to_string())
}

/// A query parameter.
pub struct QueryParam {
    pub key: String,
    pub value: String,
}

pub open spec fn param_texts(ps: Seq<QueryParam>) -> Seq<Seq<char>> {
    ps.map_values(|p: QueryParam| p.key@ + seq!['='] + p.value@)
}

/// The pieces of `s` between occurrences of `sep`.
pub open spec fn split_on(s: Seq<char>, sep: char) -> Seq<Seq<char>>
    decreases s.len(),
{
    if s.len() == 0 {
        seq![Seq::empty()]
    } else {
        let init = split_on(s.drop_last(), sep);
        if s.last() == sep {
            init.push(Seq::empty())
        } else {
            init.update(init.len() - 1, init.last().push(s.last()))
        }
    }
}

/// The position of the first `=` in `s`, or -1.
pub open spec fn first_eq(s: Seq<char>) -> int
    decreases s.len(),
{
    if s.len() == 0 {
        -1
    } else {
        let i = first_eq(s.drop_last());
        if i >= 0 {
            i
        } else if s.last() == '=' {
            s.len() - 1
        } else {
            -1
        }
    }
}

/// The parameters that `pairs` hold: each piece with a `=` gives the text
/// before it as key and the rest as value; a later key replaces an earlier
/// one in place.
pub open spec fn params_of(pieces: Seq<Seq<char>>) -> Seq<(Seq<char>, Seq<char>)>
    decreases pieces.len(),
{
    if pieces.len() == 0 {
        Seq::empty()
    } else {
        let acc = params_of(pieces.drop_last());
        let p = pieces.last();
        let e = first_eq(p);
        if e < 0 {
            acc
        } else {
            let k = p.subrange(0, e);
            let v = p.subrange(e + 1, p.len() as int);
            let i = key_index(acc, k);
            if i >= 0 {
                acc.update(i, (k, v))
            } else {
                acc.push((k, v))
            }
        }
    }
}

/// The position of the first pair under `k`, or -1.
pub open spec fn key_index(ps: Seq<(Seq<char>, Seq<char>)>, k: Seq<char>) -> int
    decreases ps.len(),
{
    if ps.len() == 0 {
        -1
    } else {
        let i = key_index(ps.drop_last(), k);
        if i >= 0 {
            i
        } else if ps.last().0 == k {
            ps.len() - 1
        } else {
            -1
        }
    }
}

pub open spec fn params_view(ps: Seq<QueryParam>) -> Seq<(Seq<char>, Seq<char>)> {
    ps.map_values(|p: QueryParam| (p.key@, p.value@))
}

proof fn lemma_split_on_nonempty(s: Seq<char>, sep: char)
    ensures
        split_on(s, sep).len() >= 1,
    decreases s.len(),
{
    if s.len() > 0 {
        lemma_split_on_nonempty(s.drop_last(), sep);
    }
}

/// The pieces of `s` between occurrences of `sep`.
pub fn split_text(s: &str, sep: char) -> (r: Vec<String>)
    ensures
        r@.map_values(|p: String| p@) == split_on(s@, sep),
{
    let n = s.unicode_len();
    let mut pieces: Vec<String> = Vec::new();
    let mut current = String::new();
    let mut i: usize = 0;
    assert(s@.subrange(0, 0) == Seq::<char>::empty());
    while i < n
        invariant
            n == s@.len(),
            i <= n,
            pieces@.map_values(|p: String| p@).push(current@) == split_on(s@.subrange(0, i as int), sep),
        decreases n - i,
    {
        let c = s.get_char(i);
        let ghost before = pieces@.map_values(|p: String| p@).push(current@);
        proof {
            lemma_split_on_nonempty(s@.subrange(0, i as int), sep);
            assert(s@.subrange(0, i + 1).drop_last() == s@.subrange(0, i as int));
            assert(s@.subrange(0, i + 1).last() == c);
        }
        if c == sep {
            let done = current;
            pieces.push(done);
            current = String::new();
            assert(pieces@.map_values(|p: String| p@) == before);
            assert(pieces@.map_values(|p: String| p@).push(current@) == before.push(Seq::<char>::empty()));
        } else {
            push_char(&mut current, c);
            assert(pieces@.map_values(|p: String| p@).push(current@) == before.update(
                before.len() - 1,
                before.last().push(c),
            ));
        }
        i = i + 1;
    }
    assert(s@.subrange(0, n as int) == s@);
    pieces.push(current);
    pieces
}

proof fn lemma_first_eq(s: Seq<char>, j: int)
    requires
        0 <= j <= s.len(),
        forall|l: int| 0 <= l < j ==> s[l] != '=',
    ensures
        j < s.len() && s[j] == '=' ==> first_eq(s) == j,
        j == s.len() ==> first_eq(s) == -1,
    decreases s.len(),
{
    if s.len() > 0 {
        if j < s.len() {
            lemma_first_eq(s.drop_last(), j);
        } else {
            lemma_first_eq(s.drop_last(), j - 1);
        }
    }
}

proof fn lemma_key_index(ps: Seq<(Seq<char>, Seq<char>)>, k: Seq<char>, j: int)
    requires
        0 <= j <= ps.len(),
        forall|l: int| 0 <= l < j ==> ps[l].0 != k,
    ensures
        j < ps.len() && ps[j].0 == k ==> key_index(ps, k) == j,
        j == ps.len() ==> key_index(ps, k) == -1,
    decreases ps.len(),
{
    if ps.len() > 0 {
        if j < ps.len() {
            lemma_key_index(ps.drop_last(), k, j);
        } else {
            lemma_key_index(ps.drop_last(), k, j - 1);
        }
    }
}

/// Puts `value` under `key`: in place of the first parameter under it, or at
/// the end.
fn upsert_param(ps: &mut Vec<QueryParam>, key: String, value: String)
    ensures
        params_view(final(ps)@) == ({
            let acc = params_view(old(ps)@);
            let i = key_index(acc, key@);
            if i >= 0 {
                acc.update(i, (key@, value@))
            } else {
                acc.push((key@, value@))
            }
        }),
{
    let ghost acc = params_view(ps@);
    let mut j: usize = 0;
    while j < ps.len()
        invariant
            acc == params_view(ps@),
            acc == params_view(old(ps)@),
            j <= ps@.len(),
            forall|l: int| 0 <= l < j ==> acc[l].0 != key@,
        decreases ps.len() - j,
    {
        if crate::text::str_eq(ps[j].key.as_str(), key.as_str()) {
            proof {
                assert(acc[j as int] == (ps@[j as int].key@, ps@[j as int].value@));
                lemma_key_index(acc, key@, j as int);
            }
            let ghost k = key@;
            let ghost v = value@;
            ps.set(j, QueryParam { key, value });
            assert(params_view(ps@) =~= acc.update(j as int, (k, v)));
            return;
        }
        j = j + 1;
    }
    proof {
        lemma_key_index(acc, key@, j as int);
    }
    let ghost k = key@;
    let ghost v = value@;
    ps.push(QueryParam { key, value });
    assert(params_view(ps@) =~= acc.push((k, v)));
}

/// URL helpers.
pub struct UrlUtils;

impl UrlUtils {
    pub fn is_valid_url(url: &str) -> (r: bool)
        ensures
            r == url_parses(url@),
    {
        parse_url_ok(url)
    }

    pub fn get_domain(url: &str) -> (r: Option<String>)
        ensures
            match r {
                Some(h) => url_host(url@) == Some(h@),
                None => url_host(url@) is None,
            },
    {
        host_of(url)
    }

    pub fn get_path(url: &str) -> (r: Option<String>)
        ensures
            match r {
                Some(p) => url_path(url@) == Some(p@),
                None => url_path(url@) is None,
            },
    {
        path_of(url)
    }

    pub fn get_scheme(url: &str) -> (r: Option<String>)
        ensures
            match r {
                Some(p) => url_scheme(url@) == Some(p@),
                None => url_scheme(url@) is None,
            },
    {
        scheme_of(url)
    }

    /// The parameters of `query`: each `&`-separated piece with a `=` gives
    /// the text before it as key and the rest as value; a later key replaces
    /// an earlier one.
    pub fn parse_query_string(query: &str) -> (r: Vec<QueryParam>)
        ensures
            params_view(r@) == params_of(split_on(query@, '&')),
    {
        let pieces = split_text(query, '&');
        let ghost pv = pieces@.map_values(|p: String| p@);
        let mut out: Vec<QueryParam> = Vec::new();
        let mut i: usize = 0;
        assert(params_view(out@) =~= Seq::<(Seq<char>, Seq<char>)>::empty());
        assert(pv.subrange(0, 0) =~= Seq::<Seq<char>>::empty());
        while i < pieces.len()
            invariant
                pv == pieces@.map_values(|p: String| p@),
                pv == split_on(query@, '&'),
                i <= pieces@.len(),
                params_view(out@) == params_of(pv.subrange(0, i as int)),
            decreases pieces.len() - i,
        {
            let p = pieces[i].as_str();
            let n = p.unicode_len();
            let mut e: usize = 0;
            while e < n
                invariant
                    n == p@.len(),
                    e <= n,
                    forall|l: int| 0 <= l < e ==> p@[l] != '=',
                ensures
                    e <= n,
                    forall|l: int| 0 <= l < e ==> p@[l] != '=',
                    e == n || p@[e as int] == '=',
                decreases n - e,
            {
                if p.get_char(e) == '=' {
                    break;
                }
                e = e + 1;
            }
            proof {
                assert(pv.subrange(0, i + 1).drop_last() == pv.subrange(0, i as int));
                assert(pv.subrange(0, i + 1).last() == p@);
                lemma_first_eq(p@, e as int);
            }
            if e < n {
                assert(p@[e as int] == '=');
                let k = p.substring_char(0, e).to_owned();
                let v = p.substring_char(e + 1, n).to_owned();
                upsert_param(&mut out, k, v);
            }
            i = i + 1;
        }
        assert(pv.subrange(0, pv.len() as int) == pv);
        out
    }

    /// `k1=v1&k2=v2...`, in the order given.
    pub fn build_query_string(params: &[QueryParam]) -> (r: String)
        ensures
            r@ == join(param_texts(params@), seq!['&']),
    {
        let mut parts: Vec<String> = Vec::new();
        let mut i: usize = 0;
        while i < params.len()
            invariant
                i <= params@.len(),
                parts@.map_values(|s: String| s@) == param_texts(params@.subrange(0, i as int)),
            decreases params.len() - i,
        {
            let mut t = params[i].key.clone();
            let ghost k0 = t@;
            push_char(&mut t, '=');
            assert(t@ =~= k0 + seq!['=']);
            push_str(&mut t, params[i].value.as_str());
            assert(t@ =~= params@[i as int].key@ + seq!['='] + params@[i as int].value@);
            let ghost before = parts@;
            parts.push(t);
            assert(parts@.map_values(|s: String| s@) == before.map_values(|s: String| s@).push(t@));
            assert(param_texts(params@.subrange(0, i + 1)) == param_texts(params@.subrange(0, i as int)).push(
                params@[i as int].key@ + seq!['='] + params@[i as int].value@,
            ));
            i = i + 1;
        }
        assert(params@.subrange(0, params@.len() as int) == params@);
        proof {
            reveal_strlit("&");
            assert("&"@ =~= seq!['&']);
        }
        crate::text::join_strings(parts.as_slice(), "&")
    }
}

} // verus!
