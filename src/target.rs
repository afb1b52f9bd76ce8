//! The request target: the homeserver's base URL with the endpoint's path and
//! query laid over it, and the access token added where one is needed.
use vstd::prelude::*;
use vstd::string::StringExecFns;

use crate::error::{ClientError, InnerError};

verus! {

#[verifier::external_type_specification]
#[verifier::external_body]
pub struct ExUri(http::Uri);

#[verifier::external_type_specification]
#[verifier::external_body]
pub struct ExInvalidUri(http::uri::InvalidUri);

/// The serialization of the URL `base` with its path replaced by `path`;
/// none when `base` is not a URL.
pub uninterp spec fn path_laid_over(base: Seq<char>, path: Seq<char>) -> Option<Seq<char>>;

/// The serialization of the URL `url` with its query replaced by `query`;
/// none when `url` is not a URL.
pub uninterp spec fn query_laid_over(url: Seq<char>, query: Option<Seq<char>>) -> Option<
    Seq<char>,
>;

/// Whether the text `s` parses as a URI.
pub uninterp spec fn uri_accepts(s: Seq<char>) -> bool;

/// What `application/x-www-form-urlencoded` serialization makes of a string.
pub uninterp spec fn form_encoded(s: Seq<char>) -> Seq<char>;

/// Relies on url::form_urlencoded::byte_serialize, which writes the bytes of
/// `s` in form encoding; every character that it does not keep as it is
/// comes out as `+` or as `%` and two hex digits, so neither `&` nor `=`
/// appears in the result.
#[verifier::external_body]
fn form_encode(s: &str) -> (r: String)
    ensures
        r@ == form_encoded(s@),
        forall|i: int| 0 <= i < r@.len() ==> r@[i] != '&' && r@[i] != '=',
{
    url::form_urlencoded::byte_serialize(s.as_bytes()).collect()
}

/// Relies on url::Url::parse and url::Url::set_path: the URL `base` with its
/// path replaced, as text.
#[verifier::external_body]
fn with_url_path(base: &str, path: &str) -> (r: Option<String>)
    ensures
        crate::dispatch::opt_view(r) == path_laid_over(base@, path@),
{
    match url::Url::parse(base) {
        Ok(mut u) => {
            u.set_path(path);
            Some(u.as_str().to_string())
        },
        Err(_) => None,
    }
}

/// Relies on url::Url::parse and url::Url::set_query: the URL `url` with its
/// query replaced, as text.
#[verifier::external_body]
fn with_url_query(url: &str, query: Option<&str>) -> (r: Option<String>)
    ensures
        crate::dispatch::opt_view(r) == query_laid_over(url@, query_view(query)),
{
    match url::Url::parse(url) {
        Ok(mut u) => {
            u.set_query(query);
            Some(u.as_str().to_string())
        },
        Err(_) => None,
    }
}

/// Relies on http::Uri's FromStr, which parses `s` as a URI.
#[verifier::external_body]
fn parse_uri(s: &str) -> (r: Result<http::Uri, http::uri::InvalidUri>)
    ensures
        r is Ok <==> uri_accepts(s@),
{
    s.parse::<http::Uri>()
}

pub open spec fn query_view(q: Option<&str>) -> Option<Seq<char>> {
    match q {
        Some(q) => Some(q@),
        None => None,
    }
}

/// The request target: the base URL with `path` and `query` laid over it.
pub open spec fn merged_target(base: Seq<char>, path: Seq<char>, query: Option<Seq<char>>) -> Option<
    Seq<char>,
> {
    match path_laid_over(base, path) {
        Some(u) => query_laid_over(u, query),
        None => None,
    }
}

/// Whether the request target builds and parses as a URI.
pub open spec fn target_accepted(base: Seq<char>, path: Seq<char>, query: Option<Seq<char>>) -> bool {
    &&& merged_target(base, path, query) is Some
    &&& uri_accepts(merged_target(base, path, query)->Some_0)
}

/// The query pair that carries an access token.
pub open spec fn token_pair(token: Seq<char>) -> Seq<char> {
    "access_token="@ + form_encoded(token)
}

/// The endpoint's query with the access token pair appended to it: the pairs
/// are joined by `&`, and an absent or empty query holds the pair alone.
pub open spec fn query_with_token(query: Option<Seq<char>>, token: Seq<char>) -> Seq<char> {
    match query {
        Some(q) => if q.len() > 0 {
            q + "&"@ + token_pair(token)
        } else {
            token_pair(token)
        },
        None => token_pair(token),
    }
}

/// The `&`-separated pieces of a query, in order; an empty query is one empty
/// piece.
pub open spec fn pieces(q: Seq<char>) -> Seq<Seq<char>>
    decreases q.len(),
{
    if q.len() == 0 {
        seq![Seq::empty()]
    } else {
        let init = pieces(q.drop_last());
        if q.last() == '&' {
            init.push(Seq::empty())
        } else {
            init.update(init.len() - 1, init.last().push(q.last()))
        }
    }
}

/// Whether a query piece carries an access token.
pub open spec fn is_token_piece(p: Seq<char>) -> bool {
    "access_token="@.is_prefix_of(p)
}

/// How many of `ps` carry an access token.
pub open spec fn token_piece_count(ps: Seq<Seq<char>>) -> nat
    decreases ps.len(),
{
    if ps.len() == 0 {
        0
    } else {
        token_piece_count(ps.drop_last()) + if is_token_piece(ps.last()) {
            1nat
        } else {
            0nat
        }
    }
}

/// How many pairs of the query `q` carry an access token.
pub open spec fn token_pairs_in(q: Seq<char>) -> nat {
    token_piece_count(pieces(q))
}

pub open spec fn has_no_separator(p: Seq<char>) -> bool {
    forall|i: int| 0 <= i < p.len() ==> p[i] != '&'
}

proof fn lemma_pieces_nonempty(q: Seq<char>)
    ensures
        pieces(q).len() >= 1,
    decreases q.len(),
{
    if q.len() > 0 {
        lemma_pieces_nonempty(q.drop_last());
    }
}

/// Characters without a separator extend the last piece.
proof fn lemma_pieces_extend(x: Seq<char>, p: Seq<char>)
    requires
        has_no_separator(p),
    ensures
        pieces(x + p) == pieces(x).update(pieces(x).len() - 1, pieces(x).last() + p),
    decreases p.len(),
{
    lemma_pieces_nonempty(x);
    if p.len() == 0 {
        assert(x + p =~= x);
        assert(pieces(x).last() + p =~= pieces(x).last());
        assert(pieces(x).update(pieces(x).len() - 1, pieces(x).last()) =~= pieces(x));
    } else {
        let p0 = p.drop_last();
        assert((x + p).drop_last() =~= x + p0);
        assert((x + p).last() == p.last());
        assert(p[p.len() - 1] != '&');
        assert(has_no_separator(p0));
        lemma_pieces_extend(x, p0);
        let init = pieces(x + p0);
        assert(init.len() == pieces(x).len());
        assert(init.last() == pieces(x).last() + p0);
        assert(pieces(x + p) == init.update(init.len() - 1, init.last().push(p.last())));
        assert(pieces(x).last() + p0 + seq![p.last()] =~= pieces(x).last() + p);
        assert(init.last().push(p.last()) =~= pieces(x).last() + p);
        assert(pieces(x + p) =~= pieces(x).update(pieces(x).len() - 1, pieces(x).last() + p));
    }
}

/// Appending `&` and a piece without a separator appends one piece.
proof fn lemma_pieces_join(a: Seq<char>, p: Seq<char>)
    requires
        has_no_separator(p),
    ensures
        pieces(a + "&"@ + p) == pieces(a).push(p),
{
    reveal_strlit("&");
    let x = a + "&"@;
    assert(x.drop_last() =~= a);
    assert(x.last() == '&');
    lemma_pieces_extend(x, p);
    assert(Seq::<char>::empty() + p =~= p);
    assert(pieces(x) =~= pieces(a).push(Seq::empty()));
    assert(pieces(x + p) =~= pieces(a).push(p));
}

/// A piece without a separator is the whole query.
proof fn lemma_pieces_single(p: Seq<char>)
    requires
        has_no_separator(p),
    ensures
        pieces(p) == seq![p],
{
    lemma_pieces_extend(Seq::empty(), p);
    assert(Seq::<char>::empty() + p =~= p);
    assert(pieces(Seq::<char>::empty()) =~= seq![Seq::<char>::empty()]);
    assert(pieces(p) =~= seq![p]);
}

proof fn lemma_count_push(ps: Seq<Seq<char>>, p: Seq<char>)
    ensures
        token_piece_count(ps.push(p)) == token_piece_count(ps) + if is_token_piece(p) {
            1nat
        } else {
            0nat
        },
{
    assert(ps.push(p).drop_last() =~= ps);
}

/// The access token pair is added to a query once: the query that goes out
/// holds one pair more that carries an access token than the endpoint's
/// query, so exactly one where the endpoint's query holds none.
pub proof fn lemma_token_added_once(query: Option<Seq<char>>, token: Seq<char>)
    requires
        has_no_separator(form_encoded(token)),
    ensures
        token_pairs_in(query_with_token(query, token)) == 1 + match query {
            Some(q) => token_pairs_in(q),
            None => 0,
        },
{
    reveal_strlit("access_token=");
    let pair = token_pair(token);
    assert(has_no_separator(pair)) by {
        assert forall|i: int| 0 <= i < pair.len() implies pair[i] != '&' by {
            if i >= 13 {
                assert(pair[i] == form_encoded(token)[i - 13]);
            }
        }
    }
    assert("access_token="@.is_prefix_of(pair)) by {
        assert(pair.subrange(0, 13) =~= "access_token="@);
    }
    lemma_count_push(Seq::empty(), pair);
    lemma_pieces_single(pair);
    assert(seq![pair] =~= Seq::<Seq<char>>::empty().push(pair));
    match query {
        Some(q) => {
            if q.len() > 0 {
                lemma_pieces_join(q, pair);
                lemma_count_push(pieces(q), pair);
            } else {
                assert(pieces(q) =~= seq![Seq::<char>::empty()]);
                lemma_count_push(Seq::empty(), Seq::<char>::empty());
                assert(!is_token_piece(Seq::<char>::empty()));
                assert(seq![Seq::<char>::empty()] =~= Seq::<Seq<char>>::empty().push(Seq::<char>::empty()));
            }
        },
        None => {},
    }
}

/// Appends the access token pair to an endpoint's query.
pub fn append_access_token(query: Option<&str>, token: &str) -> (r: String)
    ensures
        r@ == query_with_token(
            match query {
                Some(q) => Some(q@),
                None => None,
            },
            token@,
        ),
        has_no_separator(form_encoded(token@)),
{
    let mut r = match query {
        Some(q) => {
            let mut r = String::from_str(q);
            if !q.is_empty() {
                r.append("&");
            }
            r
        },
        None => String::new(),
    };
    proof {
        reveal_strlit("&");
        reveal_strlit("access_token=");
    }
    r.append("access_token=");
    let encoded = form_encode(token);
    r.append(encoded.as_str());
    proof {
        assert(r@ =~= query_with_token(
            match query {
                Some(q) => Some(q@),
                None => None,
            },
            token@,
        ));
    }
    r
}

/// The URI of a request to `path` with `query` on the server at `base`: the
/// scheme, host and port of `base` stay, its path and query are replaced.
pub fn request_uri(base: &str, path: &str, query: Option<&str>) -> (r: Result<http::Uri, ClientError>)
    ensures
        r is Ok <==> target_accepted(base@, path@, query_view(query)),
        r is Err ==> r->Err_0@ == crate::error::ErrorKind::Uri,
{
    let with_path = match with_url_path(base, path) {
        Some(u) => u,
        None => {
            return Err(ClientError(InnerError::InvalidHomeserverUrl));
        },
    };
    let target = match with_url_query(with_path.as_str(), query) {
        Some(u) => u,
        None => {
            return Err(ClientError(InnerError::InvalidHomeserverUrl));
        },
    };
    match parse_uri(target.as_str()) {
        Ok(uri) => Ok(uri),
        Err(e) => Err(ClientError(InnerError::Uri(e))),
    }
}

} // verus!
