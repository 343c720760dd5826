//! Building the absolute URIs of the write and health endpoints.

use vstd::prelude::*;

use crate::text::{chars_of, push_char};
use http::uri::InvalidUri;
use http::Uri;

verus! {

#[verifier::external_type_specification]
#[verifier::external_body]
pub struct ExUri(Uri);

#[verifier::external_type_specification]
#[verifier::external_body]
pub struct ExInvalidUri(InvalidUri);

/// The `application/x-www-form-urlencoded` encoding of one name or value.
pub uninterp spec fn form_encoded_of(s: Seq<char>) -> Seq<char>;

/// One pair of a form-encoded query: `name=value`, both encoded.
pub open spec fn form_pair(pair: (Seq<char>, Seq<char>)) -> Seq<char> {
    form_encoded_of(pair.0) + seq!['='] + form_encoded_of(pair.1)
}

/// The `application/x-www-form-urlencoded` text of a list of pairs: each
/// pair as `name=value`, in the order of the list, joined by `&`.
pub open spec fn form_urlencoded_of(pairs: Seq<(Seq<char>, Seq<char>)>) -> Seq<char>
    decreases pairs.len(),
{
    if pairs.len() == 0 {
        Seq::empty()
    } else if pairs.len() == 1 {
        form_pair(pairs[0])
    } else {
        form_urlencoded_of(pairs.drop_last()) + seq!['&'] + form_pair(pairs.last())
    }
}

/// The query of two lists of pairs, one after the other, is the query of the
/// first, `&`, and the query of the second: the pairs keep their order.
pub proof fn lemma_form_urlencoded_append(
    a: Seq<(Seq<char>, Seq<char>)>,
    b: Seq<(Seq<char>, Seq<char>)>,
)
    requires
        a.len() > 0,
        b.len() > 0,
    ensures
        form_urlencoded_of(a + b) == form_urlencoded_of(a) + seq!['&'] + form_urlencoded_of(b),
    decreases b.len(),
{
    assert((a + b).drop_last() == a + b.drop_last());
    assert((a + b).last() == b.last());
    if b.len() == 1 {
        assert(b.drop_last().len() == 0);
        assert(a + b.drop_last() == a);
    } else {
        lemma_form_urlencoded_append(a, b.drop_last());
    }
}

/// Whether a text parses as a URI.
pub uninterp spec fn uri_accepts(s: Seq<char>) -> bool;

/// The pairs of a list of owned strings, as characters.
pub open spec fn pair_views(pairs: Seq<(String, String)>) -> Seq<(Seq<char>, Seq<char>)> {
    pairs.map_values(|e: (String, String)| (e.0@, e.1@))
}

/// Relies on url's `form_urlencoded::Serializer` (`new`, `extend_pairs`,
/// `finish`): starting from an empty text with no encoding override, each
/// pair is appended in order as its encoded name, `=` and its encoded value,
/// with `&` before every pair but the first; each name and value is encoded
/// on its own, by its characters alone.
#[verifier::external_body]
fn form_urlencoded(pairs: &Vec<(String, String)>) -> (r: String)
    ensures
        r@ == form_urlencoded_of(pair_views(pairs@)),
        pairs@.len() == 1 ==> r@ == form_encoded_of(pairs@[0].0@) + seq!['='] + form_encoded_of(
            pairs@[0].1@,
        ),
        pairs@.len() == 0 ==> r@.len() == 0,
        pairs@.len() > 0 ==> r@.len() > 0,
{
    url::form_urlencoded::Serializer::new(String::new()).extend_pairs(pairs.iter()).finish()
}

/// Relies on http's `FromStr` for `Uri`: whether the text is accepted
/// depends on the text alone.
#[verifier::external_body]
fn parse_uri(s: &str) -> (r: Result<Uri, InvalidUri>)
    ensures
        r is Ok <==> uri_accepts(s@),
{
    s.parse::<Uri>()
}

/// A URI that does not parse.
#[derive(Debug)]
pub struct UriParseError {
    pub source: InvalidUri,
}

/// The query pairs whose value is present, in their order.
pub open spec fn present_pairs(pairs: Seq<(&str, Option<String>)>) -> Seq<(Seq<char>, Seq<char>)>
    decreases pairs.len(),
{
    if pairs.len() == 0 {
        Seq::empty()
    } else {
        let rest = present_pairs(pairs.drop_last());
        match pairs.last().1 {
            Some(v) => rest.push((pairs.last().0@, v@)),
            None => rest,
        }
    }
}

/// The endpoint and the path, with one `/` between them.
pub open spec fn joined_path(endpoint: Seq<char>, path: Seq<char>) -> Seq<char> {
    if endpoint.len() > 0 && endpoint.last() == '/' {
        endpoint + path
    } else {
        endpoint + seq!['/'] + path
    }
}

/// The text of a URI: endpoint and path, then `?` and the encoded query
/// where there is one.
pub open spec fn uri_text(
    endpoint: Seq<char>,
    path: Seq<char>,
    query: Seq<(Seq<char>, Seq<char>)>,
) -> Seq<char> {
    if query.len() == 0 {
        joined_path(endpoint, path)
    } else {
        joined_path(endpoint, path) + seq!['?'] + form_urlencoded_of(query)
    }
}

/// An endpoint with or without a trailing `/` gives the same URI text.
pub proof fn lemma_trailing_slash(
    endpoint: Seq<char>,
    path: Seq<char>,
    query: Seq<(Seq<char>, Seq<char>)>,
)
    requires
        endpoint.len() == 0 || endpoint.last() != '/',
    ensures
        uri_text(endpoint.push('/'), path, query) == uri_text(endpoint, path, query),
{
    assert(endpoint.push('/') + path == endpoint + seq!['/'] + path);
}

/// The text of the URI of `path` under `endpoint`, with the pairs whose value
/// is present as its query.
pub fn uri_string(endpoint: &str, path: &str, pairs: &[(&str, Option<String>)]) -> (r: String)
    ensures
        r@ == uri_text(endpoint@, path@, present_pairs(pairs@)),
{
    let mut present: Vec<(String, String)> = Vec::new();
    let mut i: usize = 0;
    while i < pairs.len()
        invariant
            i <= pairs@.len(),
            pair_views(present@) == present_pairs(pairs@.take(i as int)),
        decreases pairs@.len() - i,
    {
        assert(pairs@.take(i + 1).drop_last() == pairs@.take(i as int));
        match &pairs[i].1 {
            Some(v) => {
                present.push((String::from_str(pairs[i].0), v.clone()));
                assert(pair_views(present@) == present_pairs(pairs@.take(i as int)).push(
                    (pairs[i as int].0@, v@),
                ));
            },
            None => {},
        }
        i = i + 1;
    }
    assert(pairs@.take(pairs@.len() as int) == pairs@);
    let query = form_urlencoded(&present);
    let chars = chars_of(endpoint);
    let mut url = String::from_str(endpoint);
    if !(chars.len() > 0 && chars[chars.len() - 1] == '/') {
        push_char(&mut url, '/');
    }
    url.append(path);
    if !query.as_str().is_empty() {
        push_char(&mut url, '?');
        url.append(query.as_str());
    }
    url
}

/// The URI of `path` under `endpoint` with the pairs whose value is present
/// as its query; an error where that text does not parse as a URI.
pub fn encode_uri(endpoint: &str, path: &str, pairs: &[(&str, Option<String>)]) -> (r: Result<
    Uri,
    UriParseError,
>)
    ensures
        r is Ok <==> uri_accepts(uri_text(endpoint@, path@, present_pairs(pairs@))),
{
    let url = uri_string(endpoint, path, pairs);
    match parse_uri(url.as_str()) {
        Ok(uri) => Ok(uri),
        Err(source) => Err(UriParseError { source }),
    }
}

} // verus!
