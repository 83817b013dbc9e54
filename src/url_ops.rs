//! The URL operations this library takes from the `url` crate, through
//! `reqwest::Url`, together with names for what they return.

use vstd::prelude::*;

verus! {

#[verifier::external_type_specification]
#[verifier::external_body]
pub struct ExParseError(url::ParseError);

/// A list of query pairs as pairs of character sequences.
pub open spec fn pairs_view(v: Seq<(String, String)>) -> Seq<(Seq<char>, Seq<char>)> {
    v.map_values(|p: (String, String)| (p.0@, p.1@))
}

/// The serialised URL that `base` parses to, with `pairs` appended to its
/// query in form-urlencoded form; `None` where `base` does not parse.
pub uninterp spec fn url_with_params(
    base: Seq<char>,
    pairs: Seq<(Seq<char>, Seq<char>)>,
) -> Option<Seq<char>>;

/// The serialised URL that `input` resolves to against the URL `base`;
/// `None` where either does not parse.
pub uninterp spec fn url_join(base: Seq<char>, input: Seq<char>) -> Option<Seq<char>>;

/// Relies on `url::Url::parse_with_params`: it parses `base` and appends each
/// pair to the query, percent-encoding keys and values.
#[verifier::external_body]
pub(crate) fn parse_with_params(base: &str, pairs: &Vec<(String, String)>) -> (r: Result<
    String,
    url::ParseError,
>)
    ensures
        r is Ok <==> url_with_params(base@, pairs_view(pairs@)) is Some,
        r is Ok ==> url_with_params(base@, pairs_view(pairs@)) == Some(r->Ok_0@),
{
    reqwest::Url::parse_with_params(base, pairs.iter()).map(|u| u.to_string())
}

/// Relies on `url::Url::parse`, to read `base`, and `url::Url::join`, to
/// resolve `input` against it.
#[verifier::external_body]
pub(crate) fn join(base: &str, input: &str) -> (r: Result<String, url::ParseError>)
    ensures
        r is Ok <==> url_join(base@, input@) is Some,
        r is Ok ==> url_join(base@, input@) == Some(r->Ok_0@),
{
    reqwest::Url::parse(base).and_then(|b| b.join(input)).map(|u| u.to_string())
}

} // verus!
