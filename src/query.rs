//! Query URLs for the RPC endpoint and clone URLs for package repositories.

use vstd::prelude::*;
use vstd::string::*;

use crate::model::AurError;
use crate::url_ops::{join, pairs_view, parse_with_params, url_join, url_with_params};

verus! {

/// The site that hosts both the RPC endpoint and the package repositories.
pub const AUR_URL: &'static str = "https://aur.archlinux.org/";

/// The RPC endpoint, `AUR_URL` joined with `/rpc`.
pub const AUR_RPC_URL: &'static str = "https://aur.archlinux.org/rpc";

/// The RPC interface version sent with every query.
pub const AUR_RPC_VER: &'static str = "5";

/// The pairs every query starts with: the interface version and the query type.
pub open spec fn query_head(kind: Seq<char>) -> Seq<(Seq<char>, Seq<char>)> {
    seq![("v"@, AUR_RPC_VER@), ("type"@, kind)]
}

/// The query pairs of a search for `term`.
pub open spec fn search_query(term: Seq<char>) -> Seq<(Seq<char>, Seq<char>)> {
    query_head("search"@).push(("arg"@, term))
}

/// The query pairs of an info lookup: one `arg[]` pair per name, in order.
pub open spec fn info_query(names: Seq<Seq<char>>) -> Seq<(Seq<char>, Seq<char>)> {
    query_head("info"@) + names.map_values(|n: Seq<char>| ("arg[]"@, n))
}

/// A slice of names as character sequences.
pub open spec fn names_view(names: Seq<&str>) -> Seq<Seq<char>> {
    names.map_values(|n: &str| n@)
}

/// What a call that builds a URL owes: the URL where the url crate gives one,
/// else `UrlConstruction`.
pub open spec fn built(r: Result<String, AurError>, url: Option<Seq<char>>) -> bool {
    match url {
        Some(u) => r is Ok && r->Ok_0@ == u,
        None => r == Err::<String, AurError>(AurError::UrlConstruction),
    }
}

/// The clone URL of `package` under the site `base`: the name with `.git`
/// appended, resolved against `base`.
pub open spec fn clone_url(base: Seq<char>, package: Seq<char>) -> Option<Seq<char>> {
    url_join(base, package + ".git"@)
}

/// Whether a query pair is an `arg[]` pair.
pub open spec fn is_name_arg(p: (Seq<char>, Seq<char>)) -> bool {
    p.0 == "arg[]"@
}

/// A search query carries the query type `search` and the term itself as
/// `arg`, unchanged; the url crate percent-encodes both when it builds the URL
/// that `search_url` returns.
pub proof fn lemma_search_query_carries_term(term: Seq<char>)
    ensures
        search_query(term).contains(("type"@, "search"@)),
        search_query(term).contains(("arg"@, term)),
{
    assert(search_query(term)[1] == ("type"@, "search"@));
    assert(search_query(term)[2] == ("arg"@, term));
}

proof fn lemma_name_args_kept(names: Seq<Seq<char>>)
    ensures
        names.map_values(|n: Seq<char>| ("arg[]"@, n)).filter(|p: (Seq<char>, Seq<char>)| is_name_arg(p))
            == names.map_values(|n: Seq<char>| ("arg[]"@, n)),
    decreases names.len(),
{
    let args = names.map_values(|n: Seq<char>| ("arg[]"@, n));
    let pred = |p: (Seq<char>, Seq<char>)| is_name_arg(p);
    if names.len() == 0 {
        assert(args =~= Seq::empty());
        assert(args.filter(pred) =~= Seq::empty());
    } else {
        let rest = names.drop_last();
        let rest_args = rest.map_values(|n: Seq<char>| ("arg[]"@, n));
        lemma_name_args_kept(rest);
        assert(args =~= rest_args.push(("arg[]"@, names.last())));
        rest_args.lemma_filter_push(("arg[]"@, names.last()), pred);
    }
}

/// An info query holds exactly one `arg[]` pair per name, in the order of
/// the names, and so none where there are no names.
pub proof fn lemma_info_query_one_arg_per_name(names: Seq<Seq<char>>)
    ensures
        info_query(names).filter(|p: (Seq<char>, Seq<char>)| is_name_arg(p))
            == names.map_values(|n: Seq<char>| ("arg[]"@, n)),
{
    let pred = |p: (Seq<char>, Seq<char>)| is_name_arg(p);
    let head = query_head("info"@);
    let args = names.map_values(|n: Seq<char>| ("arg[]"@, n));
    reveal_strlit("v");
    reveal_strlit("type");
    reveal_strlit("arg[]");
    assert(head[0].0 == "v"@ && head[1].0 == "type"@);
    assert("v"@.len() == 1 && "type"@.len() == 4 && "arg[]"@.len() == 5);
    assert(!is_name_arg(head[0]));
    assert(!is_name_arg(head[1]));
    Seq::filter_distributes_over_add(head, args, pred);
    Seq::empty().lemma_filter_push(head[0], pred);
    assert(head =~= Seq::empty().push(head[0]).push(head[1]));
    Seq::empty().push(head[0]).lemma_filter_push(head[1], pred);
    assert(Seq::<(Seq<char>, Seq<char>)>::empty().filter(pred) =~= Seq::empty());
    assert(head.filter(pred) =~= Seq::empty());
    lemma_name_args_kept(names);
    assert(info_query(names) == head + args);
    assert(Seq::<(Seq<char>, Seq<char>)>::empty() + args.filter(pred) =~= args.filter(pred));
}

fn head(kind: &str) -> (r: Vec<(String, String)>)
    ensures
        pairs_view(r@) =~= query_head(kind@),
{
    let mut r: Vec<(String, String)> = Vec::new();
    r.push(("v".to_owned(), AUR_RPC_VER.to_owned()));
    r.push(("type".to_owned(), kind.to_owned()));
    r
}

/// The query pairs of a search for `term`.
pub fn search_params(term: &str) -> (r: Vec<(String, String)>)
    ensures
        pairs_view(r@) =~= search_query(term@),
{
    let mut r = head("search");
    r.push(("arg".to_owned(), term.to_owned()));
    r
}

/// The query pairs of an info lookup of `names`.
pub fn info_params(names: &[&str]) -> (r: Vec<(String, String)>)
    ensures
        pairs_view(r@) =~= info_query(names_view(names@)),
{
    let mut r = head("info");
    let mut i: usize = 0;
    while i < names.len()
        invariant
            i <= names@.len(),
            pairs_view(r@) =~= info_query(names_view(names@.take(i as int))),
        decreases names@.len() - i,
    {
        let ghost before = names_view(names@.take(i as int));
        r.push(("arg[]".to_owned(), names[i].to_owned()));
        assert(names@.take(i as int + 1) =~= names@.take(i as int).push(names@[i as int]));
        assert(names_view(names@.take(i as int + 1)) =~= before.push(names@[i as int]@));
        assert(info_query(before.push(names@[i as int]@)) =~= info_query(before).push(
            ("arg[]"@, names@[i as int]@),
        ));
        i += 1;
    }
    assert(names@.take(names@.len() as int) =~= names@);
    r
}

fn with_params(pairs: &Vec<(String, String)>) -> (r: Result<String, AurError>)
    ensures
        built(r, url_with_params(AUR_RPC_URL@, pairs_view(pairs@))),
{
    match parse_with_params(AUR_RPC_URL, pairs) {
        Ok(u) => Ok(u),
        Err(_) => Err(AurError::UrlConstruction),
    }
}

/// The URL of a search for `term`.
pub fn search_url(term: &str) -> (r: Result<String, AurError>)
    ensures
        built(r, url_with_params(AUR_RPC_URL@, search_query(term@))),
{
    let pairs = search_params(term);
    with_params(&pairs)
}

/// The URL of an info lookup of `names`.
pub fn info_url(names: &[&str]) -> (r: Result<String, AurError>)
    ensures
        built(r, url_with_params(AUR_RPC_URL@, info_query(names_view(names@)))),
{
    let pairs = info_params(names);
    with_params(&pairs)
}

/// The clone URL of `package` under the site `base`.
pub fn clone_url_on(base: &str, package: &str) -> (r: Result<String, AurError>)
    ensures
        built(r, clone_url(base@, package@)),
{
    let path = package.to_owned().concat(".git");
    match join(base, path.as_str()) {
        Ok(u) => Ok(u),
        Err(_) => Err(AurError::UrlConstruction),
    }
}

/// The clone URL of the AUR repository of `package`.
pub fn get_git_url(package: &str) -> (r: Result<String, AurError>)
    ensures
        built(r, clone_url(AUR_URL@, package@)),
{
    clone_url_on(AUR_URL, package)
}

} // verus!
