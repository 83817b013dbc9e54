use aur_client::model::{AurError, Package, Reply, Response};
use aur_client::query::{
    clone_url_on, get_git_url, info_params, info_url, search_params, search_url, AUR_RPC_URL,
};

fn pairs(items: &[(&str, &str)]) -> Vec<(String, String)> {
    items.iter().map(|(k, v)| (k.to_string(), v.to_string())).collect()
}

#[test]
fn search_params_carry_version_type_and_term() {
    assert_eq!(
        search_params("yay"),
        pairs(&[("v", "5"), ("type", "search"), ("arg", "yay")])
    );
}

#[test]
fn search_url_encodes_the_term() {
    assert_eq!(
        search_url("yay").unwrap(),
        "https://aur.archlinux.org/rpc?v=5&type=search&arg=yay"
    );
    assert_eq!(
        search_url("a b&c=d").unwrap(),
        "https://aur.archlinux.org/rpc?v=5&type=search&arg=a+b%26c%3Dd"
    );
}

#[test]
fn search_url_of_empty_term() {
    assert_eq!(
        search_url("").unwrap(),
        "https://aur.archlinux.org/rpc?v=5&type=search&arg="
    );
}

#[test]
fn info_params_one_arg_per_name_in_order() {
    assert_eq!(
        info_params(&["foo", "bar", "foo"]),
        pairs(&[
            ("v", "5"),
            ("type", "info"),
            ("arg[]", "foo"),
            ("arg[]", "bar"),
            ("arg[]", "foo"),
        ])
    );
}

#[test]
fn info_params_without_names() {
    assert_eq!(info_params(&[]), pairs(&[("v", "5"), ("type", "info")]));
}

#[test]
fn info_url_repeats_arg_per_name() {
    assert_eq!(
        info_url(&["yay", "paru"]).unwrap(),
        "https://aur.archlinux.org/rpc?v=5&type=info&arg%5B%5D=yay&arg%5B%5D=paru"
    );
    assert_eq!(
        info_url(&[]).unwrap(),
        "https://aur.archlinux.org/rpc?v=5&type=info"
    );
}

#[test]
fn rpc_url_is_site_joined_with_rpc() {
    assert_eq!(AUR_RPC_URL, "https://aur.archlinux.org/rpc");
}

#[test]
fn git_url_appends_dot_git() {
    assert_eq!(
        get_git_url("foo").unwrap(),
        "https://aur.archlinux.org/foo.git"
    );
}

#[test]
fn clone_url_on_another_site() {
    assert_eq!(
        clone_url_on("https://example.org/", "foo").unwrap(),
        "https://example.org/foo.git"
    );
}

#[test]
fn clone_url_on_malformed_site() {
    assert_eq!(
        clone_url_on("not a url", "foo"),
        Err(AurError::UrlConstruction)
    );
}

fn empty_response() -> Response {
    Response {
        error: None,
        version: 5,
        query_type: "search".to_string(),
        resultcount: 0,
        results: Vec::new(),
    }
}

#[test]
fn complete_returns_a_decoded_reply() {
    let r = aur_client::model::complete(Reply::Decoded(empty_response())).unwrap();
    assert!(r.results.is_empty());
    assert_eq!(r.resultcount, 0);
    assert!(r.error.is_none());
}

#[test]
fn complete_keeps_the_server_error_as_data() {
    let mut resp = empty_response();
    resp.error = Some("Incorrect request type specified.".to_string());
    resp.query_type = "error".to_string();
    let r = aur_client::model::complete(Reply::Decoded(resp)).unwrap();
    assert_eq!(r.error.as_deref(), Some("Incorrect request type specified."));
}

#[test]
fn complete_undecodable_is_decode_error() {
    assert!(matches!(
        aur_client::model::complete(Reply::Undecodable),
        Err(AurError::Decode)
    ));
}

#[test]
fn complete_failed_exchange_is_transport_error() {
    assert!(matches!(
        aur_client::model::complete(Reply::Failed),
        Err(AurError::Transport)
    ));
}

#[test]
fn package_default_has_no_optional_fields() {
    let p = Package::default();
    assert!(p.Maintainer.is_none());
    assert!(p.Depends.is_none());
    assert_eq!(f64::from_bits(p.Popularity), 0.0);
}
