use std::borrow::Cow;
use std::collections::HashMap;

use tumblr_api::{
    authorization_header_with, build_oauth_headers, build_params, canonical_parameter_string,
    signature_base_string, Token,
};

#[test]
fn header_for_fixed_nonce_and_timestamp() {
    let consumer = Token::new("ck", "cs");
    let token = Token::new("tk", "ts");
    let header = authorization_header_with(
        "GET",
        "https://api.example.com/v2/user/info",
        &consumer,
        Some(&token),
        &[],
        "abc123",
        1700000000,
    );
    assert_eq!(
        header,
        "OAuth oauth_consumer_key=\"ck\", oauth_nonce=\"abc123\", \
         oauth_signature=\"G2Mg14IqO9FeGteeZQTJ456g7lw%3D\", \
         oauth_signature_method=\"HMAC-SHA1\", oauth_timestamp=\"1700000000\", \
         oauth_token=\"tk\", oauth_version=\"1.0\""
    );
}

#[test]
fn base_string_for_fixed_nonce_and_timestamp() {
    let query = canonical_parameter_string(&[
        ("oauth_consumer_key", "ck"),
        ("oauth_nonce", "abc123"),
        ("oauth_signature_method", "HMAC-SHA1"),
        ("oauth_timestamp", "1700000000"),
        ("oauth_version", "1.0"),
        ("oauth_token", "tk"),
    ]);
    assert_eq!(
        query,
        "oauth_consumer_key=ck&oauth_nonce=abc123&oauth_signature_method=HMAC-SHA1&\
         oauth_timestamp=1700000000&oauth_token=tk&oauth_version=1.0"
    );
    let base = signature_base_string("GET", "https://api.example.com/v2/user/info", &query);
    assert_eq!(
        base,
        "GET&https%3A%2F%2Fapi.example.com%2Fv2%2Fuser%2Finfo&oauth_consumer_key%3Dck%26\
         oauth_nonce%3Dabc123%26oauth_signature_method%3DHMAC-SHA1%26\
         oauth_timestamp%3D1700000000%26oauth_token%3Dtk%26oauth_version%3D1.0"
    );
}

#[test]
fn signature_is_the_hmac_of_the_base_string() {
    // The signature in the header above, computed by hand: HMAC-SHA1 of the
    // base string under the key `cs&ts`, in Base64 (percent-encoded in the
    // header, where `=` becomes `%3D`).
    let signature =
        oauth_client::signature("GET", "https://api.example.com/v2/user/info",
            "oauth_consumer_key=ck&oauth_nonce=abc123&oauth_signature_method=HMAC-SHA1&\
             oauth_timestamp=1700000000&oauth_token=tk&oauth_version=1.0", "cs", Some("ts"));
    assert_eq!(signature, "G2Mg14IqO9FeGteeZQTJ456g7lw=");
}

#[test]
fn published_example_of_a_signed_status_update() {
    let consumer = Token::new("xvz1evFS4wEEPTGEFPHBog", "kAcSOqF21Fu85e7zjz7ZN2U4ZRhfV3WpwPAoE3Z7kBw");
    let token = Token::new(
        "370773112-GmHxMAgYyLbNEtIKZeRNFsMKPR9EyMZeS9weJAEb",
        "LswwdoUaIvS8ltyTt5jkRh4J50vUPVVHtR2YPi5kE",
    );
    let header = authorization_header_with(
        "POST",
        "https://api.twitter.com/1.1/statuses/update.json",
        &consumer,
        Some(&token),
        &[
            ("status", "Hello Ladies + Gentlemen, a signed OAuth request!"),
            ("include_entities", "true"),
        ],
        "kYjzVBB8Y0ZFabxSWbWovY3uYSQ2pTgmZeNu2VS4cg",
        1318622958,
    );
    assert_eq!(
        header,
        "OAuth oauth_consumer_key=\"xvz1evFS4wEEPTGEFPHBog\", \
         oauth_nonce=\"kYjzVBB8Y0ZFabxSWbWovY3uYSQ2pTgmZeNu2VS4cg\", \
         oauth_signature=\"hCtSmYh%2BiHYCEqBWrE7C7hYmtUk%3D\", \
         oauth_signature_method=\"HMAC-SHA1\", oauth_timestamp=\"1318622958\", \
         oauth_token=\"370773112-GmHxMAgYyLbNEtIKZeRNFsMKPR9EyMZeS9weJAEb\", \
         oauth_version=\"1.0\""
    );
}

#[test]
fn published_example_base_string() {
    let query = canonical_parameter_string(&[
        ("status", "Hello Ladies + Gentlemen, a signed OAuth request!"),
        ("include_entities", "true"),
        ("oauth_consumer_key", "xvz1evFS4wEEPTGEFPHBog"),
        ("oauth_nonce", "kYjzVBB8Y0ZFabxSWbWovY3uYSQ2pTgmZeNu2VS4cg"),
        ("oauth_signature_method", "HMAC-SHA1"),
        ("oauth_timestamp", "1318622958"),
        ("oauth_token", "370773112-GmHxMAgYyLbNEtIKZeRNFsMKPR9EyMZeS9weJAEb"),
        ("oauth_version", "1.0"),
    ]);
    assert_eq!(
        signature_base_string("post", "https://api.twitter.com/1.1/statuses/update.json", &query),
        "POST&https%3A%2F%2Fapi.twitter.com%2F1.1%2Fstatuses%2Fupdate.json&\
         include_entities%3Dtrue%26oauth_consumer_key%3Dxvz1evFS4wEEPTGEFPHBog%26\
         oauth_nonce%3DkYjzVBB8Y0ZFabxSWbWovY3uYSQ2pTgmZeNu2VS4cg%26\
         oauth_signature_method%3DHMAC-SHA1%26oauth_timestamp%3D1318622958%26\
         oauth_token%3D370773112-GmHxMAgYyLbNEtIKZeRNFsMKPR9EyMZeS9weJAEb%26\
         oauth_version%3D1.0%26status%3DHello%2520Ladies%2520%252B%2520Gentlemen%252C%2520a\
         %2520signed%2520OAuth%2520request%2521"
    );
}

#[test]
fn header_without_a_token() {
    let consumer = Token::new("ck", "cs");
    let header = authorization_header_with(
        "GET",
        "https://api.example.com/v2/user/info",
        &consumer,
        None,
        &[],
        "abc123",
        1700000000,
    );
    assert_eq!(
        header,
        "OAuth oauth_consumer_key=\"ck\", oauth_nonce=\"abc123\", \
         oauth_signature=\"yPpxkG%2BYVbu9miXVzoMZKUpO0v4%3D\", \
         oauth_signature_method=\"HMAC-SHA1\", oauth_timestamp=\"1700000000\", \
         oauth_version=\"1.0\""
    );
}

#[test]
fn method_is_signed_in_upper_case() {
    let consumer = Token::new("ck", "cs");
    let token = Token::new("tk", "");
    let lower = authorization_header_with("get", "https://example.com/", &consumer, Some(&token), &[], "abc123", 7);
    let upper = authorization_header_with("GET", "https://example.com/", &consumer, Some(&token), &[], "abc123", 7);
    assert_eq!(lower, upper);
    assert_eq!(
        lower,
        "OAuth oauth_consumer_key=\"ck\", oauth_nonce=\"abc123\", \
         oauth_signature=\"sYgIvSZLArdtVJ7%2B7HzCiNtZt5w%3D\", \
         oauth_signature_method=\"HMAC-SHA1\", oauth_timestamp=\"7\", oauth_token=\"tk\", \
         oauth_version=\"1.0\""
    );
}

#[test]
fn header_lists_every_protocol_parameter_of_the_request() {
    let consumer = Token::new("ck", "cs");
    let token = Token::new("tmp", "tmpsecret");
    let header = authorization_header_with(
        "GET",
        "https://www.tumblr.com/oauth/access_token",
        &consumer,
        Some(&token),
        &[("oauth_verifier", "v3r1f13r")],
        "abc123",
        1700000000,
    );
    assert_eq!(
        header,
        "OAuth oauth_consumer_key=\"ck\", oauth_nonce=\"abc123\", \
         oauth_signature=\"i40cH1aWmYc2W4BEVzB%2FhqELAL4%3D\", \
         oauth_signature_method=\"HMAC-SHA1\", oauth_timestamp=\"1700000000\", \
         oauth_token=\"tmp\", oauth_verifier=\"v3r1f13r\", oauth_version=\"1.0\""
    );
}

#[test]
fn request_parameters_are_signed_but_not_listed() {
    let consumer = Token::new("ck", "c s");
    let token = Token::new("tk", "t&s");
    let header = authorization_header_with(
        "POST",
        "https://api.tumblr.com/v2/user/follow",
        &consumer,
        Some(&token),
        &[("url", "https://example.tumblr.com/?a=b c")],
        "abc123",
        0,
    );
    assert_eq!(
        header,
        "OAuth oauth_consumer_key=\"ck\", oauth_nonce=\"abc123\", \
         oauth_signature=\"tF%2FdkekIvU%2F6NVtTFrvHTNgQzL8%3D\", \
         oauth_signature_method=\"HMAC-SHA1\", oauth_timestamp=\"0\", oauth_token=\"tk\", \
         oauth_version=\"1.0\""
    );
}

#[test]
fn a_parameter_of_the_request_replaces_one_of_the_protocol() {
    let consumer = Token::new("ck", "cs");
    let header = authorization_header_with(
        "GET",
        "https://example.com/",
        &consumer,
        None,
        &[("oauth_nonce", "mine"), ("a", "1"), ("a", "2")],
        "abc123",
        u64::MAX,
    );
    assert_eq!(
        header,
        "OAuth oauth_consumer_key=\"ck\", oauth_nonce=\"mine\", \
         oauth_signature=\"9t60L99x%2BQo9YwekYCG9TZO3lsU%3D\", \
         oauth_signature_method=\"HMAC-SHA1\", oauth_timestamp=\"18446744073709551615\", \
         oauth_version=\"1.0\""
    );
}

#[test]
fn same_inputs_give_the_same_header() {
    let consumer = Token::new("ck", "cs");
    let token = Token::new("tk", "ts");
    let params = [("b", "2"), ("a", "1 1")];
    let first = authorization_header_with("POST", "https://example.com/x", &consumer, Some(&token), &params, "n", 5);
    let again = authorization_header_with(
        "POST",
        "https://example.com/x",
        &Token::new("ck", "cs"),
        Some(&Token::new("tk", "ts")),
        &params,
        "n",
        5,
    );
    assert_eq!(first, again);
}

#[test]
fn a_different_nonce_or_timestamp_gives_a_different_signature() {
    let consumer = Token::new("ck", "cs");
    let a = authorization_header_with("GET", "https://example.com/", &consumer, None, &[], "n1", 5);
    let b = authorization_header_with("GET", "https://example.com/", &consumer, None, &[], "n2", 5);
    let c = authorization_header_with("GET", "https://example.com/", &consumer, None, &[], "n1", 6);
    assert_ne!(a, b);
    assert_ne!(a, c);
}

fn field<'a>(header: &'a str, name: &str) -> &'a str {
    let mark = format!("{}=\"", name);
    let start = header.find(&mark).unwrap() + mark.len();
    let end = start + header[start..].find('"').unwrap();
    &header[start..end]
}

#[test]
fn fresh_header_has_a_nonce_of_32_letters_and_digits() {
    let consumer = Token::new("ck", "cs");
    let header = build_oauth_headers("GET", "https://example.com/", &consumer, None, None);
    let nonce = field(&header, "oauth_nonce");
    assert_eq!(nonce.len(), 32);
    assert!(nonce.chars().all(|c| c.is_ascii_alphanumeric()));
}

#[test]
fn fresh_header_is_the_header_for_its_nonce_and_timestamp() {
    let consumer = Token::new("ck", "cs");
    let token = Token::new("tk", "ts");
    let params = build_params(vec![("limit", "5"), ("tag", "a b")]);
    let header = build_oauth_headers(
        "GET",
        "https://api.tumblr.com/v2/user/likes",
        &consumer,
        Some(&token),
        Some(&params),
    );
    let nonce = field(&header, "oauth_nonce").to_string();
    let timestamp: u64 = field(&header, "oauth_timestamp").parse().unwrap();
    assert!(timestamp > 1_600_000_000);
    assert_eq!(
        header,
        authorization_header_with(
            "GET",
            "https://api.tumblr.com/v2/user/likes",
            &consumer,
            Some(&token),
            &[("limit", "5"), ("tag", "a b")],
            &nonce,
            timestamp,
        )
    );
}

#[test]
fn two_fresh_headers_differ() {
    let consumer = Token::new("ck", "cs");
    let a = build_oauth_headers("GET", "https://example.com/", &consumer, None, None);
    let b = build_oauth_headers("GET", "https://example.com/", &consumer, None, None);
    assert_ne!(field(&a, "oauth_nonce"), field(&b, "oauth_nonce"));
    assert_ne!(a, b);
}

#[test]
fn token_holds_key_and_secret() {
    let token = Token::new("key", "secret");
    assert_eq!(token.key, "key");
    assert_eq!(token.secret, "secret");
}

#[test]
fn header_agrees_with_the_signing_crate() {
    let cases: Vec<(&str, &str, Option<(&str, &str)>, Vec<(&str, &str)>)> = vec![
        ("GET", "https://api.tumblr.com/v2/user/info", Some(("tk", "ts")), vec![]),
        ("GET", "https://www.tumblr.com/oauth/request_token", None, vec![]),
        (
            "POST",
            "https://api.tumblr.com/v2/blog/b.tumblr.com/post",
            Some(("tk", "t s")),
            vec![("type", "text"), ("body", "a b&c=d é"), ("tags", "x,y")],
        ),
        (
            "GET",
            "https://www.tumblr.com/oauth/access_token",
            Some(("tmp", "secret")),
            vec![("oauth_verifier", "v/1+2=")],
        ),
    ];
    for (method, uri, token, params) in cases {
        let theirs_consumer = oauth_client::Token::new("ck", "c&s");
        let theirs_token = token.map(|(k, s)| oauth_client::Token::new(k, s));
        let mut map: HashMap<Cow<str>, Cow<str>> = HashMap::new();
        for (k, v) in &params {
            map.insert((*k).into(), (*v).into());
        }
        let (theirs, _) = oauth_client::authorization_header(
            method,
            uri,
            &theirs_consumer,
            theirs_token.as_ref(),
            Some(&map),
        );
        let nonce = field(&theirs, "oauth_nonce").to_string();
        let timestamp: u64 = field(&theirs, "oauth_timestamp").parse().unwrap();
        let consumer = Token::new("ck", "c&s");
        let ours_token = token.map(|(k, s)| Token::new(k, s));
        let ours = authorization_header_with(
            method,
            uri,
            &consumer,
            ours_token.as_ref(),
            &params,
            &nonce,
            timestamp,
        );
        assert_eq!(ours, theirs);
    }
}
