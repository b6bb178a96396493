use tumblr_api::canonical::sort_for_signing;
use tumblr_api::order::{pair_no_later, text_no_later};
use tumblr_api::{canonical_parameter_string, parse_query};

#[test]
fn no_parameters_give_the_empty_canonical_string() {
    assert_eq!(canonical_parameter_string(&[]), "");
}

#[test]
fn parameters_are_sorted_by_name() {
    assert_eq!(
        canonical_parameter_string(&[("c", "3"), ("a", "1"), ("b", "2")]),
        "a=1&b=2&c=3"
    );
}

#[test]
fn equal_names_are_sorted_by_value() {
    assert_eq!(
        canonical_parameter_string(&[("a", "2"), ("b", "0"), ("a", "10"), ("a", "1")]),
        "a=1&a=10&a=2&b=0"
    );
}

#[test]
fn order_is_that_of_the_encoded_bytes() {
    // Upper case before lower case, digits before letters, and an encoded
    // blank (`%20`) before both.
    assert_eq!(
        canonical_parameter_string(&[("b", ""), ("B", ""), ("1", ""), (" ", ""), ("~", "")]),
        "%20=&1=&B=&b=&~="
    );
}

#[test]
fn a_name_comes_before_the_names_it_begins() {
    // Pairs are compared by name first: `a` comes before `a-b`, though the
    // written pair `a=1` would come after `a-b=2` as a text.
    assert_eq!(canonical_parameter_string(&[("a-b", "2"), ("a", "1")]), "a=1&a-b=2");
}

#[test]
fn canonical_string_encodes_values() {
    assert_eq!(
        canonical_parameter_string(&[("status", "Hello Ladies + Gentlemen, a signed OAuth request!"), ("include_entities", "true")]),
        "include_entities=true&status=Hello%20Ladies%20%2B%20Gentlemen%2C%20a%20signed%20OAuth%20request%21"
    );
}

#[test]
fn canonical_string_of_the_rfc_example() {
    // The parameters of the example in RFC 5849, section 3.4.1.3.
    let params = [
        ("b5", "=%3D"),
        ("a3", "a"),
        ("c@", ""),
        ("a2", "r b"),
        ("oauth_consumer_key", "9djdj82h48djs9d2"),
        ("oauth_token", "kkk9d7dh3k39sjv7"),
        ("oauth_signature_method", "HMAC-SHA1"),
        ("oauth_timestamp", "137131201"),
        ("oauth_nonce", "7d8f3e4a"),
        ("c2", ""),
        ("a3", "2 q"),
    ];
    assert_eq!(
        canonical_parameter_string(&params),
        "a2=r%20b&a3=2%20q&a3=a&b5=%3D%253D&c%40=&c2=&oauth_consumer_key=9djdj82h48djs9d2&\
         oauth_nonce=7d8f3e4a&oauth_signature_method=HMAC-SHA1&oauth_timestamp=137131201&\
         oauth_token=kkk9d7dh3k39sjv7"
    );
}

#[test]
fn canonical_string_ignores_the_order_given() {
    let a = [("x", "1"), ("a", "b c"), ("x", "0"), ("m", "")];
    let b = [("m", ""), ("x", "0"), ("x", "1"), ("a", "b c")];
    assert_eq!(canonical_parameter_string(&a), canonical_parameter_string(&b));
    assert_eq!(canonical_parameter_string(&a), "a=b%20c&m=&x=0&x=1");
}

#[test]
fn canonicalizing_a_canonical_string_changes_nothing() {
    let params = [("z", "é"), ("a", "1&2"), ("m", "x=y"), ("a", "0")];
    let first = canonical_parameter_string(&params);
    let read = parse_query(&first).unwrap();
    let borrowed: Vec<(&str, &str)> = read.iter().map(|(k, v)| (k.as_str(), v.as_str())).collect();
    assert_eq!(canonical_parameter_string(&borrowed), first);
}

#[test]
fn decoding_the_canonical_string_recovers_the_parameters() {
    let params = [("z", "é"), ("a", "1&2"), ("m", "x=y"), ("a", "0"), ("", "")];
    let read = parse_query(&canonical_parameter_string(&params)).unwrap();
    let mut got: Vec<(String, String)> = read;
    let mut want: Vec<(String, String)> =
        params.iter().map(|(k, v)| (k.to_string(), v.to_string())).collect();
    got.sort();
    want.sort();
    assert_eq!(got, want);
}

#[test]
fn sorting_keeps_every_pair() {
    let params = [("b", "2"), ("a", "1"), ("b", "1"), ("a", "1")];
    assert_eq!(sort_for_signing(&params), vec![("a", "1"), ("a", "1"), ("b", "1"), ("b", "2")]);
    assert_eq!(sort_for_signing(&[]), vec![]);
}

fn chars(s: &str) -> Vec<char> {
    s.chars().collect()
}

#[test]
fn texts_are_compared_character_by_character() {
    assert!(text_no_later(&chars(""), &chars("")));
    assert!(text_no_later(&chars(""), &chars("a")));
    assert!(!text_no_later(&chars("a"), &chars("")));
    assert!(text_no_later(&chars("a"), &chars("a")));
    assert!(text_no_later(&chars("a"), &chars("ab")));
    assert!(!text_no_later(&chars("ab"), &chars("a")));
    assert!(text_no_later(&chars("ab"), &chars("b")));
    assert!(!text_no_later(&chars("b"), &chars("ab")));
    assert!(text_no_later(&chars("Z"), &chars("a")));
}

#[test]
fn pairs_are_compared_by_name_then_value() {
    assert!(pair_no_later(&chars("a"), &chars("9"), &chars("b"), &chars("0")));
    assert!(!pair_no_later(&chars("b"), &chars("0"), &chars("a"), &chars("9")));
    assert!(pair_no_later(&chars("a"), &chars("1"), &chars("a"), &chars("2")));
    assert!(!pair_no_later(&chars("a"), &chars("2"), &chars("a"), &chars("1")));
    assert!(pair_no_later(&chars("a"), &chars("1"), &chars("a"), &chars("1")));
}
