use tumblr_api::client::oauth::verifier_of;
use tumblr_api::query::to_owned_pairs;
use tumblr_api::text::{
    chars_of, concat3, decimal_of, same_chars, same_text, starts_with, string_of, to_ascii_upper,
    trim, white_space,
};
use tumblr_api::{
    authorization_header_with, Authorization, Body, Keys, Method, Report, Todo, Token,
    TumblrClient, TumblrClientError,
};

fn header_value<'a>(header: &'a str, name: &str) -> &'a str {
    let mark = format!("{}=\"", name);
    let start = header.find(&mark).unwrap() + mark.len();
    let end = start + header[start..].find('"').unwrap();
    &header[start..end]
}

#[test]
fn new_keys_are_empty() {
    let keys = Keys::new();
    assert_eq!(keys.consumer_key, "");
    assert_eq!(keys.consumer_secret, "");
    assert_eq!(keys.access_key, "");
    assert_eq!(keys.access_secret, "");
}

#[test]
fn new_client_has_empty_keys_and_no_proxy() {
    let client = TumblrClient::new();
    assert_eq!(client.keys, Keys::new());
    assert_eq!(client.proxy, None);
    assert_eq!(client.proxy.as_deref(), None);
}

#[test]
fn credentials_of_the_keys() {
    let client = TumblrClient::new().set_consumer("ck", "cs").set_token("tk", "ts");
    assert_eq!(client.keys.consumer(), Token::new("ck", "cs"));
    assert_eq!(client.keys.token(), Token::new("tk", "ts"));
}

#[test]
fn setting_one_credential_keeps_the_other() {
    let client = TumblrClient::new().set_token("tk", "ts").set_consumer("ck", "cs");
    assert_eq!(
        client.keys,
        Keys {
            consumer_key: "ck".to_string(),
            consumer_secret: "cs".to_string(),
            access_key: "tk".to_string(),
            access_secret: "ts".to_string(),
        }
    );
    let client = client.set_consumer("ck2", "cs2");
    assert_eq!(client.keys.token(), Token::new("tk", "ts"));
    assert_eq!(client.keys.consumer(), Token::new("ck2", "cs2"));
}

#[test]
fn proxy_address_is_kept() {
    let client = TumblrClient::new().set_consumer("ck", "cs").proxy("http://127.0.0.1:8080").unwrap();
    assert_eq!(client.proxy.as_deref(), Some("http://127.0.0.1:8080"));
    assert_eq!(client.keys.consumer(), Token::new("ck", "cs"));
    let client = TumblrClient::new().proxy("https://example.prox:4545").unwrap();
    assert_eq!(client.proxy.as_deref(), Some("https://example.prox:4545"));
}

#[test]
fn proxy_address_without_scheme_is_accepted() {
    // An address without a scheme is read as an HTTP address.
    let client = TumblrClient::new().proxy("proxy.example.com:3128").unwrap();
    assert_eq!(client.proxy.as_deref(), Some("proxy.example.com:3128"));
}

#[test]
fn proxy_address_that_is_no_address_is_rejected() {
    for address in ["", "http://", "://", "http://[::1", "ftp://example.com"] {
        assert_eq!(
            TumblrClient::new().proxy(address),
            Err(TumblrClientError::InvalidProxyAddress { address: address.to_string() }),
            "address {:?}",
            address
        );
    }
}

#[test]
fn errors_in_words() {
    assert_eq!(
        TumblrClientError::InvalidProxyAddress { address: "x y".to_string() }.message(),
        "Invalid proxy address: x y"
    );
    assert_eq!(
        TumblrClientError::InvalidAvatarSize { size: "17".to_string() }.message(),
        "The size of the avatar must be one of 16, 24, 30, 40, 48, 64, 96, 128, 512, not 17"
    );
    assert_eq!(
        TumblrClientError::MissingPhotoSource.message(),
        "one of [source, data, data64] must be specified"
    );
    assert_eq!(
        TumblrClientError::MissingAudioSource.message(),
        "one of [external_url, data] must be specified"
    );
    assert_eq!(
        TumblrClientError::MissingVideoSource.message(),
        "one of [embed, data] must be specified"
    );
    assert_eq!(
        TumblrClientError::MalformedTokenResponse.message(),
        "the response holds no oauth_token with its oauth_token_secret"
    );
    assert_eq!(TumblrClientError::OutOfTurn.message(), "the authorization did not ask for this");
}

#[test]
fn plain_request() {
    let request = TumblrClient::plain_get("https://example.com/x", &[("b", "1"), ("a", "b c")]);
    assert_eq!(request.method, Method::Get);
    assert_eq!(request.url, "https://example.com/x?a=b%20c&b=1");
    let twice = TumblrClient::plain_get("https://example.com/x", &[("a", "1"), ("a", "2")]);
    assert_eq!(twice.url, "https://example.com/x?a=2");
    assert_eq!(request.authorization, None);
    assert_eq!(request.body, Body::Empty);
}

#[test]
fn signed_requests_carry_the_parameters() {
    let client = TumblrClient::new().set_consumer("ck", "cs").set_token("tk", "ts");
    let get = client.signed_get("https://example.com/x", &[("a", "b c"), ("a", "d")]);
    assert_eq!(get.method, Method::Get);
    assert_eq!(get.url, "https://example.com/x?a=d");
    assert_eq!(get.body, Body::Empty);
    let post = client.signed_post("https://example.com/x", &[("a", "b c"), ("z", "1"), ("a", "d")]);
    assert_eq!(post.method, Method::Post);
    assert_eq!(post.url, "https://example.com/x");
    assert_eq!(
        post.body,
        Body::Form(vec![("a".to_string(), "d".to_string()), ("z".to_string(), "1".to_string())])
    );
    let sorted = client.signed_get("https://example.com/x", &[("z", "1"), ("b", "2"), ("a", "3")]);
    assert_eq!(sorted.url, "https://example.com/x?a=3&b=2&z=1");
}

#[test]
fn a_name_given_twice_is_signed_with_its_last_value() {
    let client = TumblrClient::new().set_consumer("ck", "cs").set_token("tk", "ts");
    let header = client.sign("GET", "https://example.com/x", &[("a", "1"), ("a", "2")]);
    let nonce = header_value(&header, "oauth_nonce").to_string();
    let timestamp: u64 = header_value(&header, "oauth_timestamp").parse().unwrap();
    assert_eq!(
        header,
        authorization_header_with(
            "GET",
            "https://example.com/x",
            &Token::new("ck", "cs"),
            Some(&Token::new("tk", "ts")),
            &[("a", "2")],
            &nonce,
            timestamp,
        )
    );
}

#[test]
fn request_token_exchange() {
    let client = TumblrClient::new().set_consumer("ck", "cs");
    let request = client.request_token();
    assert_eq!(request.method, Method::Get);
    assert_eq!(request.url, "https://www.tumblr.com/oauth/request_token");
    assert_eq!(request.body, Body::Empty);
    let header = request.authorization.unwrap();
    let nonce = header_value(&header, "oauth_nonce").to_string();
    let timestamp: u64 = header_value(&header, "oauth_timestamp").parse().unwrap();
    assert!(!header.contains("oauth_token="));
    assert_eq!(
        header,
        authorization_header_with(
            "GET",
            "https://www.tumblr.com/oauth/request_token",
            &Token::new("ck", "cs"),
            None,
            &[],
            &nonce,
            timestamp,
        )
    );
}

#[test]
fn authorization_page() {
    assert_eq!(
        TumblrClient::authorize("tmp token"),
        "https://www.tumblr.com/oauth/authorize?oauth_token=tmp%20token"
    );
}

#[test]
fn access_token_exchange() {
    let client = TumblrClient::new().set_consumer("ck", "cs");
    let temporary = Token::new("tmp", "tmpsecret");
    let request = client
        .access_token(&temporary, "https://example.com/cb?oauth_token=tmp&oauth_verifier=v3r1f13r");
    assert_eq!(request.method, Method::Get);
    assert_eq!(request.url, "https://www.tumblr.com/oauth/access_token");
    assert_eq!(request.body, Body::Empty);
    let header = request.authorization.unwrap();
    assert_eq!(header_value(&header, "oauth_verifier"), "v3r1f13r");
    assert_eq!(header_value(&header, "oauth_token"), "tmp");
    let nonce = header_value(&header, "oauth_nonce").to_string();
    let timestamp: u64 = header_value(&header, "oauth_timestamp").parse().unwrap();
    assert_eq!(
        header,
        authorization_header_with(
            "GET",
            "https://www.tumblr.com/oauth/access_token",
            &Token::new("ck", "cs"),
            Some(&temporary),
            &[("oauth_verifier", "v3r1f13r")],
            &nonce,
            timestamp,
        )
    );
}

#[test]
fn verifier_follows_the_last_mark() {
    assert_eq!(verifier_of("https://example.com/cb?oauth_token=t&oauth_verifier=abc"), "abc");
    assert_eq!(verifier_of("oauth_verifier=abc"), "abc");
    assert_eq!(verifier_of("oauth_verifier=a&oauth_verifier=b"), "b");
    assert_eq!(verifier_of("oauth_verifier="), "");
    assert_eq!(verifier_of("xoauth_verifier=oauth_verifier"), "oauth_verifier");
}

#[test]
fn a_line_without_mark_is_the_verifier() {
    assert_eq!(verifier_of("abc"), "abc");
    assert_eq!(verifier_of(""), "");
    assert_eq!(verifier_of("oauth_verifier"), "oauth_verifier");
    assert_eq!(verifier_of("a much longer line that holds no mark at all"), "a much longer line that holds no mark at all");
}

#[test]
fn token_of_a_response() {
    assert_eq!(
        TumblrClient::token_from_response(
            "oauth_token=abc&oauth_token_secret=def&oauth_callback_confirmed=true"
        ),
        Ok(Token::new("abc", "def"))
    );
    assert_eq!(
        TumblrClient::token_from_response("oauth_token_secret=def&oauth_token=abc"),
        Ok(Token::new("abc", "def"))
    );
    assert_eq!(
        TumblrClient::token_from_response("oauth_token=&oauth_token_secret="),
        Ok(Token::new("", ""))
    );
}

#[test]
fn a_response_without_token_is_rejected() {
    for response in [
        "",
        "Missing or invalid request token.",
        "oauth_token=abc",
        "oauth_token_secret=def",
        "oauth_token=abc&oauth_token_secret",
        "oauth_token=abc&&oauth_token_secret=def",
    ] {
        assert_eq!(
            TumblrClient::token_from_response(response),
            Err(TumblrClientError::MalformedTokenResponse),
            "response {:?}",
            response
        );
    }
}

#[test]
fn decimal_numerals() {
    let text = |n: u64| -> String { decimal_of(n).into_iter().collect() };
    assert_eq!(text(0), "0");
    assert_eq!(text(7), "7");
    assert_eq!(text(10), "10");
    assert_eq!(text(1700000000), "1700000000");
    assert_eq!(text(u64::MAX), "18446744073709551615");
    for n in [1u64, 9, 11, 99, 100, 101, 12345, 1 << 40] {
        assert_eq!(text(n), n.to_string());
    }
}

#[test]
fn upper_case_of_ascii_letters_only() {
    let upper = |s: &str| -> String { to_ascii_upper(s).into_iter().collect() };
    assert_eq!(upper("get"), "GET");
    assert_eq!(upper("Post"), "POST");
    assert_eq!(upper("a-z_0é"), "A-Z_0é");
    assert_eq!(upper(""), "");
}

#[test]
fn characters_and_strings() {
    assert_eq!(chars_of("aé𝄞"), vec!['a', 'é', '𝄞']);
    assert_eq!(string_of(&vec!['a', 'é', '𝄞']), "aé𝄞");
    assert!(same_chars(&chars_of("ab"), &chars_of("ab")));
    assert!(!same_chars(&chars_of("ab"), &chars_of("abc")));
    assert!(!same_chars(&chars_of("ab"), &chars_of("ac")));
    assert!(same_text("", ""));
    assert!(!same_text("a", "b"));
    assert!(starts_with(&chars_of("oauth_token"), &chars_of("oauth_")));
    assert!(starts_with(&chars_of("oauth_"), &chars_of("oauth_")));
    assert!(!starts_with(&chars_of("oauth"), &chars_of("oauth_")));
    assert!(!starts_with(&chars_of("xoauth_"), &chars_of("oauth_")));
    assert!(starts_with(&chars_of("abc"), &chars_of("")));
    assert_eq!(concat3("a", "", "bc"), "abc");
    assert_eq!(to_owned_pairs(&[("a", "b")]), vec![("a".to_string(), "b".to_string())]);
}

#[test]
fn authorization_step_by_step() {
    let client = TumblrClient::new().set_consumer("ck", "cs");
    let (state, todo) = client.oauth(Authorization::NotStarted, Report::Begin);
    assert_eq!(state, Authorization::TokenRequested);
    match todo {
        Todo::Send(request) => {
            assert_eq!(request.url, "https://www.tumblr.com/oauth/request_token");
            assert_eq!(request.method, Method::Get);
        }
        other => panic!("{:?}", other),
    }
    let (state, todo) =
        client.oauth(state, Report::Answer("oauth_token=tmp&oauth_token_secret=tmpsecret"));
    assert_eq!(state, Authorization::UserAsked { temporary: Token::new("tmp", "tmpsecret") });
    assert_eq!(
        todo,
        Todo::Ask { page: "https://www.tumblr.com/oauth/authorize?oauth_token=tmp".to_string() }
    );
    let (state, todo) =
        client.oauth(state, Report::Line("https://example.com/?oauth_verifier=v3r1f13r"));
    assert_eq!(state, Authorization::AccessRequested);
    match todo {
        Todo::Send(request) => {
            assert_eq!(request.url, "https://www.tumblr.com/oauth/access_token");
            let header = request.authorization.unwrap();
            assert_eq!(header_value(&header, "oauth_token"), "tmp");
            assert_eq!(header_value(&header, "oauth_verifier"), "v3r1f13r");
            let nonce = header_value(&header, "oauth_nonce").to_string();
            let timestamp: u64 = header_value(&header, "oauth_timestamp").parse().unwrap();
            assert_eq!(
                header,
                authorization_header_with(
                    "GET",
                    "https://www.tumblr.com/oauth/access_token",
                    &Token::new("ck", "cs"),
                    Some(&Token::new("tmp", "tmpsecret")),
                    &[("oauth_verifier", "v3r1f13r")],
                    &nonce,
                    timestamp,
                )
            );
        }
        other => panic!("{:?}", other),
    }
    let (state, todo) = client.oauth(state, Report::Answer("oauth_token_secret=s&oauth_token=k"));
    assert_eq!(state, Authorization::Ended);
    assert_eq!(todo, Todo::Grant(Token::new("k", "s")));
}

#[test]
fn authorization_fails_on_an_answer_without_token() {
    let client = TumblrClient::new().set_consumer("ck", "cs");
    assert_eq!(
        client.oauth(Authorization::TokenRequested, Report::Answer("oauth_token=only")),
        (Authorization::Ended, Todo::Fail(TumblrClientError::MalformedTokenResponse))
    );
    assert_eq!(
        client.oauth(Authorization::AccessRequested, Report::Answer("")),
        (Authorization::Ended, Todo::Fail(TumblrClientError::MalformedTokenResponse))
    );
}

#[test]
fn authorization_fails_on_a_report_out_of_turn() {
    let client = TumblrClient::new().set_consumer("ck", "cs");
    let out_of_turn = (Authorization::Ended, Todo::Fail(TumblrClientError::OutOfTurn));
    assert_eq!(client.oauth(Authorization::NotStarted, Report::Answer("x=y")), out_of_turn);
    assert_eq!(client.oauth(Authorization::NotStarted, Report::Line("x")), out_of_turn);
    assert_eq!(client.oauth(Authorization::TokenRequested, Report::Begin), out_of_turn);
    assert_eq!(client.oauth(Authorization::TokenRequested, Report::Line("x")), out_of_turn);
    assert_eq!(
        client.oauth(
            Authorization::UserAsked { temporary: Token::new("a", "b") },
            Report::Answer("oauth_token=a&oauth_token_secret=b")
        ),
        out_of_turn
    );
    assert_eq!(client.oauth(Authorization::AccessRequested, Report::Line("x")), out_of_turn);
    assert_eq!(client.oauth(Authorization::Ended, Report::Begin), out_of_turn);
    assert_eq!(
        client.oauth(Authorization::Ended, Report::Answer("oauth_token=a&oauth_token_secret=b")),
        out_of_turn
    );
}

#[test]
fn white_space_is_that_of_the_standard_library() {
    for code in 0u32..=0x10ffff {
        if let Some(c) = char::from_u32(code) {
            assert_eq!(white_space(c), c.is_whitespace(), "U+{:04X}", code);
        }
    }
}

#[test]
fn trimming_cuts_white_space_at_both_ends_only() {
    let cut = |s: &str| -> String { trim(s).into_iter().collect() };
    assert_eq!(cut(""), "");
    assert_eq!(cut("   "), "");
    assert_eq!(cut("\n"), "");
    assert_eq!(cut("x "), "x");
    assert_eq!(cut(" x"), "x");
    assert_eq!(cut("\t a b \r\n"), "a b");
    assert_eq!(cut("a  b"), "a  b");
    assert_eq!(cut("\u{a0}\u{3000}é\u{2003}z\u{2028}"), "é\u{2003}z");
    for s in ["", " ", "a", " a", "a ", "\n\ta b\u{85}", "\u{200b}x\u{200b}", "x\u{0}"] {
        assert_eq!(cut(s), s.trim());
    }
}

#[test]
fn verifier_of_a_line_as_it_was_read() {
    assert_eq!(verifier_of("x "), "x");
    assert_eq!(verifier_of("x\n"), "x");
    assert_eq!(verifier_of("  abc\r\n"), "abc");
    assert_eq!(verifier_of("https://example.com/cb?oauth_token=t&oauth_verifier=abc\n"), "abc");
    assert_eq!(verifier_of(" \toauth_verifier=a b \n"), "a b");
    assert_eq!(verifier_of("oauth_verifier= abc"), " abc");
    assert_eq!(verifier_of("oauth_verifier=\n"), "");
    assert_eq!(verifier_of(" \n"), "");
}

#[test]
fn access_token_exchange_signs_the_verifier_without_the_line_end() {
    let client = TumblrClient::new().set_consumer("ck", "cs");
    let temporary = Token::new("tmp", "tmpsecret");
    let request =
        client.access_token(&temporary, "  https://example.com/cb?oauth_verifier=v3r1f13r\n");
    let header = request.authorization.unwrap();
    assert_eq!(header_value(&header, "oauth_verifier"), "v3r1f13r");
    let nonce = header_value(&header, "oauth_nonce").to_string();
    let timestamp: u64 = header_value(&header, "oauth_timestamp").parse().unwrap();
    assert_eq!(
        header,
        authorization_header_with(
            "GET",
            "https://www.tumblr.com/oauth/access_token",
            &Token::new("ck", "cs"),
            Some(&temporary),
            &[("oauth_verifier", "v3r1f13r")],
            &nonce,
            timestamp,
        )
    );
    let (_, todo) = client.oauth(
        Authorization::UserAsked { temporary: Token::new("tmp", "tmpsecret") },
        Report::Line("oauth_verifier=v3r1f13r \r\n"),
    );
    match todo {
        Todo::Send(request) => {
            assert_eq!(header_value(&request.authorization.unwrap(), "oauth_verifier"), "v3r1f13r");
        }
        other => panic!("{:?}", other),
    }
}
