use tumblr_api::encoding::{hex_digit_value, unreserved};
use tumblr_api::{percent_decode, percent_encode};

#[test]
fn unreserved_characters_stay() {
    let all = "ABCDEFGHIJKLMNOPQRSTUVWXYZabcdefghijklmnopqrstuvwxyz0123456789-._~";
    assert_eq!(percent_encode(all), all);
}

#[test]
fn empty_text_encodes_to_empty_text() {
    assert_eq!(percent_encode(""), "");
    assert_eq!(percent_decode(""), Some(String::new()));
}

#[test]
fn whitespace_is_encoded() {
    assert_eq!(percent_encode("a b"), "a%20b");
    assert_eq!(percent_encode("a\tb\nc"), "a%09b%0Ac");
    assert_eq!(percent_encode(" "), "%20");
}

#[test]
fn reserved_characters_are_encoded() {
    assert_eq!(percent_encode("="), "%3D");
    assert_eq!(percent_encode("&"), "%26");
    assert_eq!(percent_encode("+"), "%2B");
    assert_eq!(percent_encode("%"), "%25");
    assert_eq!(percent_encode("/"), "%2F");
    assert_eq!(percent_encode(":"), "%3A");
    assert_eq!(percent_encode("?"), "%3F");
    assert_eq!(percent_encode("\""), "%22");
    assert_eq!(percent_encode(","), "%2C");
    assert_eq!(percent_encode("!*'()"), "%21%2A%27%28%29");
    assert_eq!(percent_encode("a=1&b=2"), "a%3D1%26b%3D2");
}

#[test]
fn hexadecimal_digits_are_upper_case() {
    assert_eq!(percent_encode("\u{7f}"), "%7F");
    assert_eq!(percent_encode("<>"), "%3C%3E");
    assert_eq!(percent_encode("\u{0}"), "%00");
}

#[test]
fn text_outside_ascii_is_encoded_byte_by_byte() {
    assert_eq!(percent_encode("é"), "%C3%A9");
    assert_eq!(percent_encode("日本"), "%E6%97%A5%E6%9C%AC");
    assert_eq!(percent_encode("𝄞"), "%F0%9D%84%9E");
}

#[test]
fn address_is_encoded() {
    assert_eq!(
        percent_encode("https://api.example.com/v2/user/info"),
        "https%3A%2F%2Fapi.example.com%2Fv2%2Fuser%2Finfo"
    );
}

#[test]
fn encoding_agrees_with_the_signing_crate() {
    let samples = [
        "",
        "plain",
        "a b&c=d",
        "Hello Ladies + Gentlemen, a signed OAuth request!",
        "é日本𝄞",
        "-._~",
        "100%",
        "\u{0}\u{1f}\u{7f}",
    ];
    for s in samples {
        assert_eq!(percent_encode(s), oauth_client::percent_encode_string(s).into_owned());
    }
}

#[test]
fn decoding_inverts_encoding() {
    let samples = ["", "plain", "a b&c=d", "é日本𝄞", "100% sure?", "-._~", "x=y&z", "\u{0}\u{7f}"];
    for s in samples {
        assert_eq!(percent_decode(&percent_encode(s)), Some(s.to_string()));
    }
}

#[test]
fn decoding_accepts_lower_case_digits() {
    assert_eq!(percent_decode("%c3%a9"), Some("é".to_string()));
    assert_eq!(percent_decode("a%2fb"), Some("a/b".to_string()));
}

#[test]
fn decoding_leaves_plain_ascii() {
    assert_eq!(percent_decode("a+b"), Some("a+b".to_string()));
    assert_eq!(percent_decode("a=b&c"), Some("a=b&c".to_string()));
}

#[test]
fn decoding_rejects_a_truncated_escape() {
    assert_eq!(percent_decode("%"), None);
    assert_eq!(percent_decode("%4"), None);
    assert_eq!(percent_decode("abc%"), None);
    assert_eq!(percent_decode("abc%2"), None);
}

#[test]
fn decoding_rejects_digits_that_are_not_hexadecimal() {
    assert_eq!(percent_decode("%G0"), None);
    assert_eq!(percent_decode("%0g"), None);
    assert_eq!(percent_decode("%%%"), None);
    assert_eq!(percent_decode("% 1"), None);
}

#[test]
fn decoding_rejects_characters_outside_ascii() {
    assert_eq!(percent_decode("é"), None);
    assert_eq!(percent_decode("a%20é"), None);
}

#[test]
fn decoding_rejects_bytes_that_are_not_utf8() {
    assert_eq!(percent_decode("%FF"), None);
    assert_eq!(percent_decode("%C3"), None);
    assert_eq!(percent_decode("%C3%28"), None);
    assert_eq!(percent_decode("%ED%A0%80"), None);
}

#[test]
fn unreserved_bytes() {
    for b in 0u8..=255 {
        let c = b as char;
        let expected = c.is_ascii_alphanumeric() || c == '-' || c == '.' || c == '_' || c == '~';
        assert_eq!(unreserved(b), expected, "byte {}", b);
    }
}

#[test]
fn hexadecimal_digits() {
    let digits = "0123456789ABCDEF";
    for (n, c) in digits.chars().enumerate() {
        assert_eq!(hex_digit_value(c), Some(n as u8));
        assert_eq!(hex_digit_value(c.to_ascii_lowercase()), Some(n as u8));
    }
    assert_eq!(hex_digit_value('g'), None);
    assert_eq!(hex_digit_value('G'), None);
    assert_eq!(hex_digit_value('/'), None);
    assert_eq!(hex_digit_value(':'), None);
    assert_eq!(hex_digit_value('@'), None);
    assert_eq!(hex_digit_value('`'), None);
}
