//! OAuth 1.0a request signing with HMAC-SHA1: from the method, the address,
//! the two credentials, the request's parameters, a nonce and a timestamp to
//! the value of the `Authorization` header.
//!
//! Given the nonce and the timestamp the header is a function of the inputs;
//! `build_oauth_headers` draws a fresh nonce and reads the clock for each
//! call.

use vstd::prelude::*;
use rand::distributions::{Alphanumeric, DistString};
use crate::canonical::{
    canonical_order, canonical_parameter_string, canonical_query, sort_for_signing,
};
use crate::encoding::{
    lemma_encoded_char, lemma_encoded_text, percent_encode_into, percent_encoded,
};
use crate::order::Pair;
use crate::params::{with_param, with_params, ParamList};
use crate::query::{item_text, item_texts, joined, pairs_of, write_items};
use crate::text::{
    ascii_upper, chars_of, decimal, decimal_of, has_prefix, starts_with, string_of,
    to_ascii_upper,
};

verus! {

/// A credential: a public key that names its holder and the secret shared
/// with the server. A client holds one for the application (the consumer)
/// and one for the user (the token).
#[derive(Debug, PartialEq, Eq)]
pub struct Token {
    pub key: String,
    pub secret: String,
}

impl Token {
    /// The credential made of `key` and `secret`.
    pub fn new(key: &str, secret: &str) -> (r: Token)
        ensures
            r.key@ == key@,
            r.secret@ == secret@,
    {
        Token { key: key.to_owned(), secret: secret.to_owned() }
    }
}

/// The signature that `oauth_client::signature` computes: the Base64 form of
/// the HMAC-SHA1 digest of the signature base string made of `method`, `uri`
/// and `query`, under the key made of the two secrets.
pub uninterp spec fn hmac_sha1_signature(
    method: Seq<char>,
    uri: Seq<char>,
    query: Seq<char>,
    consumer_secret: Seq<char>,
    token_secret: Option<Seq<char>>,
) -> Seq<char>;

/// The secret of the token, where there is a token.
pub open spec fn secret_of(token: Option<Token>) -> Option<Seq<char>> {
    match token {
        Some(t) => Some(t.secret@),
        None => None,
    }
}

/// The key of the token, where there is a token.
pub open spec fn key_of(token: Option<Token>) -> Option<Seq<char>> {
    match token {
        Some(t) => Some(t.key@),
        None => None,
    }
}

/// The token behind the reference, where there is one.
pub open spec fn token_of(token: Option<&Token>) -> Option<Token> {
    match token {
        Some(t) => Some(*t),
        None => None,
    }
}

/// `oauth_client::signature` signs a request: it percent-encodes `method`,
/// `uri` and `query` into the signature base string, the two secrets into the
/// key (an absent token secret counts as empty), and returns the Base64 form
/// of the HMAC-SHA1 digest. The result depends on these five values alone.
#[verifier::external_body]
fn oauth_signature(
    method: &str,
    uri: &str,
    query: &str,
    consumer_secret: &str,
    token_secret: Option<&str>,
) -> (r: String)
    ensures
        r@ == hmac_sha1_signature(
            method@,
            uri@,
            query@,
            consumer_secret@,
            match token_secret {
                Some(s) => Some(s@),
                None => None,
            },
        ),
{
    oauth_client::signature(method, uri, query, consumer_secret, token_secret)
}

/// An ASCII letter or digit.
pub open spec fn is_alphanumeric(c: char) -> bool {
    ('0' <= c && c <= '9') || ('A' <= c && c <= 'Z') || ('a' <= c && c <= 'z')
}

/// What every nonce drawn by this library is: 32 ASCII letters and digits.
pub open spec fn is_nonce(s: Seq<char>) -> bool {
    s.len() == 32 && forall|i: int| 0 <= i < s.len() ==> is_alphanumeric(#[trigger] s[i])
}

/// `Alphanumeric.sample_string` of the crate `rand` draws a string of `len`
/// characters, each an ASCII letter or digit, from the thread's generator.
#[verifier::external_body]
fn random_alphanumeric(len: usize) -> (r: String)
    ensures
        r@.len() == len,
        forall|i: int| 0 <= i < r@.len() ==> is_alphanumeric(#[trigger] r@[i]),
{
    Alphanumeric.sample_string(&mut rand::thread_rng(), len)
}

/// `OffsetDateTime::now_utc().unix_timestamp()` of the crate `time`: the
/// clock's seconds since the Unix epoch. Nothing is known of the value.
#[verifier::external_body]
fn unix_time() -> i64 {
    time::OffsetDateTime::now_utc().unix_timestamp()
}

/// The protocol's own parameters of a request.
pub open spec fn protocol_params(
    consumer_key: Seq<char>,
    token_key: Option<Seq<char>>,
    nonce: Seq<char>,
    timestamp: nat,
) -> Seq<Pair> {
    let base = seq![
        ("oauth_consumer_key"@, consumer_key),
        ("oauth_nonce"@, nonce),
        ("oauth_signature_method"@, "HMAC-SHA1"@),
        ("oauth_timestamp"@, decimal(timestamp)),
        ("oauth_version"@, "1.0"@),
    ];
    match token_key {
        Some(key) => base.push(("oauth_token"@, key)),
        None => base,
    }
}

/// The full parameter set that is signed: the protocol's parameters, then
/// the request's own written over them, a later value replacing an earlier
/// one of the same name.
pub open spec fn signing_params(
    consumer_key: Seq<char>,
    token_key: Option<Seq<char>>,
    other: Seq<Pair>,
    nonce: Seq<char>,
    timestamp: nat,
) -> Seq<Pair> {
    with_params(protocol_params(consumer_key, token_key, nonce, timestamp), other)
}

/// The signature base string: the upper-case method, the address and the
/// canonical parameter string, each percent-encoded, joined by `&`.
pub open spec fn base_string(method: Seq<char>, uri: Seq<char>, query: Seq<char>) -> Seq<char> {
    percent_encoded(ascii_upper(method)).push('&') + percent_encoded(uri).push('&')
        + percent_encoded(query)
}

/// The signature of a request: computed over the upper-case method, the
/// address and the canonical string of the full parameter set, under the two
/// secrets.
pub open spec fn request_signature(
    method: Seq<char>,
    uri: Seq<char>,
    consumer: Token,
    token: Option<Token>,
    other: Seq<Pair>,
    nonce: Seq<char>,
    timestamp: nat,
) -> Seq<char> {
    hmac_sha1_signature(
        ascii_upper(method),
        uri,
        canonical_query(signing_params(consumer.key@, key_of(token), other, nonce, timestamp)),
        consumer.secret@,
        secret_of(token),
    )
}

/// The parameters that belong in the header: those whose name begins with
/// `oauth_`.
pub open spec fn in_header() -> spec_fn(Pair) -> bool {
    |p: Pair| has_prefix(p.0, "oauth_"@)
}

/// The header value that lists the parameters of `params` whose names begin
/// with `oauth_`: the word `OAuth`, then each as encoded name, `="`, encoded
/// value, `"`, in the order of signing, separated by a comma and a blank.
pub open spec fn header_listing(params: Seq<Pair>) -> Seq<char> {
    "OAuth "@ + joined(
        item_texts(canonical_order(params.filter(in_header())), "=\""@, "\""@),
        ", "@,
    )
}

/// The `Authorization` header of a request, given the nonce and the
/// timestamp: it lists the full parameter set with the signature written to
/// it as `oauth_signature`.
pub open spec fn authorization_header(
    method: Seq<char>,
    uri: Seq<char>,
    consumer: Token,
    token: Option<Token>,
    other: Seq<Pair>,
    nonce: Seq<char>,
    timestamp: nat,
) -> Seq<char> {
    header_listing(
        with_param(
            signing_params(consumer.key@, key_of(token), other, nonce, timestamp),
            "oauth_signature"@,
            request_signature(method, uri, consumer, token, other, nonce, timestamp),
        ),
    )
}

/// `header` is the `Authorization` header of the request for some nonce that
/// this library may draw and some reading of the clock, in seconds that fit
/// 64 bits.
pub open spec fn authorizes(
    header: Seq<char>,
    method: Seq<char>,
    uri: Seq<char>,
    consumer: Token,
    token: Option<Token>,
    other: Seq<Pair>,
) -> bool {
    exists|nonce: Seq<char>, timestamp: nat|
        is_nonce(nonce) && timestamp <= u64::MAX && header == #[trigger] authorization_header(
            method,
            uri,
            consumer,
            token,
            other,
            nonce,
            timestamp,
        )
}

/// What the value of an HTTP header may hold: blanks and visible ASCII
/// characters.
pub open spec fn is_header_text(s: Seq<char>) -> bool {
    forall|i: int| 0 <= i < s.len() ==> ' ' <= #[trigger] s[i] && s[i] <= '~'
}

/// Parts that may stand in a header, joined by such a separator, may stand
/// in a header.
proof fn lemma_joined_is_header_text(parts: Seq<Seq<char>>, sep: Seq<char>)
    requires
        forall|i: int| 0 <= i < parts.len() ==> is_header_text(#[trigger] parts[i]),
        is_header_text(sep),
    ensures
        is_header_text(joined(parts, sep)),
    decreases parts.len(),
{
    if parts.len() == 1 {
        assert(is_header_text(parts[0]));
    } else if parts.len() > 1 {
        let front = parts.drop_last();
        assert forall|i: int| 0 <= i < front.len() implies is_header_text(#[trigger] front[i]) by {
            assert(front[i] == parts[i]);
        }
        lemma_joined_is_header_text(front, sep);
        assert(is_header_text(parts.last()));
    }
}

/// Every `Authorization` header made here may stand as the value of an
/// HTTP header: it holds blanks and visible ASCII characters only.
pub proof fn lemma_header_listing_is_header_text(params: Seq<Pair>)
    ensures
        is_header_text(header_listing(params)),
{
    reveal_strlit("OAuth ");
    reveal_strlit("=\"");
    reveal_strlit("\"");
    reveal_strlit(", ");
    let listed = canonical_order(params.filter(in_header()));
    let parts = item_texts(listed, "=\""@, "\""@);
    assert forall|i: int| 0 <= i < parts.len() implies is_header_text(#[trigger] parts[i]) by {
        let p = listed[i];
        let name = percent_encoded(p.0);
        let value = percent_encoded(p.1);
        lemma_encoded_text(vstd::utf8::encode_utf8(p.0));
        lemma_encoded_text(vstd::utf8::encode_utf8(p.1));
        let text = item_text(p, "=\""@, "\""@);
        assert forall|j: int| 0 <= j < text.len() implies ' ' <= #[trigger] text[j] && text[j]
            <= '~' by {
            let mid = "=\""@;
            let end = "\""@;
            assert(text == name + mid + value + end);
            assert(mid.len() == 2 && end.len() == 1);
            if j < name.len() {
                assert(text[j] == name[j]);
                lemma_encoded_char(name[j]);
            } else if j < name.len() + 2 {
                assert(text[j] == mid[j - name.len()]);
            } else if j < name.len() + 2 + value.len() {
                assert(text[j] == value[j - name.len() - 2]);
                lemma_encoded_char(value[j - name.len() - 2]);
            } else {
                assert(text[j] == end[j - name.len() - 2 - value.len()]);
            }
        }
    }
    lemma_joined_is_header_text(parts, ", "@);
}

/// Signing is a function of its inputs: the same method, address,
/// credentials, parameters, nonce and timestamp give the same header,
/// character for character. Only the texts count, not the values that carry
/// them.
pub proof fn lemma_signing_is_reproducible(
    method: Seq<char>,
    uri: Seq<char>,
    consumer_a: Token,
    token_a: Option<Token>,
    consumer_b: Token,
    token_b: Option<Token>,
    other: Seq<Pair>,
    nonce: Seq<char>,
    timestamp: nat,
)
    requires
        consumer_a.key@ == consumer_b.key@,
        consumer_a.secret@ == consumer_b.secret@,
        key_of(token_a) == key_of(token_b),
        secret_of(token_a) == secret_of(token_b),
    ensures
        authorization_header(method, uri, consumer_a, token_a, other, nonce, timestamp)
            == authorization_header(method, uri, consumer_b, token_b, other, nonce, timestamp),
{
}

/// The signature base string of a request.
pub fn signature_base_string(method: &str, uri: &str, query: &str) -> (r: String)
    ensures
        r@ == base_string(method@, uri@, query@),
{
    let upper = string_of(&to_ascii_upper(method));
    let mut out: Vec<char> = Vec::new();
    percent_encode_into(&mut out, upper.as_str());
    out.push('&');
    percent_encode_into(&mut out, uri);
    out.push('&');
    percent_encode_into(&mut out, query);
    string_of(&out)
}

/// Writing a name that the set does not hold adds the pair at the end.
proof fn lemma_with_param_fresh(params: Seq<Pair>, name: Seq<char>, value: Seq<char>)
    requires
        forall|i: int| 0 <= i < params.len() ==> (#[trigger] params[i]).0 != name,
    ensures
        with_param(params, name, value) == params.push((name, value)),
{
    crate::params::lemma_index_of_name(params, name);
}

/// The names of the protocol's parameters differ from each other.
proof fn lemma_protocol_names()
    ensures
        "oauth_consumer_key"@ != "oauth_nonce"@,
        "oauth_consumer_key"@ != "oauth_signature_method"@,
        "oauth_consumer_key"@ != "oauth_timestamp"@,
        "oauth_consumer_key"@ != "oauth_version"@,
        "oauth_consumer_key"@ != "oauth_token"@,
        "oauth_nonce"@ != "oauth_signature_method"@,
        "oauth_nonce"@ != "oauth_timestamp"@,
        "oauth_nonce"@ != "oauth_version"@,
        "oauth_nonce"@ != "oauth_token"@,
        "oauth_signature_method"@ != "oauth_timestamp"@,
        "oauth_signature_method"@ != "oauth_version"@,
        "oauth_signature_method"@ != "oauth_token"@,
        "oauth_timestamp"@ != "oauth_version"@,
        "oauth_timestamp"@ != "oauth_token"@,
        "oauth_version"@ != "oauth_token"@,
{
    reveal_strlit("oauth_consumer_key");
    reveal_strlit("oauth_nonce");
    reveal_strlit("oauth_signature_method");
    reveal_strlit("oauth_timestamp");
    reveal_strlit("oauth_version");
    reveal_strlit("oauth_token");
    assert("oauth_consumer_key"@.len() == 18);
    assert("oauth_nonce"@.len() == 11);
    assert("oauth_signature_method"@.len() == 22);
    assert("oauth_timestamp"@.len() == 15);
    assert("oauth_version"@.len() == 13);
    assert("oauth_token"@.len() == 11);
    assert("oauth_nonce"@[6] != "oauth_token"@[6]);
}

/// The protocol's parameters of a request, as a parameter set.
fn protocol_param_list(consumer: &Token, token: Option<&Token>, nonce: &str, timestamp: u64) -> (r:
    ParamList)
    ensures
        r@ == protocol_params(consumer.key@, key_of(token_of(token)), nonce@, timestamp as nat),
{
    let stamp = string_of(&decimal_of(timestamp));
    let mut all = ParamList::new();
    proof {
        lemma_protocol_names();
    }
    let ghost first: Pair = ("oauth_consumer_key"@, consumer.key@);
    let ghost second: Pair = ("oauth_nonce"@, nonce@);
    let ghost third: Pair = ("oauth_signature_method"@, "HMAC-SHA1"@);
    let ghost fourth: Pair = ("oauth_timestamp"@, decimal(timestamp as nat));
    let ghost fifth: Pair = ("oauth_version"@, "1.0"@);
    proof {
        lemma_with_param_fresh(Seq::empty(), first.0, first.1);
        lemma_with_param_fresh(seq![first], second.0, second.1);
        lemma_with_param_fresh(seq![first, second], third.0, third.1);
        lemma_with_param_fresh(seq![first, second, third], fourth.0, fourth.1);
        lemma_with_param_fresh(seq![first, second, third, fourth], fifth.0, fifth.1);
        assert(Seq::<Pair>::empty().push(first) == seq![first]);
        assert(seq![first].push(second) == seq![first, second]);
        assert(seq![first, second].push(third) == seq![first, second, third]);
        assert(seq![first, second, third].push(fourth) == seq![first, second, third, fourth]);
        assert(seq![first, second, third, fourth].push(fifth) == seq![
            first,
            second,
            third,
            fourth,
            fifth,
        ]);
    }
    all.insert("oauth_consumer_key", consumer.key.as_str());
    all.insert("oauth_nonce", nonce);
    all.insert("oauth_signature_method", "HMAC-SHA1");
    all.insert("oauth_timestamp", stamp.as_str());
    all.insert("oauth_version", "1.0");
    assert(all@ == seq![first, second, third, fourth, fifth]);
    match token {
        Some(t) => {
            proof {
                lemma_with_param_fresh(all@, "oauth_token"@, t.key@);
            }
            all.insert("oauth_token", t.key.as_str());
        },
        None => {},
    }
    all
}

/// Writes every pair of `more` to `all`, first to last.
fn insert_all(all: &mut ParamList, more: &[(&str, &str)])
    ensures
        final(all)@ == with_params(old(all)@, pairs_of(more@)),
{
    let ghost given = pairs_of(more@);
    let mut i: usize = 0;
    while i < more.len()
        invariant
            i <= more.len(),
            given == pairs_of(more@),
            all@ == with_params(old(all)@, given.take(i as int)),
        decreases more.len() - i,
    {
        let (name, value) = more[i];
        proof {
            assert(given.take(i + 1).drop_last() == given.take(i as int));
            assert(given.take(i + 1).last() == (name@, value@));
        }
        all.insert(name, value);
        i += 1;
    }
    assert(given.take(more.len() as int) == given);
}

/// The header value that lists those of `params` whose names begin with
/// `oauth_`.
fn header_of(params: &[(&str, &str)]) -> (r: String)
    ensures
        r@ == header_listing(pairs_of(params@)),
{
    let ghost given = pairs_of(params@);
    let prefix = chars_of("oauth_");
    let mut kept: Vec<(&str, &str)> = Vec::new();
    let mut i: usize = 0;
    proof {
        reveal(Seq::filter);
        assert(pairs_of(kept@) == given.take(0).filter(in_header()));
    }
    while i < params.len()
        invariant
            i <= params.len(),
            given == pairs_of(params@),
            prefix@ == "oauth_"@,
            pairs_of(kept@) == given.take(i as int).filter(in_header()),
        decreases params.len() - i,
    {
        let (name, value) = params[i];
        let ghost before = pairs_of(kept@);
        proof {
            given.take(i as int).lemma_filter_push((name@, value@), in_header());
            assert(given.take(i + 1) == given.take(i as int).push((name@, value@)));
        }
        if starts_with(&chars_of(name), &prefix) {
            kept.push((name, value));
            assert(pairs_of(kept@) == before.push((name@, value@)));
        }
        i += 1;
    }
    assert(given.take(params.len() as int) == given);
    let sorted = sort_for_signing(kept.as_slice());
    let mut out: Vec<char> = chars_of("OAuth ");
    write_items(&mut out, sorted.as_slice(), "=\"", "\"", ", ");
    string_of(&out)
}

/// The value of the `Authorization` header for a request, given the nonce
/// and the timestamp to sign with.
///
/// The full parameter set is made of the protocol's parameters
/// (`oauth_consumer_key`, `oauth_nonce`, `oauth_signature_method`,
/// `oauth_timestamp`, `oauth_version` and, with a token, `oauth_token`) and
/// of `other_param` written over them. The signature is computed over the
/// upper-case method, `uri` and the canonical string of that set, under the
/// secrets of `consumer` and `token`. The header lists every parameter of the
/// set whose name begins with `oauth_`, and the signature.
pub fn authorization_header_with(
    method: &str,
    uri: &str,
    consumer: &Token,
    token: Option<&Token>,
    other_param: &[(&str, &str)],
    nonce: &str,
    timestamp: u64,
) -> (r: String)
    ensures
        r@ == authorization_header(
            method@,
            uri@,
            *consumer,
            token_of(token),
            pairs_of(other_param@),
            nonce@,
            timestamp as nat,
        ),
        is_header_text(r@),
{
    let mut all = protocol_param_list(consumer, token, nonce, timestamp);
    insert_all(&mut all, other_param);
    let upper = string_of(&to_ascii_upper(method));
    let query = canonical_parameter_string(all.pairs().as_slice());
    let token_secret: Option<&str> = match token {
        Some(t) => Some(t.secret.as_str()),
        None => None,
    };
    let signature = oauth_signature(
        upper.as_str(),
        uri,
        query.as_str(),
        consumer.secret.as_str(),
        token_secret,
    );
    all.insert("oauth_signature", signature.as_str());
    proof {
        lemma_header_listing_is_header_text(all@);
    }
    header_of(all.pairs().as_slice())
}

/// The value of the `Authorization` header for a request, signed with a
/// fresh nonce of 32 random letters and digits and with the clock's time in
/// seconds since the Unix epoch (zero where the clock stands before it).
/// `other_param` are the request's own parameters, query or form.
pub fn build_oauth_headers(
    method: &str,
    uri: &str,
    consumer: &Token,
    token: Option<&Token>,
    other_param: Option<&ParamList>,
) -> (r: String)
    ensures
        authorizes(
            r@,
            method@,
            uri@,
            *consumer,
            token_of(token),
            match other_param {
                Some(p) => p@,
                None => Seq::empty(),
            },
        ),
        is_header_text(r@),
{
    let nonce = random_alphanumeric(32);
    let now = unix_time();
    let timestamp: u64 = if now < 0 {
        0
    } else {
        now as u64
    };
    let other: Vec<(&str, &str)> = match other_param {
        Some(p) => p.pairs(),
        None => Vec::new(),
    };
    proof {
        if other_param is None {
            assert(pairs_of(other@) == Seq::<Pair>::empty());
        }
    }
    authorization_header_with(
        method,
        uri,
        consumer,
        token,
        other.as_slice(),
        nonce.as_str(),
        timestamp,
    )
}

} // verus!
