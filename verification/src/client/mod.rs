//! The client: the credentials it signs with, the requests it prepares and
//! the errors it reports.
//!
//! Nothing here touches the network. Every operation of the API is prepared
//! as an [`ApiRequest`], a plain description of the one HTTP request to send;
//! whoever owns the connection sends it and decodes the answer.

pub mod blog;
pub mod oauth;
pub mod user;

use vstd::prelude::*;
use crate::order::Pair;
use crate::params::{param_set, set_of, ParamList};
use crate::canonical::{build_query, url_with_query};
use crate::query::{owned_pairs_of, pairs_of, to_owned_pairs};
use crate::signer::{authorizes, build_oauth_headers, is_header_text, Token};
use crate::text::{push_str, string_of, text_of};

verus! {

/// The four strings a client signs with: the application's key and secret
/// and the user's key and secret. All four are empty until they are set.
#[derive(Debug, PartialEq, Eq)]
pub struct Keys {
    pub consumer_key: String,
    pub consumer_secret: String,
    pub access_key: String,
    pub access_secret: String,
}

impl Keys {
    /// Four empty strings.
    pub fn new() -> (r: Keys)
        ensures
            r.consumer_key@ == Seq::<char>::empty(),
            r.consumer_secret@ == Seq::<char>::empty(),
            r.access_key@ == Seq::<char>::empty(),
            r.access_secret@ == Seq::<char>::empty(),
    {
        Keys {
            consumer_key: String::new(),
            consumer_secret: String::new(),
            access_key: String::new(),
            access_secret: String::new(),
        }
    }
}

/// What can be wrong with what a caller asks for, or with an answer of the
/// authorization endpoints.
#[derive(Debug, PartialEq, Eq)]
pub enum TumblrClientError {
    /// The proxy address cannot be read as an address.
    InvalidProxyAddress { address: String },
    /// The avatar size is not one of the sizes on offer.
    InvalidAvatarSize { size: String },
    /// A photo post names neither a source, nor inline data, nor files.
    MissingPhotoSource,
    /// An audio post names neither an external address nor data.
    MissingAudioSource,
    /// A video post names neither an embed nor data.
    MissingVideoSource,
    /// An answer to a token request lacks the token or its secret.
    MalformedTokenResponse,
    /// The authorization was told something that it had not asked for.
    OutOfTurn,
}

/// The text of an error, given the address or the size it is about.
pub open spec fn error_text(e: TumblrClientError) -> Seq<char> {
    match e {
        TumblrClientError::InvalidProxyAddress { address } => "Invalid proxy address: "@
            + address@,
        TumblrClientError::InvalidAvatarSize { size } =>
            "The size of the avatar must be one of 16, 24, 30, 40, 48, 64, 96, 128, 512, not "@
            + size@,
        TumblrClientError::MissingPhotoSource => "one of [source, data, data64] must be specified"@,
        TumblrClientError::MissingAudioSource => "one of [external_url, data] must be specified"@,
        TumblrClientError::MissingVideoSource => "one of [embed, data] must be specified"@,
        TumblrClientError::MalformedTokenResponse =>
            "the response holds no oauth_token with its oauth_token_secret"@,
        TumblrClientError::OutOfTurn => "the authorization did not ask for this"@,
    }
}

impl TumblrClientError {
    /// The error in words.
    pub fn message(&self) -> (r: String)
        ensures
            r@ == error_text(*self),
    {
        let mut out: Vec<char> = Vec::new();
        match self {
            TumblrClientError::InvalidProxyAddress { address } => {
                push_str(&mut out, "Invalid proxy address: ");
                push_str(&mut out, address.as_str());
            },
            TumblrClientError::InvalidAvatarSize { size } => {
                push_str(
                    &mut out,
                    "The size of the avatar must be one of 16, 24, 30, 40, 48, 64, 96, 128, 512, not ",
                );
                push_str(&mut out, size.as_str());
            },
            TumblrClientError::MissingPhotoSource => {
                push_str(&mut out, "one of [source, data, data64] must be specified");
            },
            TumblrClientError::MissingAudioSource => {
                push_str(&mut out, "one of [external_url, data] must be specified");
            },
            TumblrClientError::MissingVideoSource => {
                push_str(&mut out, "one of [embed, data] must be specified");
            },
            TumblrClientError::MalformedTokenResponse => {
                push_str(&mut out, "the response holds no oauth_token with its oauth_token_secret");
            },
            TumblrClientError::OutOfTurn => {
                push_str(&mut out, "the authorization did not ask for this");
            },
        }
        string_of(&out)
    }
}

/// The HTTP method of a request.
#[derive(Clone, Copy, Debug, PartialEq, Eq, Structural)]
pub enum Method {
    Get,
    Post,
}

/// What a request carries besides its address and headers.
#[derive(Debug, PartialEq, Eq)]
pub enum Body {
    /// Nothing.
    Empty,
    /// A form of text fields, to be sent URL-encoded.
    Form(Vec<(String, String)>),
    /// A multipart body: text fields as they stand, then one file part for
    /// each `(part name, path of the file)`, in this order.
    Multipart { fields: Vec<(String, String)>, files: Vec<(String, String)> },
}

/// One HTTP request, ready to be sent.
#[derive(Debug, PartialEq, Eq)]
pub struct ApiRequest {
    pub method: Method,
    /// The address, with its query string.
    pub url: String,
    /// The value of the `Authorization` header, where the request is signed.
    pub authorization: Option<String>,
    pub body: Body,
}

/// A client of the API: the credentials, and the proxy to connect through
/// where one was set.
#[derive(Debug, PartialEq, Eq)]
pub struct TumblrClient {
    pub keys: Keys,
    /// The address of the proxy that HTTPS traffic goes through.
    pub proxy: Option<String>,
}

/// Whether `reqwest::Proxy::https` accepts `address` as the address of a
/// proxy.
pub uninterp spec fn proxy_accepts(address: Seq<char>) -> bool;

/// `reqwest::Proxy::https` reads the address of a proxy and fails where the
/// text is no address; whether it fails depends on the text alone.
#[verifier::external_body]
fn proxy_address_accepted(address: &str) -> (r: bool)
    ensures
        r == proxy_accepts(address@),
{
    match reqwest::Proxy::https(address) {
        Ok(_) => true,
        Err(_) => false,
    }
}

/// The application's credential among the keys.
pub open spec fn consumer_of(keys: Keys) -> Token {
    Token { key: keys.consumer_key, secret: keys.consumer_secret }
}

/// The user's credential among the keys.
pub open spec fn access_of(keys: Keys) -> Token {
    Token { key: keys.access_key, secret: keys.access_secret }
}

/// `authorization` is an `Authorization` header that signs the request
/// `method` `api` with the parameter set of `params`, under both credentials
/// of `keys`, and it may stand as the value of an HTTP header.
pub open spec fn signed_by(
    authorization: Option<String>,
    keys: Keys,
    method: Seq<char>,
    api: Seq<char>,
    params: Seq<Pair>,
) -> bool {
    authorization matches Some(h) && is_header_text(h@) && authorizes(
        h@,
        method,
        api,
        consumer_of(keys),
        Some(access_of(keys)),
        set_of(params),
    )
}

/// The address of a request for `api` with `params`: the query carries the
/// parameter set of `params`, each name once, in the order of signing.
pub open spec fn request_url(api: Seq<char>, params: Seq<Pair>) -> Seq<char> {
    url_with_query(api, set_of(params))
}

/// `r` is the signed GET request for `api` with the parameter set of
/// `params`: the address carries the set as its query, the header signs the
/// same set.
pub open spec fn is_signed_get(
    r: ApiRequest,
    keys: Keys,
    api: Seq<char>,
    params: Seq<Pair>,
) -> bool {
    &&& r.method == Method::Get
    &&& r.url@ == request_url(api, params)
    &&& signed_by(r.authorization, keys, "GET"@, api, params)
    &&& r.body is Empty
}

/// `r` is the signed POST request to `api` with the parameter set of `form`:
/// the form carries the set, each name once, and the header signs the same
/// set.
pub open spec fn is_signed_post(
    r: ApiRequest,
    keys: Keys,
    api: Seq<char>,
    form: Seq<Pair>,
) -> bool {
    &&& r.method == Method::Post
    &&& r.url@ == api
    &&& signed_by(r.authorization, keys, "POST"@, api, form)
    &&& r.body matches Body::Form(f) && owned_pairs_of(f@) == set_of(form)
}

/// `r` is the unsigned GET request for the address `url`.
pub open spec fn is_plain_get(r: ApiRequest, url: Seq<char>) -> bool {
    &&& r.method == Method::Get
    &&& r.url@ == url
    &&& r.authorization is None
    &&& r.body is Empty
}

impl TumblrClient {
    /// A client with empty credentials and no proxy.
    pub fn new() -> (r: TumblrClient)
        ensures
            r.keys.consumer_key@ == Seq::<char>::empty(),
            r.keys.consumer_secret@ == Seq::<char>::empty(),
            r.keys.access_key@ == Seq::<char>::empty(),
            r.keys.access_secret@ == Seq::<char>::empty(),
            r.proxy is None,
    {
        TumblrClient { keys: Keys::new(), proxy: None }
    }

    /// Sets the proxy through which HTTPS traffic goes. The address is
    /// rejected where it cannot be read as the address of a proxy; the
    /// credentials stay as they are.
    pub fn proxy(self, address: &str) -> (r: Result<TumblrClient, TumblrClientError>)
        ensures
            r is Ok <==> proxy_accepts(address@),
            r matches Ok(c) ==> c.keys == self.keys && text_of(c.proxy) == Some(address@),
            r matches Err(e) ==> e matches TumblrClientError::InvalidProxyAddress { address: a }
                && a@ == address@,
    {
        if proxy_address_accepted(address) {
            Ok(TumblrClient { keys: self.keys, proxy: Some(address.to_owned()) })
        } else {
            Err(TumblrClientError::InvalidProxyAddress { address: address.to_owned() })
        }
    }

    /// The `Authorization` header that signs `method` `api` with the
    /// parameter set `set` under both credentials of this client.
    pub fn sign_set(&self, method: &str, api: &str, set: &ParamList) -> (r: String)
        ensures
            is_header_text(r@),
            authorizes(
                r@,
                method@,
                api@,
                consumer_of(self.keys),
                Some(access_of(self.keys)),
                set@,
            ),
    {
        let consumer = self.keys.consumer();
        let token = self.keys.token();
        build_oauth_headers(method, api, &consumer, Some(&token), Some(set))
    }

    /// The `Authorization` header that signs `method` `api` with the
    /// parameter set of `params` under both credentials of this client.
    pub fn sign(&self, method: &str, api: &str, params: &[(&str, &str)]) -> (r: String)
        ensures
            signed_by(Some(r), self.keys, method@, api@, pairs_of(params@)),
    {
        let set = param_set(params);
        self.sign_set(method, api, &set)
    }

    /// The signed GET request for `api` with `params`. A name that `params`
    /// gives twice is sent once, with its last value; the address carries the
    /// parameters that the header signs.
    pub fn signed_get(&self, api: &str, params: &[(&str, &str)]) -> (r: ApiRequest)
        ensures
            is_signed_get(r, self.keys, api@, pairs_of(params@)),
    {
        let set = param_set(params);
        ApiRequest {
            method: Method::Get,
            url: build_query(api, set.pairs().as_slice()),
            authorization: Some(self.sign_set("GET", api, &set)),
            body: Body::Empty,
        }
    }

    /// The signed POST request to `api` with `form`. A name that `form`
    /// gives twice is sent once, with its last value; the form carries the
    /// fields that the header signs.
    pub fn signed_post(&self, api: &str, form: &[(&str, &str)]) -> (r: ApiRequest)
        ensures
            is_signed_post(r, self.keys, api@, pairs_of(form@)),
    {
        let set = param_set(form);
        ApiRequest {
            method: Method::Post,
            url: api.to_owned(),
            authorization: Some(self.sign_set("POST", api, &set)),
            body: Body::Form(to_owned_pairs(set.pairs().as_slice())),
        }
    }

    /// The unsigned GET request for `api` with `params`. A name that
    /// `params` gives twice is sent once, with its last value.
    pub fn plain_get(api: &str, params: &[(&str, &str)]) -> (r: ApiRequest)
        ensures
            is_plain_get(r, request_url(api@, pairs_of(params@))),
    {
        let set = param_set(params);
        ApiRequest {
            method: Method::Get,
            url: build_query(api, set.pairs().as_slice()),
            authorization: None,
            body: Body::Empty,
        }
    }
}

} // verus!
