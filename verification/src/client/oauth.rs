//! The credentials of a client and the two exchanges by which a user's
//! credential is obtained: the request for a temporary token, and the
//! request that trades it, with the user's verifier, for the access token.
//!
//! Between the two the user visits the authorization page and comes back
//! with a line of text that holds the verifier. Sending, showing the page
//! and reading the line are left to the program: it reports what it heard to
//! [`TumblrClient::oauth`] and is told what to do next.

use vstd::prelude::*;
use crate::client::{
    access_of, consumer_of, ApiRequest, Body, Keys, Method, TumblrClient, TumblrClientError,
};
use crate::order::Pair;
use crate::params::{lookup, split_params, split_query, ParamList};
use crate::canonical::{build_query, url_with_query};
use crate::query::pairs_of;
use crate::signer::{authorizes, build_oauth_headers, is_header_text, Token};
use crate::text::{chars_of, same_chars, slice_of, string_of, trim, trimmed};

verus! {

/// Where a temporary token is asked for.
pub const REQUEST_TOKEN: &'static str = "https://www.tumblr.com/oauth/request_token";

/// The page on which the user grants access.
pub const AUTHORIZE: &'static str = "https://www.tumblr.com/oauth/authorize";

/// Where the temporary token is traded for the access token.
pub const ACCESS_TOKEN: &'static str = "https://www.tumblr.com/oauth/access_token";

/// The text that stands before the verifier in what the user brings back.
pub const VERIFIER_MARK: &'static str = "oauth_verifier=";

impl Keys {
    /// The application's credential.
    pub fn consumer(&self) -> (r: Token)
        ensures
            r == consumer_of(*self),
    {
        Token { key: self.consumer_key.clone(), secret: self.consumer_secret.clone() }
    }

    /// The user's credential.
    pub fn token(&self) -> (r: Token)
        ensures
            r == access_of(*self),
    {
        Token { key: self.access_key.clone(), secret: self.access_secret.clone() }
    }
}

/// The text after the last place at or before `from` where `mark` stands in
/// `s`, or all of `s` where `mark` stands at no such place.
pub open spec fn after_mark_from(s: Seq<char>, mark: Seq<char>, from: int) -> Seq<char>
    decreases from + 1,
{
    if from < 0 || from + mark.len() > s.len() {
        s
    } else if s.subrange(from, from + mark.len()) == mark {
        s.skip(from + mark.len())
    } else {
        after_mark_from(s, mark, from - 1)
    }
}

/// The text after the last `mark` in `s`, or all of `s` where it holds none.
pub open spec fn after_last_mark(s: Seq<char>, mark: Seq<char>) -> Seq<char> {
    after_mark_from(s, mark, s.len() - mark.len())
}

/// The verifier in the line that a user enters: what follows the last
/// `oauth_verifier=` in the line without the white space at its ends, or all
/// of that where it holds no such mark.
pub open spec fn verifier_in(line: Seq<char>) -> Seq<char> {
    after_last_mark(trimmed(line), VERIFIER_MARK@)
}

/// The credential that an answer of the form
/// `oauth_token=..&oauth_token_secret=..` carries, if it carries one.
pub open spec fn token_in(response: Seq<char>) -> Option<(Seq<char>, Seq<char>)> {
    match split_query(response) {
        Some(params) => match (lookup(params, "oauth_token"@), lookup(
            params,
            "oauth_token_secret"@,
        )) {
            (Some(key), Some(secret)) => Some((key, secret)),
            _ => None,
        },
        None => None,
    }
}

/// `r` is the signed GET request to `api` that carries `other` in its
/// signature and header only, under the consumer of `keys` and `token`.
pub open spec fn is_token_request(
    r: ApiRequest,
    keys: Keys,
    api: Seq<char>,
    token: Option<Token>,
    other: Seq<Pair>,
) -> bool {
    &&& r.method == Method::Get
    &&& r.url@ == api
    &&& r.authorization matches Some(h) && is_header_text(h@) && authorizes(
        h@,
        "GET"@,
        api,
        consumer_of(keys),
        token,
        other,
    )
    &&& r.body is Empty
}

/// How far the authorization of a user has come.
#[derive(Debug, PartialEq, Eq)]
pub enum Authorization {
    /// Nothing was sent yet.
    NotStarted,
    /// The temporary token was asked for; the answer is awaited.
    TokenRequested,
    /// The user was sent to the authorization page with the temporary
    /// token; the line that the user brings back is awaited.
    UserAsked { temporary: Token },
    /// The access token was asked for; the answer is awaited.
    AccessRequested,
    /// The authorization is over: access was granted, or it failed.
    Ended,
}

/// What the program reports.
#[derive(Clone, Copy, Debug, PartialEq, Eq)]
pub enum Report<'a> {
    /// Nothing yet: the authorization is to begin.
    Begin,
    /// The text of the answer to the request that was sent.
    Answer(&'a str),
    /// The line that the user entered, as it was read.
    Line(&'a str),
}

/// What the program is to do next.
#[derive(Debug, PartialEq, Eq)]
pub enum Todo {
    /// Send this request and report the text of the answer.
    Send(ApiRequest),
    /// Show this address to the user and report the line they enter.
    Ask { page: String },
    /// Nothing more: this is the user's credential.
    Grant(Token),
    /// Nothing more: the authorization failed.
    Fail(TumblrClientError),
}

/// `r` is what follows in the state `state` on the report `report`.
///
/// The authorization goes through four steps: it sends the request for a
/// temporary token; on the answer it sends the user to the authorization
/// page; on the user's line it sends the request for the access token; on
/// the answer it grants the credential. An answer without token ends it
/// with an error, and so does a report that the state did not ask for.
pub open spec fn is_oauth_step(
    r: (Authorization, Todo),
    keys: Keys,
    state: Authorization,
    report: Report,
) -> bool {
    match (state, report) {
        (Authorization::NotStarted, Report::Begin) => {
            &&& r.0 is TokenRequested
            &&& r.1 matches Todo::Send(request)
            &&& is_token_request(request, keys, REQUEST_TOKEN@, None, Seq::empty())
        },
        (Authorization::TokenRequested, Report::Answer(text)) => match token_in(text@) {
            Some((key, secret)) => {
                &&& r.0 matches Authorization::UserAsked { temporary }
                &&& temporary.key@ == key
                &&& temporary.secret@ == secret
                &&& r.1 matches Todo::Ask { page }
                &&& page@ == url_with_query(AUTHORIZE@, seq![("oauth_token"@, key)])
            },
            None => r.0 is Ended && r.1 == Todo::Fail(TumblrClientError::MalformedTokenResponse),
        },
        (Authorization::UserAsked { temporary }, Report::Line(line)) => {
            &&& r.0 is AccessRequested
            &&& r.1 matches Todo::Send(request)
            &&& is_token_request(
                request,
                keys,
                ACCESS_TOKEN@,
                Some(temporary),
                seq![("oauth_verifier"@, verifier_in(line@))],
            )
        },
        (Authorization::AccessRequested, Report::Answer(text)) => match token_in(text@) {
            Some((key, secret)) => {
                &&& r.0 is Ended
                &&& r.1 matches Todo::Grant(access)
                &&& access.key@ == key
                &&& access.secret@ == secret
            },
            None => r.0 is Ended && r.1 == Todo::Fail(TumblrClientError::MalformedTokenResponse),
        },
        _ => r.0 is Ended && r.1 == Todo::Fail(TumblrClientError::OutOfTurn),
    }
}

/// The verifier in the line that the user enters after the authorization
/// page, taken as it was read: the white space around the line is cut, and
/// the verifier is what follows the last `oauth_verifier=`, or the whole of
/// the cut line where it holds no such mark.
pub fn verifier_of(line: &str) -> (r: String)
    ensures
        r@ == verifier_in(line@),
{
    let s = trim(line);
    let mark = chars_of(VERIFIER_MARK);
    if mark.len() > s.len() {
        return string_of(&s);
    }
    let mut from: usize = s.len() - mark.len();
    loop
        invariant
            from + mark.len() <= s.len(),
            s@ == trimmed(line@),
            mark@ == VERIFIER_MARK@,
            verifier_in(line@) == after_mark_from(s@, mark@, from as int),
        decreases from,
    {
        let piece = slice_of(&s, from, from + mark.len());
        if same_chars(&piece, &mark) {
            let tail = slice_of(&s, from + mark.len(), s.len());
            return string_of(&tail);
        }
        if from == 0 {
            assert(after_mark_from(s@, mark@, -1) == s@);
            return string_of(&s);
        }
        from -= 1;
    }
}

impl TumblrClient {
    /// The client with the application's credential set to `key` and
    /// `secret`; all else stays.
    pub fn set_consumer(self, key: &str, secret: &str) -> (r: TumblrClient)
        ensures
            r.keys.consumer_key@ == key@,
            r.keys.consumer_secret@ == secret@,
            r.keys.access_key == self.keys.access_key,
            r.keys.access_secret == self.keys.access_secret,
            r.proxy == self.proxy,
    {
        TumblrClient {
            keys: Keys {
                consumer_key: key.to_owned(),
                consumer_secret: secret.to_owned(),
                access_key: self.keys.access_key,
                access_secret: self.keys.access_secret,
            },
            proxy: self.proxy,
        }
    }

    /// The client with the user's credential set to `key` and `secret`; all
    /// else stays.
    pub fn set_token(self, key: &str, secret: &str) -> (r: TumblrClient)
        ensures
            r.keys.access_key@ == key@,
            r.keys.access_secret@ == secret@,
            r.keys.consumer_key == self.keys.consumer_key,
            r.keys.consumer_secret == self.keys.consumer_secret,
            r.proxy == self.proxy,
    {
        TumblrClient {
            keys: Keys {
                consumer_key: self.keys.consumer_key,
                consumer_secret: self.keys.consumer_secret,
                access_key: key.to_owned(),
                access_secret: secret.to_owned(),
            },
            proxy: self.proxy,
        }
    }

    /// The first exchange: the request for a temporary token, signed with
    /// the application's credential alone.
    pub fn request_token(&self) -> (r: ApiRequest)
        ensures
            is_token_request(r, self.keys, REQUEST_TOKEN@, None, Seq::empty()),
    {
        let consumer = self.keys.consumer();
        let header = build_oauth_headers("GET", REQUEST_TOKEN, &consumer, None, None);
        ApiRequest {
            method: Method::Get,
            url: REQUEST_TOKEN.to_owned(),
            authorization: Some(header),
            body: Body::Empty,
        }
    }

    /// The address of the page on which the user grants access to the
    /// temporary token `token`.
    pub fn authorize(token: &str) -> (r: String)
        ensures
            r@ == url_with_query(AUTHORIZE@, seq![("oauth_token"@, token@)]),
    {
        let mut params: Vec<(&str, &str)> = Vec::new();
        params.push(("oauth_token", token));
        assert(pairs_of(params@) == seq![("oauth_token"@, token@)]);
        build_query(AUTHORIZE, params.as_slice())
    }

    /// The second exchange: the request that trades the temporary token
    /// `token` for the access token. `line` is what the user entered after
    /// the authorization page, as it was read, white space and line end
    /// included; the verifier in it is signed and sent as `oauth_verifier`.
    pub fn access_token(&self, token: &Token, line: &str) -> (r: ApiRequest)
        ensures
            is_token_request(
                r,
                self.keys,
                ACCESS_TOKEN@,
                Some(*token),
                seq![("oauth_verifier"@, verifier_in(line@))],
            ),
    {
        let verifier = verifier_of(line);
        let mut params = ParamList::new();
        params.insert("oauth_verifier", verifier.as_str());
        proof {
            crate::params::lemma_index_of_name(Seq::empty(), "oauth_verifier"@);
            assert(params@ == seq![("oauth_verifier"@, verifier@)]);
        }
        let consumer = self.keys.consumer();
        let header = build_oauth_headers("GET", ACCESS_TOKEN, &consumer, Some(token), Some(&params));
        ApiRequest {
            method: Method::Get,
            url: ACCESS_TOKEN.to_owned(),
            authorization: Some(header),
            body: Body::Empty,
        }
    }

    /// Reads the answer to either exchange: the credential made of its
    /// `oauth_token` and `oauth_token_secret`. An answer that is no list of
    /// `name=value` pairs, or that lacks one of the two, is rejected.
    pub fn token_from_response(response: &str) -> (r: Result<Token, TumblrClientError>)
        ensures
            r is Ok <==> token_in(response@) is Some,
            r matches Ok(t) ==> token_in(response@) == Some((t.key@, t.secret@)),
            r matches Err(e) ==> e == TumblrClientError::MalformedTokenResponse,
    {
        match split_params(response) {
            Some(params) => match (params.value("oauth_token"), params.value("oauth_token_secret")) {
                (Some(key), Some(secret)) => Ok(Token::new(key, secret)),
                _ => Err(TumblrClientError::MalformedTokenResponse),
            },
            None => Err(TumblrClientError::MalformedTokenResponse),
        }
    }

    /// One step of the authorization of a user: takes in what the program
    /// reports and says what to do next. The program begins with
    /// `Authorization::NotStarted` and `Report::Begin` and goes on until it
    /// is told `Grant` or `Fail`.
    pub fn oauth(&self, state: Authorization, report: Report) -> (r: (Authorization, Todo))
        ensures
            is_oauth_step(r, self.keys, state, report),
    {
        match (state, report) {
            (Authorization::NotStarted, Report::Begin) => (
                Authorization::TokenRequested,
                Todo::Send(self.request_token()),
            ),
            (Authorization::TokenRequested, Report::Answer(text)) => {
                match TumblrClient::token_from_response(text) {
                    Ok(temporary) => {
                        let page = TumblrClient::authorize(temporary.key.as_str());
                        (Authorization::UserAsked { temporary }, Todo::Ask { page })
                    },
                    Err(e) => (Authorization::Ended, Todo::Fail(e)),
                }
            },
            (Authorization::UserAsked { temporary }, Report::Line(line)) => (
                Authorization::AccessRequested,
                Todo::Send(self.access_token(&temporary, line)),
            ),
            (Authorization::AccessRequested, Report::Answer(text)) => {
                match TumblrClient::token_from_response(text) {
                    Ok(access) => (Authorization::Ended, Todo::Grant(access)),
                    Err(e) => (Authorization::Ended, Todo::Fail(e)),
                }
            },
            _ => (Authorization::Ended, Todo::Fail(TumblrClientError::OutOfTurn)),
        }
    }
}

} // verus!
