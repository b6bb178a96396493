//! A client library for the Tumblr API, which signs its requests with
//! OAuth 1.0a.
//!
//! The library prepares requests and decides; it does not send. Each
//! operation of the API yields an [`ApiRequest`]: method, address, the value
//! of the `Authorization` header and the body. The program that owns the
//! connection sends it, asking a [`transport::Transfer`] whether to try again
//! when the transport fails.
//!
//! The parts, from the leaves up:
//! - [`encoding`]: percent-encoding and its inverse;
//! - [`query`], [`order`], [`canonical`]: query strings and the canonical
//!   parameter string that a request is signed over;
//! - [`params`]: parameter sets with unique names;
//! - [`signer`]: the `Authorization` header;
//! - [`transport`]: the retry policy;
//! - [`multipart`]: the one source of an upload and the parts of its body;
//! - [`client`]: the credentials and the operations of the API.

pub mod canonical;
pub mod client;
pub mod encoding;
pub mod multipart;
pub mod order;
pub mod params;
pub mod query;
pub mod signer;
pub mod text;
pub mod transport;

pub use crate::canonical::{build_query, canonical_parameter_string, encode_query};
pub use crate::client::blog::{
    GetBlogAvatarOptionalParams, GetBlogFollowersOptionalParams, GetBlogFollowingRequest,
    GetBlogLikesOptionalParams, GetBlogPostsDraftOptionalParams, GetBlogPostsOptionalParams,
    GetBlogPostsQueueOptionalParams, GetBlogPostsSubmissionOptionalParams,
    LegacyPostOptionalParams, PostAction, PostType,
};
pub use crate::client::user::{
    GetUserDashboardOptionalParams, GetUserFollowingOptionalParams, GetUserLikesOptionalParams,
};
pub use crate::client::oauth::{Authorization, Report, Todo};
pub use crate::client::{ApiRequest, Body, Keys, Method, TumblrClient, TumblrClientError};
pub use crate::encoding::{percent_decode, percent_encode};
pub use crate::multipart::{select_upload, UploadPayload};
pub use crate::params::{build_params, split_params, ParamList};
pub use crate::query::parse_query;
pub use crate::signer::{
    authorization_header_with, build_oauth_headers, signature_base_string, Token,
};
pub use crate::transport::{Outcome, RetryPolicy, Step, Transfer};
