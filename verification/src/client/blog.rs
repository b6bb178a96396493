//! The operations on a blog: its information, avatar, likes, followers and
//! posts, and creating, editing, reblogging and deleting a post.
//!
//! Each operation is prepared from the blog's identifier and a plain
//! structure of optional parameters. Only the parameters that are set are
//! sent. An address lists them sorted, as they are signed; a form holds each
//! name once.

use vstd::prelude::*;
use crate::client::{
    is_plain_get, is_signed_get, is_signed_post, request_url, signed_by, ApiRequest, Body,
    Method, TumblrClient, TumblrClientError,
};
use crate::multipart::{is_multipart, multipart_body, select_upload, selected, UploadPayload};
use crate::order::Pair;
use crate::params::{param_set, set_of};
use crate::query::pairs_of;
use crate::text::{chars_of, concat3, push_str, same_text, string_of};

verus! {

/// The address under which every blog lives.
pub const BLOG: &'static str = "https://api.tumblr.com/v2/blog/";

/// The address of an operation on a blog: the common root, the blog's
/// identifier, and the operation's path.
pub open spec fn blog_api(blog_identifier: Seq<char>, path: Seq<char>) -> Seq<char> {
    BLOG@ + blog_identifier + path
}

/// The parameter `name`, where `value` is set.
pub open spec fn opt_param(name: Seq<char>, value: Option<&str>) -> Seq<Pair> {
    match value {
        Some(v) => seq![(name, v@)],
        None => Seq::empty(),
    }
}

/// Adds the parameter `name` to `list` where `value` is set.
pub fn push_opt<'a>(list: &mut Vec<(&'a str, &'a str)>, name: &'a str, value: Option<&'a str>)
    ensures
        pairs_of(final(list)@) == pairs_of(old(list)@) + opt_param(name@, value),
{
    let ghost before = pairs_of(list@);
    match value {
        Some(v) => {
            list.push((name, v));
            assert(pairs_of(list@) == before + seq![(name@, v@)]);
        },
        None => {
            assert(before + Seq::<Pair>::empty() == before);
        },
    }
}

/// Adds the parameter `name` with `value` to `list`.
pub fn push_param<'a>(list: &mut Vec<(&'a str, &'a str)>, name: &'a str, value: &'a str)
    ensures
        pairs_of(final(list)@) == pairs_of(old(list)@).push((name@, value@)),
{
    let ghost before = pairs_of(list@);
    list.push((name, value));
    assert(pairs_of(list@) == before.push((name@, value@)));
}

/// The sizes in which an avatar is on offer, in pixels.
pub open spec fn is_avatar_size(size: Seq<char>) -> bool {
    size == "16"@ || size == "24"@ || size == "30"@ || size == "40"@ || size == "48"@ || size
        == "64"@ || size == "96"@ || size == "128"@ || size == "512"@
}

/// Which size of a blog's avatar to fetch. A size that is chosen is one of
/// the sizes on offer.
#[derive(Clone, Copy, Debug, PartialEq, Eq)]
pub struct GetBlogAvatarOptionalParams<'a> {
    size: Option<&'a str>,
}

impl<'a> GetBlogAvatarOptionalParams<'a> {
    #[verifier::type_invariant]
    spec fn size_is_on_offer(self) -> bool {
        self.size matches Some(size) ==> is_avatar_size(size@)
    }

    /// The size that was chosen, if one was.
    pub closed spec fn chosen(self) -> Option<&'a str> {
        self.size
    }

    /// No size chosen: the server picks its default.
    pub fn new() -> (r: GetBlogAvatarOptionalParams<'a>)
        ensures
            r.chosen() is None,
    {
        GetBlogAvatarOptionalParams { size: None }
    }

    /// The size that was chosen, if one was: one of the sizes on offer.
    pub fn chosen_size(&self) -> (r: Option<&'a str>)
        ensures
            r == self.chosen(),
            r matches Some(size) ==> is_avatar_size(size@),
    {
        proof {
            use_type_invariant(self);
        }
        self.size
    }

    /// Chooses the size of the avatar (square, one value for both length and
    /// width). A size that is not on offer is rejected.
    pub fn size(self, size: &'a str) -> (r: Result<Self, TumblrClientError>)
        ensures
            r is Ok <==> is_avatar_size(size@),
            r matches Ok(p) ==> p.chosen() == Some(size),
            r matches Err(e) ==> e matches TumblrClientError::InvalidAvatarSize { size: s } && s@
                == size@,
    {
        if same_text(size, "16") || same_text(size, "24") || same_text(size, "30") || same_text(
            size,
            "40",
        ) || same_text(size, "48") || same_text(size, "64") || same_text(size, "96") || same_text(
            size,
            "128",
        ) || same_text(size, "512") {
            Ok(GetBlogAvatarOptionalParams { size: Some(size) })
        } else {
            Err(TumblrClientError::InvalidAvatarSize { size: size.to_owned() })
        }
    }
}

impl<'a> Default for GetBlogAvatarOptionalParams<'a> {
    /// No size chosen.
    fn default() -> (r: Self)
        ensures
            r.chosen() is None,
    {
        GetBlogAvatarOptionalParams { size: None }
    }
}

/// Which of a blog's likes to fetch.
#[derive(Clone, Copy, Debug, PartialEq, Eq)]
pub struct GetBlogLikesOptionalParams<'a> {
    pub limit: Option<&'a str>,
    pub offset: Option<&'a str>,
    pub before: Option<&'a str>,
    pub after: Option<&'a str>,
}

impl<'a> GetBlogLikesOptionalParams<'a> {
    /// Nothing set.
    pub fn new() -> (r: GetBlogLikesOptionalParams<'a>)
        ensures
            r == (GetBlogLikesOptionalParams {
                limit: None,
                offset: None,
                before: None,
                after: None,
            }),
    {
        GetBlogLikesOptionalParams { limit: None, offset: None, before: None, after: None }
    }

    /// The number of results to return.
    pub fn limit(self, limit: &'a str) -> (r: Self)
        ensures
            r == (GetBlogLikesOptionalParams { limit: Some(limit), ..self }),
    {
        GetBlogLikesOptionalParams { limit: Some(limit), ..self }
    }

    /// The number of the first result to return, counting from zero.
    pub fn offset(self, offset: &'a str) -> (r: Self)
        ensures
            r == (GetBlogLikesOptionalParams { offset: Some(offset), ..self }),
    {
        GetBlogLikesOptionalParams { offset: Some(offset), ..self }
    }

    /// Only what was liked before this time, in seconds since the epoch.
    pub fn before(self, before: &'a str) -> (r: Self)
        ensures
            r == (GetBlogLikesOptionalParams { before: Some(before), ..self }),
    {
        GetBlogLikesOptionalParams { before: Some(before), ..self }
    }

    /// Only what was liked after this time, in seconds since the epoch.
    pub fn after(self, after: &'a str) -> (r: Self)
        ensures
            r == (GetBlogLikesOptionalParams { after: Some(after), ..self }),
    {
        GetBlogLikesOptionalParams { after: Some(after), ..self }
    }

    /// The parameters that are set, in the order of the fields.
    pub open spec fn listed(self) -> Seq<Pair> {
        opt_param("limit"@, self.limit)
            + opt_param("offset"@, self.offset)
            + opt_param("before"@, self.before)
            + opt_param("after"@, self.after)
    }

    /// Adds the parameters that are set to `list`, in the order of the fields.
    pub fn list_into(&self, list: &mut Vec<(&'a str, &'a str)>)
        ensures
            pairs_of(final(list)@) == pairs_of(old(list)@) + self.listed(),
    {
        push_opt(list, "limit", self.limit);
        push_opt(list, "offset", self.offset);
        push_opt(list, "before", self.before);
        push_opt(list, "after", self.after);
    }
}

impl<'a> Default for GetBlogLikesOptionalParams<'a> {
    /// Nothing set.
    fn default() -> (r: Self)
        ensures
            r == (GetBlogLikesOptionalParams {
                limit: None,
                offset: None,
                before: None,
                after: None,
            }),
    {
        GetBlogLikesOptionalParams { limit: None, offset: None, before: None, after: None }
    }
}

/// Which of the blogs that a blog follows to fetch.
#[derive(Clone, Copy, Debug, PartialEq, Eq)]
pub struct GetBlogFollowingRequest<'a> {
    pub limit: Option<&'a str>,
    pub offset: Option<&'a str>,
}

impl<'a> GetBlogFollowingRequest<'a> {
    /// Nothing set.
    pub fn new() -> (r: GetBlogFollowingRequest<'a>)
        ensures
            r == (GetBlogFollowingRequest { limit: None, offset: None }),
    {
        GetBlogFollowingRequest { limit: None, offset: None }
    }

    /// The number of results to return.
    pub fn limit(self, limit: &'a str) -> (r: Self)
        ensures
            r == (GetBlogFollowingRequest { limit: Some(limit), ..self }),
    {
        GetBlogFollowingRequest { limit: Some(limit), ..self }
    }

    /// The number of the first result to return, counting from zero.
    pub fn offset(self, offset: &'a str) -> (r: Self)
        ensures
            r == (GetBlogFollowingRequest { offset: Some(offset), ..self }),
    {
        GetBlogFollowingRequest { offset: Some(offset), ..self }
    }

    /// The parameters that are set, in the order of the fields.
    pub open spec fn listed(self) -> Seq<Pair> {
        opt_param("limit"@, self.limit)
            + opt_param("offset"@, self.offset)
    }

    /// Adds the parameters that are set to `list`, in the order of the fields.
    pub fn list_into(&self, list: &mut Vec<(&'a str, &'a str)>)
        ensures
            pairs_of(final(list)@) == pairs_of(old(list)@) + self.listed(),
    {
        push_opt(list, "limit", self.limit);
        push_opt(list, "offset", self.offset);
    }
}

impl<'a> Default for GetBlogFollowingRequest<'a> {
    /// Nothing set.
    fn default() -> (r: Self)
        ensures
            r == (GetBlogFollowingRequest { limit: None, offset: None }),
    {
        GetBlogFollowingRequest { limit: None, offset: None }
    }
}

/// Which of a blog's followers to fetch.
#[derive(Clone, Copy, Debug, PartialEq, Eq)]
pub struct GetBlogFollowersOptionalParams<'a> {
    pub limit: Option<&'a str>,
    pub offset: Option<&'a str>,
}

impl<'a> GetBlogFollowersOptionalParams<'a> {
    /// Nothing set.
    pub fn new() -> (r: GetBlogFollowersOptionalParams<'a>)
        ensures
            r == (GetBlogFollowersOptionalParams { limit: None, offset: None }),
    {
        GetBlogFollowersOptionalParams { limit: None, offset: None }
    }

    /// The number of results to return.
    pub fn limit(self, limit: &'a str) -> (r: Self)
        ensures
            r == (GetBlogFollowersOptionalParams { limit: Some(limit), ..self }),
    {
        GetBlogFollowersOptionalParams { limit: Some(limit), ..self }
    }

    /// The number of the first result to return, counting from zero.
    pub fn offset(self, offset: &'a str) -> (r: Self)
        ensures
            r == (GetBlogFollowersOptionalParams { offset: Some(offset), ..self }),
    {
        GetBlogFollowersOptionalParams { offset: Some(offset), ..self }
    }

    /// The parameters that are set, in the order of the fields.
    pub open spec fn listed(self) -> Seq<Pair> {
        opt_param("limit"@, self.limit)
            + opt_param("offset"@, self.offset)
    }

    /// Adds the parameters that are set to `list`, in the order of the fields.
    pub fn list_into(&self, list: &mut Vec<(&'a str, &'a str)>)
        ensures
            pairs_of(final(list)@) == pairs_of(old(list)@) + self.listed(),
    {
        push_opt(list, "limit", self.limit);
        push_opt(list, "offset", self.offset);
    }
}

impl<'a> Default for GetBlogFollowersOptionalParams<'a> {
    /// Nothing set.
    fn default() -> (r: Self)
        ensures
            r == (GetBlogFollowersOptionalParams { limit: None, offset: None }),
    {
        GetBlogFollowersOptionalParams { limit: None, offset: None }
    }
}

/// Which of a blog's posts to fetch.
#[derive(Clone, Copy, Debug, PartialEq, Eq)]
pub struct GetBlogPostsOptionalParams<'a> {
    pub post_type: Option<&'a str>,
    pub id: Option<&'a str>,
    pub tag: Option<&'a str>,
    pub limit: Option<&'a str>,
    pub offset: Option<&'a str>,
    pub reblog_info: Option<&'a str>,
    pub notes_info: Option<&'a str>,
    pub filter: Option<&'a str>,
    pub before: Option<&'a str>,
}

impl<'a> GetBlogPostsOptionalParams<'a> {
    /// Nothing set.
    pub fn new() -> (r: GetBlogPostsOptionalParams<'a>)
        ensures
            r == (GetBlogPostsOptionalParams {
                post_type: None,
                id: None,
                tag: None,
                limit: None,
                offset: None,
                reblog_info: None,
                notes_info: None,
                filter: None,
                before: None,
            }),
    {
        GetBlogPostsOptionalParams {
            post_type: None,
            id: None,
            tag: None,
            limit: None,
            offset: None,
            reblog_info: None,
            notes_info: None,
            filter: None,
            before: None,
        }
    }

    /// The type of post to return: `text`, `quote`, `link`, `answer`, `video`,
    /// `audio`, `photo` or `chat`. It is sent as the parameter `type` and also
    /// becomes part of the address.
    pub fn post_type(self, post_type: &'a str) -> (r: Self)
        ensures
            r == (GetBlogPostsOptionalParams { post_type: Some(post_type), ..self }),
    {
        GetBlogPostsOptionalParams { post_type: Some(post_type), ..self }
    }

    /// The one post to return.
    pub fn id(self, id: &'a str) -> (r: Self)
        ensures
            r == (GetBlogPostsOptionalParams { id: Some(id), ..self }),
    {
        GetBlogPostsOptionalParams { id: Some(id), ..self }
    }

    /// Only posts with this tag.
    pub fn tag(self, tag: &'a str) -> (r: Self)
        ensures
            r == (GetBlogPostsOptionalParams { tag: Some(tag), ..self }),
    {
        GetBlogPostsOptionalParams { tag: Some(tag), ..self }
    }

    /// The number of results to return.
    pub fn limit(self, limit: &'a str) -> (r: Self)
        ensures
            r == (GetBlogPostsOptionalParams { limit: Some(limit), ..self }),
    {
        GetBlogPostsOptionalParams { limit: Some(limit), ..self }
    }

    /// The number of the first result to return, counting from zero.
    pub fn offset(self, offset: &'a str) -> (r: Self)
        ensures
            r == (GetBlogPostsOptionalParams { offset: Some(offset), ..self }),
    {
        GetBlogPostsOptionalParams { offset: Some(offset), ..self }
    }

    /// Whether to return the reblog information: `true` or `false`.
    pub fn reblog_info(self, reblog_info: &'a str) -> (r: Self)
        ensures
            r == (GetBlogPostsOptionalParams { reblog_info: Some(reblog_info), ..self }),
    {
        GetBlogPostsOptionalParams { reblog_info: Some(reblog_info), ..self }
    }

    /// Whether to return the notes: `true` or `false`.
    pub fn notes_info(self, notes_info: &'a str) -> (r: Self)
        ensures
            r == (GetBlogPostsOptionalParams { notes_info: Some(notes_info), ..self }),
    {
        GetBlogPostsOptionalParams { notes_info: Some(notes_info), ..self }
    }

    /// The format of the posts: `text` or `raw`; HTML where it is not set.
    pub fn filter(self, filter: &'a str) -> (r: Self)
        ensures
            r == (GetBlogPostsOptionalParams { filter: Some(filter), ..self }),
    {
        GetBlogPostsOptionalParams { filter: Some(filter), ..self }
    }

    /// Only posts published before this time, in seconds since the epoch.
    pub fn before(self, before: &'a str) -> (r: Self)
        ensures
            r == (GetBlogPostsOptionalParams { before: Some(before), ..self }),
    {
        GetBlogPostsOptionalParams { before: Some(before), ..self }
    }

    /// The parameters that are set, in the order of the fields.
    pub open spec fn listed(self) -> Seq<Pair> {
        opt_param("type"@, self.post_type)
            + opt_param("id"@, self.id)
            + opt_param("tag"@, self.tag)
            + opt_param("limit"@, self.limit)
            + opt_param("offset"@, self.offset)
            + opt_param("reblog_info"@, self.reblog_info)
            + opt_param("notes_info"@, self.notes_info)
            + opt_param("filter"@, self.filter)
            + opt_param("before"@, self.before)
    }

    /// Adds the parameters that are set to `list`, in the order of the fields.
    pub fn list_into(&self, list: &mut Vec<(&'a str, &'a str)>)
        ensures
            pairs_of(final(list)@) == pairs_of(old(list)@) + self.listed(),
    {
        push_opt(list, "type", self.post_type);
        push_opt(list, "id", self.id);
        push_opt(list, "tag", self.tag);
        push_opt(list, "limit", self.limit);
        push_opt(list, "offset", self.offset);
        push_opt(list, "reblog_info", self.reblog_info);
        push_opt(list, "notes_info", self.notes_info);
        push_opt(list, "filter", self.filter);
        push_opt(list, "before", self.before);
    }
}

impl<'a> Default for GetBlogPostsOptionalParams<'a> {
    /// Nothing set.
    fn default() -> (r: Self)
        ensures
            r == (GetBlogPostsOptionalParams {
                post_type: None,
                id: None,
                tag: None,
                limit: None,
                offset: None,
                reblog_info: None,
                notes_info: None,
                filter: None,
                before: None,
            }),
    {
        GetBlogPostsOptionalParams {
            post_type: None,
            id: None,
            tag: None,
            limit: None,
            offset: None,
            reblog_info: None,
            notes_info: None,
            filter: None,
            before: None,
        }
    }
}

/// Which of a blog's queued posts to fetch.
#[derive(Clone, Copy, Debug, PartialEq, Eq)]
pub struct GetBlogPostsQueueOptionalParams<'a> {
    pub limit: Option<&'a str>,
    pub offset: Option<&'a str>,
    pub filter: Option<&'a str>,
}

impl<'a> GetBlogPostsQueueOptionalParams<'a> {
    /// Nothing set.
    pub fn new() -> (r: GetBlogPostsQueueOptionalParams<'a>)
        ensures
            r == (GetBlogPostsQueueOptionalParams { limit: None, offset: None, filter: None }),
    {
        GetBlogPostsQueueOptionalParams { limit: None, offset: None, filter: None }
    }

    /// The number of results to return.
    pub fn limit(self, limit: &'a str) -> (r: Self)
        ensures
            r == (GetBlogPostsQueueOptionalParams { limit: Some(limit), ..self }),
    {
        GetBlogPostsQueueOptionalParams { limit: Some(limit), ..self }
    }

    /// The number of the first result to return, counting from zero.
    pub fn offset(self, offset: &'a str) -> (r: Self)
        ensures
            r == (GetBlogPostsQueueOptionalParams { offset: Some(offset), ..self }),
    {
        GetBlogPostsQueueOptionalParams { offset: Some(offset), ..self }
    }

    /// The format of the posts: `text` or `raw`; HTML where it is not set.
    pub fn filter(self, filter: &'a str) -> (r: Self)
        ensures
            r == (GetBlogPostsQueueOptionalParams { filter: Some(filter), ..self }),
    {
        GetBlogPostsQueueOptionalParams { filter: Some(filter), ..self }
    }

    /// The parameters that are set, in the order of the fields.
    pub open spec fn listed(self) -> Seq<Pair> {
        opt_param("limit"@, self.limit)
            + opt_param("offset"@, self.offset)
            + opt_param("filter"@, self.filter)
    }

    /// Adds the parameters that are set to `list`, in the order of the fields.
    pub fn list_into(&self, list: &mut Vec<(&'a str, &'a str)>)
        ensures
            pairs_of(final(list)@) == pairs_of(old(list)@) + self.listed(),
    {
        push_opt(list, "limit", self.limit);
        push_opt(list, "offset", self.offset);
        push_opt(list, "filter", self.filter);
    }
}

impl<'a> Default for GetBlogPostsQueueOptionalParams<'a> {
    /// Nothing set.
    fn default() -> (r: Self)
        ensures
            r == (GetBlogPostsQueueOptionalParams { limit: None, offset: None, filter: None }),
    {
        GetBlogPostsQueueOptionalParams { limit: None, offset: None, filter: None }
    }
}

/// Which of a blog's drafts to fetch.
#[derive(Clone, Copy, Debug, PartialEq, Eq)]
pub struct GetBlogPostsDraftOptionalParams<'a> {
    pub before_id: Option<&'a str>,
    pub filter: Option<&'a str>,
}

impl<'a> GetBlogPostsDraftOptionalParams<'a> {
    /// Nothing set.
    pub fn new() -> (r: GetBlogPostsDraftOptionalParams<'a>)
        ensures
            r == (GetBlogPostsDraftOptionalParams { before_id: None, filter: None }),
    {
        GetBlogPostsDraftOptionalParams { before_id: None, filter: None }
    }

    /// Only the drafts that come after the draft with this id.
    pub fn before_id(self, before_id: &'a str) -> (r: Self)
        ensures
            r == (GetBlogPostsDraftOptionalParams { before_id: Some(before_id), ..self }),
    {
        GetBlogPostsDraftOptionalParams { before_id: Some(before_id), ..self }
    }

    /// The format of the posts: `text` or `raw`; HTML where it is not set.
    pub fn filter(self, filter: &'a str) -> (r: Self)
        ensures
            r == (GetBlogPostsDraftOptionalParams { filter: Some(filter), ..self }),
    {
        GetBlogPostsDraftOptionalParams { filter: Some(filter), ..self }
    }

    /// The parameters that are set, in the order of the fields.
    pub open spec fn listed(self) -> Seq<Pair> {
        opt_param("before_id"@, self.before_id)
            + opt_param("filter"@, self.filter)
    }

    /// Adds the parameters that are set to `list`, in the order of the fields.
    pub fn list_into(&self, list: &mut Vec<(&'a str, &'a str)>)
        ensures
            pairs_of(final(list)@) == pairs_of(old(list)@) + self.listed(),
    {
        push_opt(list, "before_id", self.before_id);
        push_opt(list, "filter", self.filter);
    }
}

impl<'a> Default for GetBlogPostsDraftOptionalParams<'a> {
    /// Nothing set.
    fn default() -> (r: Self)
        ensures
            r == (GetBlogPostsDraftOptionalParams { before_id: None, filter: None }),
    {
        GetBlogPostsDraftOptionalParams { before_id: None, filter: None }
    }
}

/// Which of a blog's submissions to fetch.
#[derive(Clone, Copy, Debug, PartialEq, Eq)]
pub struct GetBlogPostsSubmissionOptionalParams<'a> {
    pub offset: Option<&'a str>,
    pub filter: Option<&'a str>,
}

impl<'a> GetBlogPostsSubmissionOptionalParams<'a> {
    /// Nothing set.
    pub fn new() -> (r: GetBlogPostsSubmissionOptionalParams<'a>)
        ensures
            r == (GetBlogPostsSubmissionOptionalParams { offset: None, filter: None }),
    {
        GetBlogPostsSubmissionOptionalParams { offset: None, filter: None }
    }

    /// The number of the first result to return, counting from zero.
    pub fn offset(self, offset: &'a str) -> (r: Self)
        ensures
            r == (GetBlogPostsSubmissionOptionalParams { offset: Some(offset), ..self }),
    {
        GetBlogPostsSubmissionOptionalParams { offset: Some(offset), ..self }
    }

    /// The format of the posts: `text` or `raw`; HTML where it is not set.
    pub fn filter(self, filter: &'a str) -> (r: Self)
        ensures
            r == (GetBlogPostsSubmissionOptionalParams { filter: Some(filter), ..self }),
    {
        GetBlogPostsSubmissionOptionalParams { filter: Some(filter), ..self }
    }

    /// The parameters that are set, in the order of the fields.
    pub open spec fn listed(self) -> Seq<Pair> {
        opt_param("offset"@, self.offset)
            + opt_param("filter"@, self.filter)
    }

    /// Adds the parameters that are set to `list`, in the order of the fields.
    pub fn list_into(&self, list: &mut Vec<(&'a str, &'a str)>)
        ensures
            pairs_of(final(list)@) == pairs_of(old(list)@) + self.listed(),
    {
        push_opt(list, "offset", self.offset);
        push_opt(list, "filter", self.filter);
    }
}

impl<'a> Default for GetBlogPostsSubmissionOptionalParams<'a> {
    /// Nothing set.
    fn default() -> (r: Self)
        ensures
            r == (GetBlogPostsSubmissionOptionalParams { offset: None, filter: None }),
    {
        GetBlogPostsSubmissionOptionalParams { offset: None, filter: None }
    }
}

/// What may accompany a post of any type.
#[derive(Clone, Copy, Debug, PartialEq, Eq)]
pub struct LegacyPostOptionalParams<'a> {
    pub state: Option<&'a str>,
    pub tags: Option<&'a str>,
    pub tweet: Option<&'a str>,
    pub date: Option<&'a str>,
    pub format: Option<&'a str>,
    pub slug: Option<&'a str>,
    pub native_inline_images: Option<&'a str>,
}

impl<'a> LegacyPostOptionalParams<'a> {
    /// Nothing set.
    pub fn new() -> (r: LegacyPostOptionalParams<'a>)
        ensures
            r == (LegacyPostOptionalParams {
                state: None,
                tags: None,
                tweet: None,
                date: None,
                format: None,
                slug: None,
                native_inline_images: None,
            }),
    {
        LegacyPostOptionalParams {
            state: None,
            tags: None,
            tweet: None,
            date: None,
            format: None,
            slug: None,
            native_inline_images: None,
        }
    }

    /// The state of the post: `published`, `draft`, `queue` or `private`.
    pub fn state(self, state: &'a str) -> (r: Self)
        ensures
            r == (LegacyPostOptionalParams { state: Some(state), ..self }),
    {
        LegacyPostOptionalParams { state: Some(state), ..self }
    }

    /// The tags of the post, separated by commas.
    pub fn tags(self, tags: &'a str) -> (r: Self)
        ensures
            r == (LegacyPostOptionalParams { tags: Some(tags), ..self }),
    {
        LegacyPostOptionalParams { tags: Some(tags), ..self }
    }

    /// The text of the tweet that announces the post; `off` for none.
    pub fn tweet(self, tweet: &'a str) -> (r: Self)
        ensures
            r == (LegacyPostOptionalParams { tweet: Some(tweet), ..self }),
    {
        LegacyPostOptionalParams { tweet: Some(tweet), ..self }
    }

    /// The date of the post, as GMT date and time.
    pub fn date(self, date: &'a str) -> (r: Self)
        ensures
            r == (LegacyPostOptionalParams { date: Some(date), ..self }),
    {
        LegacyPostOptionalParams { date: Some(date), ..self }
    }

    /// The markup of the post: `html` or `markdown`.
    pub fn format(self, format: &'a str) -> (r: Self)
        ensures
            r == (LegacyPostOptionalParams { format: Some(format), ..self }),
    {
        LegacyPostOptionalParams { format: Some(format), ..self }
    }

    /// A short text that ends the address of the post.
    pub fn slug(self, slug: &'a str) -> (r: Self)
        ensures
            r == (LegacyPostOptionalParams { slug: Some(slug), ..self }),
    {
        LegacyPostOptionalParams { slug: Some(slug), ..self }
    }

    /// Whether to turn external image addresses into images of the server.
    pub fn native_inline_images(self, native_inline_images: &'a str) -> (r: Self)
        ensures
            r == (LegacyPostOptionalParams { native_inline_images: Some(native_inline_images), ..self }),
    {
        LegacyPostOptionalParams { native_inline_images: Some(native_inline_images), ..self }
    }

    /// The parameters that are set, in the order of the fields.
    pub open spec fn listed(self) -> Seq<Pair> {
        opt_param("state"@, self.state)
            + opt_param("tags"@, self.tags)
            + opt_param("tweet"@, self.tweet)
            + opt_param("date"@, self.date)
            + opt_param("format"@, self.format)
            + opt_param("slug"@, self.slug)
            + opt_param("native_inline_images"@, self.native_inline_images)
    }

    /// Adds the parameters that are set to `list`, in the order of the fields.
    pub fn list_into(&self, list: &mut Vec<(&'a str, &'a str)>)
        ensures
            pairs_of(final(list)@) == pairs_of(old(list)@) + self.listed(),
    {
        push_opt(list, "state", self.state);
        push_opt(list, "tags", self.tags);
        push_opt(list, "tweet", self.tweet);
        push_opt(list, "date", self.date);
        push_opt(list, "format", self.format);
        push_opt(list, "slug", self.slug);
        push_opt(list, "native_inline_images", self.native_inline_images);
    }
}

impl<'a> Default for LegacyPostOptionalParams<'a> {
    /// Nothing set.
    fn default() -> (r: Self)
        ensures
            r == (LegacyPostOptionalParams {
                state: None,
                tags: None,
                tweet: None,
                date: None,
                format: None,
                slug: None,
                native_inline_images: None,
            }),
    {
        LegacyPostOptionalParams {
            state: None,
            tags: None,
            tweet: None,
            date: None,
            format: None,
            slug: None,
            native_inline_images: None,
        }
    }
}

/// What a post request does: it creates a post, changes one, or reblogs one.
#[derive(Clone, Copy, Debug, PartialEq, Eq)]
pub enum PostAction<'a> {
    /// Create a new post.
    New,
    /// Change the post with this id.
    Edit(&'a str),
    /// Reblog the post `id`, proving knowledge of it by its `reblog_key`.
    Reblog { id: &'a str, reblog_key: &'a str, comment: &'a str, native_inline_images: &'a str },
}

impl<'a> PostAction<'a> {
    /// The path of the operation under the blog's address.
    pub open spec fn path(self) -> Seq<char> {
        match self {
            PostAction::New => "/post"@,
            PostAction::Edit(_) => "/post/edit"@,
            PostAction::Reblog { .. } => "/post/reblog"@,
        }
    }

    /// The parameters that the action adds to the form.
    pub open spec fn listed(self) -> Seq<Pair> {
        match self {
            PostAction::New => Seq::empty(),
            PostAction::Edit(id) => seq![("id"@, id@)],
            PostAction::Reblog { id, reblog_key, comment, native_inline_images } => seq![
                ("id"@, id@),
                ("reblog_key"@, reblog_key@),
                ("comment"@, comment@),
                ("native_inline_images"@, native_inline_images@),
            ],
        }
    }

    /// Adds the parameters of the action to `list` and returns the path of
    /// the operation.
    pub fn list_into(&self, list: &mut Vec<(&'a str, &'a str)>) -> (path: &'static str)
        ensures
            pairs_of(final(list)@) == pairs_of(old(list)@) + self.listed(),
            path@ == self.path(),
    {
        let ghost start = pairs_of(list@);
        match self {
            PostAction::New => {
                assert(start + Seq::<Pair>::empty() == start);
                "/post"
            },
            PostAction::Edit(id) => {
                push_param(list, "id", id);
                assert(start.push(("id"@, id@)) == start + seq![("id"@, id@)]);
                "/post/edit"
            },
            PostAction::Reblog { id, reblog_key, comment, native_inline_images } => {
                push_param(list, "id", id);
                push_param(list, "reblog_key", reblog_key);
                push_param(list, "comment", comment);
                push_param(list, "native_inline_images", native_inline_images);
                assert(pairs_of(list@) == start + self.listed());
                "/post/reblog"
            },
        }
    }
}

/// The content of a post, by type.
#[allow(inconsistent_fields)]
#[derive(Debug, PartialEq, Eq)]
pub enum PostType<'a> {
    /// A text with an optional title.
    Text { title: Option<&'a str>, body: &'a str },
    /// The photo comes from `source`, a remote address, or from `data64`,
    /// inline Base64 data, or from `data`, the paths of local files: the
    /// first of these that is set, in this order.
    Photo {
        caption: Option<&'a str>,
        link: Option<&'a str>,
        source: Option<&'a str>,
        data: Option<Vec<&'a str>>,
        data64: Option<&'a str>,
    },
    /// A quotation, with the place it comes from.
    Quote { quote: &'a str, source: Option<&'a str> },
    /// A link to the address `url`.
    Link {
        title: Option<&'a str>,
        url: &'a str,
        description: Option<&'a str>,
        thumbnail: Option<&'a str>,
        excerpt: Option<&'a str>,
        author: Option<&'a str>,
    },
    /// A conversation, one line for each turn.
    Chat { title: Option<&'a str>, conversation: &'a str },
    /// The audio comes from `external_url` where that is set, else from
    /// `data`.
    Audio { caption: Option<&'a str>, external_url: Option<&'a str>, data: Option<&'a str> },
    /// The video comes from `embed` where that is set, else from `data`.
    Video { caption: Option<&'a str>, embed: Option<&'a str>, data: Option<&'a str> },
}

impl<'a> PostType<'a> {
    /// The text fields that the content adds to the form, or the reason for
    /// which the content is rejected: a photo, an audio or a video post that
    /// names no source at all.
    pub open spec fn fields(self) -> Result<Seq<Pair>, TumblrClientError> {
        match self {
            PostType::Text { title, body } => Ok(
                seq![("type"@, "text"@), ("body"@, body@)] + opt_param("title"@, title),
            ),
            PostType::Photo { caption, link, source, data, data64 } => {
                let base = seq![("type"@, "photo"@)] + opt_param("caption"@, caption) + opt_param(
                    "link"@,
                    link,
                );
                match selected(source, data64, data) {
                    Ok(UploadPayload::Remote(address)) => Ok(base.push(("source"@, address@))),
                    Ok(UploadPayload::Inline(encoded)) => Ok(base.push(("data64"@, encoded@))),
                    Ok(UploadPayload::Files(_)) => Ok(base),
                    Err(e) => Err(e),
                }
            },
            PostType::Quote { quote, source } => Ok(
                seq![("type"@, "quote"@), ("quote"@, quote@)] + opt_param("source"@, source),
            ),
            PostType::Link { title, url, description, thumbnail, excerpt, author } => Ok(
                seq![("type"@, "link"@), ("url"@, url@)] + opt_param("title"@, title) + opt_param(
                    "description"@,
                    description,
                ) + opt_param("thumbnail"@, thumbnail) + opt_param("excerpt"@, excerpt)
                    + opt_param("author"@, author),
            ),
            PostType::Chat { title, conversation } => Ok(
                seq![("type"@, "chat"@), ("conversation"@, conversation@)] + opt_param(
                    "title"@,
                    title,
                ),
            ),
            PostType::Audio { caption, external_url, data } => {
                let base = seq![("type"@, "audio"@)] + opt_param("caption"@, caption);
                match (external_url, data) {
                    (Some(address), _) => Ok(base.push(("external_url"@, address@))),
                    (None, Some(d)) => Ok(base.push(("data"@, d@))),
                    (None, None) => Err(TumblrClientError::MissingAudioSource),
                }
            },
            PostType::Video { caption, embed, data } => {
                let base = seq![("type"@, "video"@)] + opt_param("caption"@, caption);
                match (embed, data) {
                    (Some(code), _) => Ok(base.push(("embed"@, code@))),
                    (None, Some(d)) => Ok(base.push(("data"@, d@))),
                    (None, None) => Err(TumblrClientError::MissingVideoSource),
                }
            },
        }
    }

    /// The local files that the content uploads: those of a photo post that
    /// names neither a remote source nor inline data.
    pub open spec fn files(self) -> Option<Seq<&'a str>> {
        match self {
            PostType::Photo { caption, link, source, data, data64 } => match selected(
                source,
                data64,
                data,
            ) {
                Ok(UploadPayload::Files(files)) => Some(files@),
                _ => None,
            },
            _ => None,
        }
    }
}

/// What `list_into` gives for a content: its files, or the reason for
/// which the content is rejected.
pub open spec fn content_listed<'a>(
    r: Result<Option<Vec<&'a str>>, TumblrClientError>,
    content: PostType<'a>,
    before: Seq<Pair>,
    after: Seq<Pair>,
) -> bool {
    match content.fields() {
        Err(e) => r == Err::<Option<Vec<&'a str>>, TumblrClientError>(e),
        Ok(fields) => after == before + fields && match (r, content.files()) {
            (Ok(Some(paths)), Some(files)) => paths@ == files,
            (Ok(None), None) => true,
            _ => false,
        },
    }
}

/// Adds the parameter `name` to `list`, which holds `head` and then `fields`.
fn add_param<'a>(
    list: &mut Vec<(&'a str, &'a str)>,
    name: &'a str,
    value: &'a str,
    Ghost(head): Ghost<Seq<Pair>>,
    Ghost(fields): Ghost<Seq<Pair>>,
)
    requires
        pairs_of(old(list)@) == head + fields,
    ensures
        pairs_of(final(list)@) == head + fields.push((name@, value@)),
{
    push_param(list, name, value);
    assert((head + fields).push((name@, value@)) == head + fields.push((name@, value@)));
}

/// Adds the parameter `name` to `list`, which holds `head` and then `fields`,
/// where `value` is set.
fn add_opt<'a>(
    list: &mut Vec<(&'a str, &'a str)>,
    name: &'a str,
    value: Option<&'a str>,
    Ghost(head): Ghost<Seq<Pair>>,
    Ghost(fields): Ghost<Seq<Pair>>,
)
    requires
        pairs_of(old(list)@) == head + fields,
    ensures
        pairs_of(final(list)@) == head + (fields + opt_param(name@, value)),
{
    push_opt(list, name, value);
    assert((head + fields) + opt_param(name@, value) == head + (fields + opt_param(name@, value)));
}

/// Adds the type of a post to `list`.
fn add_type<'a>(list: &mut Vec<(&'a str, &'a str)>, value: &'a str)
    ensures
        pairs_of(final(list)@) == pairs_of(old(list)@) + seq![("type"@, value@)],
{
    let ghost head = pairs_of(list@);
    push_param(list, "type", value);
    assert(head.push(("type"@, value@)) == head + seq![("type"@, value@)]);
}

impl<'a> PostType<'a> {
    /// Adds the text fields of the content to `list` and returns the local
    /// files to upload, where the content is a photo given as files. Content
    /// that names no source is rejected.
    pub fn list_into(self, list: &mut Vec<(&'a str, &'a str)>) -> (r: Result<
        Option<Vec<&'a str>>,
        TumblrClientError,
    >)
        ensures
            content_listed(r, self, pairs_of(old(list)@), pairs_of(final(list)@)),
    {
        let ghost head = pairs_of(list@);
        match self {
            PostType::Text { title, body } => {
                let ghost kind = seq![("type"@, "text"@)];
                add_type(list, "text");
                add_param(list, "body", body, Ghost(head), Ghost(kind));
                add_opt(list, "title", title, Ghost(head), Ghost(kind.push(("body"@, body@))));
                assert(kind.push(("body"@, body@)) == seq![("type"@, "text"@), ("body"@, body@)]);
                Ok(None)
            },
            PostType::Photo { caption, link, source, data, data64 } => {
                let ghost kind = seq![("type"@, "photo"@)];
                let ghost base = kind + opt_param("caption"@, caption) + opt_param("link"@, link);
                add_type(list, "photo");
                add_opt(list, "caption", caption, Ghost(head), Ghost(kind));
                add_opt(
                    list,
                    "link",
                    link,
                    Ghost(head),
                    Ghost(kind + opt_param("caption"@, caption)),
                );
                match select_upload(source, data64, data) {
                    Ok(UploadPayload::Remote(address)) => {
                        add_param(list, "source", address, Ghost(head), Ghost(base));
                        Ok(None)
                    },
                    Ok(UploadPayload::Inline(encoded)) => {
                        add_param(list, "data64", encoded, Ghost(head), Ghost(base));
                        Ok(None)
                    },
                    Ok(UploadPayload::Files(paths)) => Ok(Some(paths)),
                    Err(e) => Err(e),
                }
            },
            PostType::Quote { quote, source } => {
                let ghost kind = seq![("type"@, "quote"@)];
                add_type(list, "quote");
                add_param(list, "quote", quote, Ghost(head), Ghost(kind));
                add_opt(list, "source", source, Ghost(head), Ghost(kind.push(("quote"@, quote@))));
                assert(kind.push(("quote"@, quote@)) == seq![
                    ("type"@, "quote"@),
                    ("quote"@, quote@),
                ]);
                Ok(None)
            },
            PostType::Link { title, url, description, thumbnail, excerpt, author } => {
                let ghost kind = seq![("type"@, "link"@)];
                let ghost f1 = seq![("type"@, "link"@), ("url"@, url@)];
                let ghost f2 = f1 + opt_param("title"@, title);
                let ghost f3 = f2 + opt_param("description"@, description);
                let ghost f4 = f3 + opt_param("thumbnail"@, thumbnail);
                let ghost f5 = f4 + opt_param("excerpt"@, excerpt);
                add_type(list, "link");
                add_param(list, "url", url, Ghost(head), Ghost(kind));
                assert(kind.push(("url"@, url@)) == f1);
                add_opt(list, "title", title, Ghost(head), Ghost(f1));
                add_opt(list, "description", description, Ghost(head), Ghost(f2));
                add_opt(list, "thumbnail", thumbnail, Ghost(head), Ghost(f3));
                add_opt(list, "excerpt", excerpt, Ghost(head), Ghost(f4));
                add_opt(list, "author", author, Ghost(head), Ghost(f5));
                Ok(None)
            },
            PostType::Chat { title, conversation } => {
                let ghost kind = seq![("type"@, "chat"@)];
                add_type(list, "chat");
                add_param(list, "conversation", conversation, Ghost(head), Ghost(kind));
                add_opt(
                    list,
                    "title",
                    title,
                    Ghost(head),
                    Ghost(kind.push(("conversation"@, conversation@))),
                );
                assert(kind.push(("conversation"@, conversation@)) == seq![
                    ("type"@, "chat"@),
                    ("conversation"@, conversation@),
                ]);
                Ok(None)
            },
            PostType::Audio { caption, external_url, data } => {
                let ghost kind = seq![("type"@, "audio"@)];
                let ghost base = kind + opt_param("caption"@, caption);
                match (external_url, data) {
                    (Some(address), _) => {
                        add_type(list, "audio");
                        add_opt(list, "caption", caption, Ghost(head), Ghost(kind));
                        add_param(list, "external_url", address, Ghost(head), Ghost(base));
                        Ok(None)
                    },
                    (None, Some(d)) => {
                        add_type(list, "audio");
                        add_opt(list, "caption", caption, Ghost(head), Ghost(kind));
                        add_param(list, "data", d, Ghost(head), Ghost(base));
                        Ok(None)
                    },
                    (None, None) => Err(TumblrClientError::MissingAudioSource),
                }
            },
            PostType::Video { caption, embed, data } => {
                let ghost kind = seq![("type"@, "video"@)];
                let ghost base = kind + opt_param("caption"@, caption);
                match (embed, data) {
                    (Some(code), _) => {
                        add_type(list, "video");
                        add_opt(list, "caption", caption, Ghost(head), Ghost(kind));
                        add_param(list, "embed", code, Ghost(head), Ghost(base));
                        Ok(None)
                    },
                    (None, Some(d)) => {
                        add_type(list, "video");
                        add_opt(list, "caption", caption, Ghost(head), Ghost(kind));
                        add_param(list, "data", d, Ghost(head), Ghost(base));
                        Ok(None)
                    },
                    (None, None) => Err(TumblrClientError::MissingVideoSource),
                }
            },
        }
    }
}

/// The parameters of the optional structure, where there is one.
pub open spec fn legacy_listed(optional_params: Option<LegacyPostOptionalParams>) -> Seq<Pair> {
    match optional_params {
        Some(p) => p.listed(),
        None => Seq::empty(),
    }
}

/// The text fields of a post request as they are written: the optional
/// parameters that are set, then those of the action, then those of the
/// content. Where a name is written twice the request carries it once, with
/// the value written last.
pub open spec fn post_form(
    posts_action: PostAction,
    fields: Seq<Pair>,
    optional_params: Option<LegacyPostOptionalParams>,
) -> Seq<Pair> {
    legacy_listed(optional_params) + posts_action.listed() + fields
}

/// `r` is the request that posts `content` to the blog, or the reason for
/// which the content is rejected.
pub open spec fn is_post_request(
    r: Result<ApiRequest, TumblrClientError>,
    client: TumblrClient,
    blog_identifier: Seq<char>,
    posts_action: PostAction,
    posts_type: PostType,
    optional_params: Option<LegacyPostOptionalParams>,
) -> bool {
    let api = blog_api(blog_identifier, posts_action.path());
    match posts_type.fields() {
        Err(e) => r == Err::<ApiRequest, TumblrClientError>(e),
        Ok(fields) => {
            let form = post_form(posts_action, fields, optional_params);
            match (r, posts_type.files()) {
                (Ok(request), Some(files)) => {
                    &&& request.method == Method::Post
                    &&& request.url@ == api
                    &&& signed_by(request.authorization, client.keys, "POST"@, api, form)
                    &&& is_multipart(request.body, set_of(form), "data"@, files)
                },
                (Ok(request), None) => is_signed_post(request, client.keys, api, form),
                (Err(_), _) => false,
            }
        },
    }
}

impl TumblrClient {
    /// The request for general information about a blog.
    pub fn get_blog_info(&self, blog_identifier: &str) -> (r: ApiRequest)
        ensures
            is_plain_get(
                r,
                request_url(
                    blog_api(blog_identifier@, "/info"@),
                    seq![("api_key"@, self.keys.consumer_key@)],
                ),
            ),
    {
        let api = concat3(BLOG, blog_identifier, "/info");
        let mut params: Vec<(&str, &str)> = Vec::new();
        push_param(&mut params, "api_key", self.keys.consumer_key.as_str());
        assert(pairs_of(params@) == seq![("api_key"@, self.keys.consumer_key@)]);
        TumblrClient::plain_get(api.as_str(), params.as_slice())
    }

    /// The request for a blog's avatar; the answer is the image itself. The
    /// size, where one is chosen, ends the address.
    pub fn get_blog_avatar(
        &self,
        blog_identifier: &str,
        optional_params: Option<GetBlogAvatarOptionalParams>,
    ) -> (r: ApiRequest)
        ensures
            is_plain_get(
                r,
                blog_api(blog_identifier@, "/avatar/"@) + match optional_params {
                    Some(p) => match p.chosen() {
                        Some(size) => size@,
                        None => Seq::empty(),
                    },
                    None => Seq::empty(),
                },
            ),
    {
        let mut url: Vec<char> = chars_of(BLOG);
        push_str(&mut url, blog_identifier);
        push_str(&mut url, "/avatar/");
        let ghost stem = url@;
        match optional_params {
            Some(p) => match p.chosen_size() {
                Some(size) => {
                    push_str(&mut url, size);
                },
                None => {
                    assert(stem + Seq::<char>::empty() == stem);
                },
            },
            None => {
                assert(stem + Seq::<char>::empty() == stem);
            },
        }
        ApiRequest {
            method: Method::Get,
            url: string_of(&url),
            authorization: None,
            body: Body::Empty,
        }
    }

    /// The request for the posts that a blog likes.
    pub fn get_blog_likes(
        &self,
        blog_identifier: &str,
        optional_params: Option<GetBlogLikesOptionalParams>,
    ) -> (r: ApiRequest)
        ensures
            is_plain_get(
                r,
                request_url(
                    blog_api(blog_identifier@, "/likes"@),
                    seq![("api_key"@, self.keys.consumer_key@)] + match optional_params {
                        Some(p) => p.listed(),
                        None => Seq::empty(),
                    },
                ),
            ),
    {
        let api = concat3(BLOG, blog_identifier, "/likes");
        let mut params: Vec<(&str, &str)> = Vec::new();
        push_param(&mut params, "api_key", self.keys.consumer_key.as_str());
        let ghost key = pairs_of(params@);
        assert(key == seq![("api_key"@, self.keys.consumer_key@)]);
        match &optional_params {
            Some(p) => {
                p.list_into(&mut params);
            },
            None => {
                assert(key + Seq::<Pair>::empty() == key);
            },
        }
        TumblrClient::plain_get(api.as_str(), params.as_slice())
    }

    /// The signed request for the blogs that a blog follows.
    pub fn get_blog_following(&self, blog_identifier: &str, request: GetBlogFollowingRequest) -> (r:
        ApiRequest)
        ensures
            is_signed_get(r, self.keys, blog_api(blog_identifier@, "/following"@), request.listed()),
    {
        let api = concat3(BLOG, blog_identifier, "/following");
        let mut params: Vec<(&str, &str)> = Vec::new();
        assert(pairs_of(params@) == Seq::<Pair>::empty());
        request.list_into(&mut params);
        assert(Seq::<Pair>::empty() + request.listed() == request.listed());
        self.signed_get(api.as_str(), params.as_slice())
    }

    /// The signed request for a blog's followers.
    pub fn get_blog_followers(
        &self,
        blog_identifier: &str,
        optional_params: Option<GetBlogFollowersOptionalParams>,
    ) -> (r: ApiRequest)
        ensures
            is_signed_get(
                r,
                self.keys,
                blog_api(blog_identifier@, "/followers"@),
                match optional_params {
                    Some(p) => p.listed(),
                    None => Seq::empty(),
                },
            ),
    {
        let api = concat3(BLOG, blog_identifier, "/followers");
        let mut params: Vec<(&str, &str)> = Vec::new();
        assert(pairs_of(params@) == Seq::<Pair>::empty());
        match &optional_params {
            Some(p) => {
                p.list_into(&mut params);
                assert(Seq::<Pair>::empty() + p.listed() == p.listed());
            },
            None => {},
        }
        self.signed_get(api.as_str(), params.as_slice())
    }

    /// The request for a blog's published posts. Where a type of post is
    /// chosen it is sent as a parameter and also ends the address.
    pub fn get_blog_posts(
        &self,
        blog_identifier: &str,
        optional_params: Option<GetBlogPostsOptionalParams>,
    ) -> (r: ApiRequest)
        ensures
            is_plain_get(
                r,
                request_url(
                    blog_api(blog_identifier@, "/posts"@) + match optional_params {
                        Some(GetBlogPostsOptionalParams { post_type: Some(t), .. }) => seq!['/']
                            + t@,
                        _ => Seq::empty(),
                    },
                    seq![("api_key"@, self.keys.consumer_key@)] + match optional_params {
                        Some(p) => p.listed(),
                        None => Seq::empty(),
                    },
                ),
            ),
    {
        let mut api: Vec<char> = chars_of(BLOG);
        push_str(&mut api, blog_identifier);
        push_str(&mut api, "/posts");
        let ghost stem = api@;
        let mut params: Vec<(&str, &str)> = Vec::new();
        push_param(&mut params, "api_key", self.keys.consumer_key.as_str());
        let ghost key = pairs_of(params@);
        assert(key == seq![("api_key"@, self.keys.consumer_key@)]);
        match &optional_params {
            Some(p) => {
                match p.post_type {
                    Some(t) => {
                        api.push('/');
                        push_str(&mut api, t);
                        assert(api@ == stem + (seq!['/'] + t@));
                    },
                    None => {
                        assert(stem + Seq::<char>::empty() == stem);
                    },
                }
                p.list_into(&mut params);
            },
            None => {
                assert(stem + Seq::<char>::empty() == stem);
                assert(key + Seq::<Pair>::empty() == key);
            },
        }
        let api_text = string_of(&api);
        TumblrClient::plain_get(api_text.as_str(), params.as_slice())
    }

    /// The signed request for a blog's queued posts.
    pub fn get_blog_posts_queue(
        &self,
        blog_identifier: &str,
        optional_params: Option<GetBlogPostsQueueOptionalParams>,
    ) -> (r: ApiRequest)
        ensures
            is_signed_get(
                r,
                self.keys,
                blog_api(blog_identifier@, "/posts/queue"@),
                match optional_params {
                    Some(p) => p.listed(),
                    None => Seq::empty(),
                },
            ),
    {
        let api = concat3(BLOG, blog_identifier, "/posts/queue");
        let mut params: Vec<(&str, &str)> = Vec::new();
        assert(pairs_of(params@) == Seq::<Pair>::empty());
        match &optional_params {
            Some(p) => {
                p.list_into(&mut params);
                assert(Seq::<Pair>::empty() + p.listed() == p.listed());
            },
            None => {},
        }
        self.signed_get(api.as_str(), params.as_slice())
    }

    /// The signed request for a blog's drafts.
    pub fn get_blog_posts_draft(
        &self,
        blog_identifier: &str,
        optional_params: Option<GetBlogPostsDraftOptionalParams>,
    ) -> (r: ApiRequest)
        ensures
            is_signed_get(
                r,
                self.keys,
                blog_api(blog_identifier@, "/posts/draft"@),
                match optional_params {
                    Some(p) => p.listed(),
                    None => Seq::empty(),
                },
            ),
    {
        let api = concat3(BLOG, blog_identifier, "/posts/draft");
        let mut params: Vec<(&str, &str)> = Vec::new();
        assert(pairs_of(params@) == Seq::<Pair>::empty());
        match &optional_params {
            Some(p) => {
                p.list_into(&mut params);
                assert(Seq::<Pair>::empty() + p.listed() == p.listed());
            },
            None => {},
        }
        self.signed_get(api.as_str(), params.as_slice())
    }

    /// The signed request for the posts submitted to a blog.
    pub fn get_blog_posts_submission(
        &self,
        blog_identifier: &str,
        optional_params: Option<GetBlogPostsSubmissionOptionalParams>,
    ) -> (r: ApiRequest)
        ensures
            is_signed_get(
                r,
                self.keys,
                blog_api(blog_identifier@, "/posts/submission"@),
                match optional_params {
                    Some(p) => p.listed(),
                    None => Seq::empty(),
                },
            ),
    {
        let api = concat3(BLOG, blog_identifier, "/posts/submission");
        let mut params: Vec<(&str, &str)> = Vec::new();
        assert(pairs_of(params@) == Seq::<Pair>::empty());
        match &optional_params {
            Some(p) => {
                p.list_into(&mut params);
                assert(Seq::<Pair>::empty() + p.listed() == p.listed());
            },
            None => {},
        }
        self.signed_get(api.as_str(), params.as_slice())
    }

    /// The signed request that creates, changes or reblogs a post.
    ///
    /// The text fields are the optional parameters that are set, then the
    /// parameters of the action, then those of the content; a name that
    /// occurs twice among them is sent once, with the value written last.
    /// The signature covers exactly the fields that are sent. A photo given
    /// as local files is sent as a multipart body: the text fields as they
    /// stand, then the files as the parts `data[0]`, `data[1]` and so on, in
    /// the order given; every other post is sent as a form.
    ///
    /// The source of a photo is the remote address where one is set, else
    /// the inline data, else the files. A photo, audio or video post that
    /// names no source is rejected, and nothing is prepared.
    pub fn legacy_post<'a>(
        &self,
        blog_identifier: &str,
        posts_action: PostAction<'a>,
        posts_type: PostType<'a>,
        optional_params: Option<LegacyPostOptionalParams<'a>>,
    ) -> (r: Result<ApiRequest, TumblrClientError>)
        ensures
            is_post_request(r, *self, blog_identifier@, posts_action, posts_type, optional_params),
    {
        let mut v: Vec<(&str, &str)> = Vec::new();
        assert(pairs_of(v@) == Seq::<Pair>::empty());
        match &optional_params {
            Some(p) => {
                p.list_into(&mut v);
                assert(Seq::<Pair>::empty() + p.listed() == p.listed());
            },
            None => {},
        }
        let path = posts_action.list_into(&mut v);
        let api = concat3(BLOG, blog_identifier, path);
        match posts_type.list_into(&mut v) {
            Ok(Some(paths)) => {
                let set = param_set(v.as_slice());
                Ok(
                    ApiRequest {
                        method: Method::Post,
                        url: api.clone(),
                        authorization: Some(self.sign_set("POST", api.as_str(), &set)),
                        body: multipart_body(&set, "data", paths.as_slice()),
                    },
                )
            },
            Ok(None) => Ok(self.signed_post(api.as_str(), v.as_slice())),
            Err(e) => Err(e),
        }
    }

    /// The signed request that deletes the post `id` of a blog.
    pub fn delete_post(&self, blog_identifier: &str, id: &str) -> (r: ApiRequest)
        ensures
            is_signed_post(
                r,
                self.keys,
                blog_api(blog_identifier@, "/post/delete"@),
                seq![("id"@, id@)],
            ),
    {
        let api = concat3(BLOG, blog_identifier, "/post/delete");
        let mut form: Vec<(&str, &str)> = Vec::new();
        push_param(&mut form, "id", id);
        assert(pairs_of(form@) == seq![("id"@, id@)]);
        self.signed_post(api.as_str(), form.as_slice())
    }
}

} // verus!
