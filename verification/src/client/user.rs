//! The operations on the user behind the access token: the user's
//! information, dashboard, likes and followed blogs, and following,
//! unfollowing, liking and unliking.

use vstd::prelude::*;
use crate::client::blog::{opt_param, push_opt, push_param};
use crate::client::{is_signed_get, is_signed_post, ApiRequest, TumblrClient};
use crate::order::Pair;
use crate::query::pairs_of;

verus! {

/// The user's information.
pub const INFO: &'static str = "https://api.tumblr.com/v2/user/info";

/// The posts of the user's dashboard.
pub const DASHBOARD: &'static str = "https://api.tumblr.com/v2/user/dashboard";

/// The posts that the user likes.
pub const LIKES: &'static str = "https://api.tumblr.com/v2/user/likes";

/// The blogs that the user follows.
pub const FOLLOWING: &'static str = "https://api.tumblr.com/v2/user/following";

/// Where a blog is followed.
pub const FOLLOW: &'static str = "https://api.tumblr.com/v2/user/follow";

/// Where a blog is unfollowed.
pub const UNFOLLOW: &'static str = "https://api.tumblr.com/v2/user/unfollow";

/// Where a post is liked.
pub const LIKE: &'static str = "https://api.tumblr.com/v2/user/like";

/// Where the like of a post is taken back.
pub const UNLIKE: &'static str = "https://api.tumblr.com/v2/user/unlike";

/// Which posts of the user's dashboard to fetch.
#[derive(Clone, Copy, Debug, PartialEq, Eq)]
pub struct GetUserDashboardOptionalParams<'a> {
    pub limit: Option<&'a str>,
    pub offset: Option<&'a str>,
    pub post_type: Option<&'a str>,
    pub since_id: Option<&'a str>,
    pub reblog_info: Option<&'a str>,
    pub notes_info: Option<&'a str>,
}

impl<'a> GetUserDashboardOptionalParams<'a> {
    /// Nothing set.
    pub fn new() -> (r: GetUserDashboardOptionalParams<'a>)
        ensures
            r == (GetUserDashboardOptionalParams {
                limit: None,
                offset: None,
                post_type: None,
                since_id: None,
                reblog_info: None,
                notes_info: None,
            }),
    {
        GetUserDashboardOptionalParams {
            limit: None,
            offset: None,
            post_type: None,
            since_id: None,
            reblog_info: None,
            notes_info: None,
        }
    }

    /// The number of results to return.
    pub fn limit(self, limit: &'a str) -> (r: Self)
        ensures
            r == (GetUserDashboardOptionalParams { limit: Some(limit), ..self }),
    {
        GetUserDashboardOptionalParams { limit: Some(limit), ..self }
    }

    /// The number of the first result to return, counting from zero.
    pub fn offset(self, offset: &'a str) -> (r: Self)
        ensures
            r == (GetUserDashboardOptionalParams { offset: Some(offset), ..self }),
    {
        GetUserDashboardOptionalParams { offset: Some(offset), ..self }
    }

    /// The type of post to return: `text`, `photo`, `quote`, `link`, `chat`,
    /// `audio`, `video` or `answer`. It is sent as the parameter `type`.
    pub fn post_type(self, post_type: &'a str) -> (r: Self)
        ensures
            r == (GetUserDashboardOptionalParams { post_type: Some(post_type), ..self }),
    {
        GetUserDashboardOptionalParams { post_type: Some(post_type), ..self }
    }

    /// Only the posts that come after the post with this id.
    pub fn since_id(self, since_id: &'a str) -> (r: Self)
        ensures
            r == (GetUserDashboardOptionalParams { since_id: Some(since_id), ..self }),
    {
        GetUserDashboardOptionalParams { since_id: Some(since_id), ..self }
    }

    /// Whether to return the reblog information: `true` or `false`.
    pub fn reblog_info(self, reblog_info: &'a str) -> (r: Self)
        ensures
            r == (GetUserDashboardOptionalParams { reblog_info: Some(reblog_info), ..self }),
    {
        GetUserDashboardOptionalParams { reblog_info: Some(reblog_info), ..self }
    }

    /// Whether to return the notes: `true` or `false`.
    pub fn notes_info(self, notes_info: &'a str) -> (r: Self)
        ensures
            r == (GetUserDashboardOptionalParams { notes_info: Some(notes_info), ..self }),
    {
        GetUserDashboardOptionalParams { notes_info: Some(notes_info), ..self }
    }

    /// The parameters that are set, in the order of the fields.
    pub open spec fn listed(self) -> Seq<Pair> {
        opt_param("limit"@, self.limit)
            + opt_param("offset"@, self.offset)
            + opt_param("type"@, self.post_type)
            + opt_param("since_id"@, self.since_id)
            + opt_param("reblog_info"@, self.reblog_info)
            + opt_param("notes_info"@, self.notes_info)
    }

    /// Adds the parameters that are set to `list`, in the order of the fields.
    pub fn list_into(&self, list: &mut Vec<(&'a str, &'a str)>)
        ensures
            pairs_of(final(list)@) == pairs_of(old(list)@) + self.listed(),
    {
        push_opt(list, "limit", self.limit);
        push_opt(list, "offset", self.offset);
        push_opt(list, "type", self.post_type);
        push_opt(list, "since_id", self.since_id);
        push_opt(list, "reblog_info", self.reblog_info);
        push_opt(list, "notes_info", self.notes_info);
    }
}

impl<'a> Default for GetUserDashboardOptionalParams<'a> {
    /// Nothing set.
    fn default() -> (r: Self)
        ensures
            r == (GetUserDashboardOptionalParams {
                limit: None,
                offset: None,
                post_type: None,
                since_id: None,
                reblog_info: None,
                notes_info: None,
            }),
    {
        GetUserDashboardOptionalParams {
            limit: None,
            offset: None,
            post_type: None,
            since_id: None,
            reblog_info: None,
            notes_info: None,
        }
    }
}

/// Which of the user's likes to fetch.
#[derive(Clone, Copy, Debug, PartialEq, Eq)]
pub struct GetUserLikesOptionalParams<'a> {
    pub limit: Option<&'a str>,
    pub offset: Option<&'a str>,
    pub before: Option<&'a str>,
    pub after: Option<&'a str>,
}

impl<'a> GetUserLikesOptionalParams<'a> {
    /// Nothing set.
    pub fn new() -> (r: GetUserLikesOptionalParams<'a>)
        ensures
            r == (GetUserLikesOptionalParams {
                limit: None,
                offset: None,
                before: None,
                after: None,
            }),
    {
        GetUserLikesOptionalParams { limit: None, offset: None, before: None, after: None }
    }

    /// The number of results to return.
    pub fn limit(self, limit: &'a str) -> (r: Self)
        ensures
            r == (GetUserLikesOptionalParams { limit: Some(limit), ..self }),
    {
        GetUserLikesOptionalParams { limit: Some(limit), ..self }
    }

    /// The number of the first result to return, counting from zero.
    pub fn offset(self, offset: &'a str) -> (r: Self)
        ensures
            r == (GetUserLikesOptionalParams { offset: Some(offset), ..self }),
    {
        GetUserLikesOptionalParams { offset: Some(offset), ..self }
    }

    /// Only what was liked before this time, in seconds since the epoch.
    pub fn before(self, before: &'a str) -> (r: Self)
        ensures
            r == (GetUserLikesOptionalParams { before: Some(before), ..self }),
    {
        GetUserLikesOptionalParams { before: Some(before), ..self }
    }

    /// Only what was liked after this time, in seconds since the epoch.
    pub fn after(self, after: &'a str) -> (r: Self)
        ensures
            r == (GetUserLikesOptionalParams { after: Some(after), ..self }),
    {
        GetUserLikesOptionalParams { after: Some(after), ..self }
    }

    /// The parameters that are set, in the order of the fields.
    pub open spec fn listed(self) -> Seq<Pair> {
        opt_param("limit"@, self.limit)
            + opt_param("offset"@, self.offset)
            + opt_param("before"@, self.before)
            + opt_param("after"@, self.after)
    }

    /// Adds the parameters that are set to `list`, in the order of the fields.
    pub fn list_into(&self, list: &mut Vec<(&'a str, &'a str)>)
        ensures
            pairs_of(final(list)@) == pairs_of(old(list)@) + self.listed(),
    {
        push_opt(list, "limit", self.limit);
        push_opt(list, "offset", self.offset);
        push_opt(list, "before", self.before);
        push_opt(list, "after", self.after);
    }
}

impl<'a> Default for GetUserLikesOptionalParams<'a> {
    /// Nothing set.
    fn default() -> (r: Self)
        ensures
            r == (GetUserLikesOptionalParams {
                limit: None,
                offset: None,
                before: None,
                after: None,
            }),
    {
        GetUserLikesOptionalParams { limit: None, offset: None, before: None, after: None }
    }
}

/// Which of the blogs that the user follows to fetch.
#[derive(Clone, Copy, Debug, PartialEq, Eq)]
pub struct GetUserFollowingOptionalParams<'a> {
    pub limit: Option<&'a str>,
    pub offset: Option<&'a str>,
}

impl<'a> GetUserFollowingOptionalParams<'a> {
    /// Nothing set.
    pub fn new() -> (r: GetUserFollowingOptionalParams<'a>)
        ensures
            r == (GetUserFollowingOptionalParams { limit: None, offset: None }),
    {
        GetUserFollowingOptionalParams { limit: None, offset: None }
    }

    /// The number of results to return.
    pub fn limit(self, limit: &'a str) -> (r: Self)
        ensures
            r == (GetUserFollowingOptionalParams { limit: Some(limit), ..self }),
    {
        GetUserFollowingOptionalParams { limit: Some(limit), ..self }
    }

    /// The number of the first result to return, counting from zero.
    pub fn offset(self, offset: &'a str) -> (r: Self)
        ensures
            r == (GetUserFollowingOptionalParams { offset: Some(offset), ..self }),
    {
        GetUserFollowingOptionalParams { offset: Some(offset), ..self }
    }

    /// The parameters that are set, in the order of the fields.
    pub open spec fn listed(self) -> Seq<Pair> {
        opt_param("limit"@, self.limit)
            + opt_param("offset"@, self.offset)
    }

    /// Adds the parameters that are set to `list`, in the order of the fields.
    pub fn list_into(&self, list: &mut Vec<(&'a str, &'a str)>)
        ensures
            pairs_of(final(list)@) == pairs_of(old(list)@) + self.listed(),
    {
        push_opt(list, "limit", self.limit);
        push_opt(list, "offset", self.offset);
    }
}

impl<'a> Default for GetUserFollowingOptionalParams<'a> {
    /// Nothing set.
    fn default() -> (r: Self)
        ensures
            r == (GetUserFollowingOptionalParams { limit: None, offset: None }),
    {
        GetUserFollowingOptionalParams { limit: None, offset: None }
    }
}

impl TumblrClient {
    /// The signed request for the user's information.
    pub fn get_user_info(&self) -> (r: ApiRequest)
        ensures
            is_signed_get(r, self.keys, INFO@, Seq::empty()),
    {
        let params: Vec<(&str, &str)> = Vec::new();
        assert(pairs_of(params@) == Seq::<Pair>::empty());
        self.signed_get(INFO, params.as_slice())
    }

    /// The signed request for the posts of the user's dashboard.
    pub fn get_user_dashboard(&self, optional_params: Option<GetUserDashboardOptionalParams>) -> (r:
        ApiRequest)
        ensures
            is_signed_get(
                r,
                self.keys,
                DASHBOARD@,
                match optional_params {
                    Some(p) => p.listed(),
                    None => Seq::empty(),
                },
            ),
    {
        let mut params: Vec<(&str, &str)> = Vec::new();
        assert(pairs_of(params@) == Seq::<Pair>::empty());
        match &optional_params {
            Some(p) => {
                p.list_into(&mut params);
                assert(Seq::<Pair>::empty() + p.listed() == p.listed());
            },
            None => {},
        }
        self.signed_get(DASHBOARD, params.as_slice())
    }

    /// The signed request for the posts that the user likes.
    pub fn get_user_likes(&self, optional_params: Option<GetUserLikesOptionalParams>) -> (r:
        ApiRequest)
        ensures
            is_signed_get(
                r,
                self.keys,
                LIKES@,
                match optional_params {
                    Some(p) => p.listed(),
                    None => Seq::empty(),
                },
            ),
    {
        let mut params: Vec<(&str, &str)> = Vec::new();
        assert(pairs_of(params@) == Seq::<Pair>::empty());
        match &optional_params {
            Some(p) => {
                p.list_into(&mut params);
                assert(Seq::<Pair>::empty() + p.listed() == p.listed());
            },
            None => {},
        }
        self.signed_get(LIKES, params.as_slice())
    }

    /// The signed request for the blogs that the user follows.
    pub fn get_user_following(&self, optional_params: Option<GetUserFollowingOptionalParams>) -> (r:
        ApiRequest)
        ensures
            is_signed_get(
                r,
                self.keys,
                FOLLOWING@,
                match optional_params {
                    Some(p) => p.listed(),
                    None => Seq::empty(),
                },
            ),
    {
        let mut params: Vec<(&str, &str)> = Vec::new();
        assert(pairs_of(params@) == Seq::<Pair>::empty());
        match &optional_params {
            Some(p) => {
                p.list_into(&mut params);
                assert(Seq::<Pair>::empty() + p.listed() == p.listed());
            },
            None => {},
        }
        self.signed_get(FOLLOWING, params.as_slice())
    }

    /// The form that names one blog by its address.
    fn blog_form<'a>(url: &'a str) -> (form: Vec<(&'a str, &'a str)>)
        ensures
            pairs_of(form@) == seq![("url"@, url@)],
    {
        let mut form: Vec<(&str, &str)> = Vec::new();
        push_param(&mut form, "url", url);
        assert(pairs_of(form@) == seq![("url"@, url@)]);
        form
    }

    /// The form that names one post by its id and its reblog key.
    fn post_key_form<'a>(id: &'a str, reblog_key: &'a str) -> (form: Vec<(&'a str, &'a str)>)
        ensures
            pairs_of(form@) == seq![("id"@, id@), ("reblog_key"@, reblog_key@)],
    {
        let mut form: Vec<(&str, &str)> = Vec::new();
        push_param(&mut form, "id", id);
        push_param(&mut form, "reblog_key", reblog_key);
        assert(pairs_of(form@) == seq![("id"@, id@), ("reblog_key"@, reblog_key@)]);
        form
    }

    /// The signed request that makes the user follow the blog at `url`.
    pub fn follow_blog(&self, url: &str) -> (r: ApiRequest)
        ensures
            is_signed_post(r, self.keys, FOLLOW@, seq![("url"@, url@)]),
    {
        self.signed_post(FOLLOW, TumblrClient::blog_form(url).as_slice())
    }

    /// The signed request that makes the user unfollow the blog at `url`.
    pub fn unfollow_blog(&self, url: &str) -> (r: ApiRequest)
        ensures
            is_signed_post(r, self.keys, UNFOLLOW@, seq![("url"@, url@)]),
    {
        self.signed_post(UNFOLLOW, TumblrClient::blog_form(url).as_slice())
    }

    /// The signed request that makes the user like the post `id`.
    pub fn like_post(&self, id: &str, reblog_key: &str) -> (r: ApiRequest)
        ensures
            is_signed_post(
                r,
                self.keys,
                LIKE@,
                seq![("id"@, id@), ("reblog_key"@, reblog_key@)],
            ),
    {
        self.signed_post(LIKE, TumblrClient::post_key_form(id, reblog_key).as_slice())
    }

    /// The signed request that takes back the user's like of the post `id`.
    pub fn unlike_post(&self, id: &str, reblog_key: &str) -> (r: ApiRequest)
        ensures
            is_signed_post(
                r,
                self.keys,
                UNLIKE@,
                seq![("id"@, id@), ("reblog_key"@, reblog_key@)],
            ),
    {
        self.signed_post(UNLIKE, TumblrClient::post_key_form(id, reblog_key).as_slice())
    }
}

} // verus!
