use tumblr_api::{
    authorization_header_with, ApiRequest, Body, GetUserDashboardOptionalParams,
    GetUserFollowingOptionalParams, GetUserLikesOptionalParams, Method, Token, TumblrClient,
};

fn client() -> TumblrClient {
    TumblrClient::new().set_consumer("ck", "cs").set_token("tk", "ts")
}

fn owned(pairs: &[(&str, &str)]) -> Vec<(String, String)> {
    pairs.iter().map(|(k, v)| (k.to_string(), v.to_string())).collect()
}

fn header_field<'a>(header: &'a str, name: &str) -> &'a str {
    let mark = format!("{}=\"", name);
    let start = header.find(&mark).unwrap() + mark.len();
    let end = start + header[start..].find('"').unwrap();
    &header[start..end]
}

fn assert_signed_by_user(request: &ApiRequest, method: &str, api: &str, params: &[(&str, &str)]) {
    let header = request.authorization.as_deref().unwrap();
    let nonce = header_field(header, "oauth_nonce").to_string();
    let timestamp: u64 = header_field(header, "oauth_timestamp").parse().unwrap();
    assert_eq!(
        header,
        authorization_header_with(
            method,
            api,
            &Token::new("ck", "cs"),
            Some(&Token::new("tk", "ts")),
            params,
            &nonce,
            timestamp,
        )
    );
}

#[test]
fn user_parameters_start_with_nothing_set() {
    assert_eq!(
        GetUserDashboardOptionalParams::new(),
        GetUserDashboardOptionalParams {
            limit: None,
            offset: None,
            post_type: None,
            since_id: None,
            reblog_info: None,
            notes_info: None,
        }
    );
    assert_eq!(GetUserDashboardOptionalParams::default(), GetUserDashboardOptionalParams::new());
    assert_eq!(GetUserLikesOptionalParams::default(), GetUserLikesOptionalParams::new());
    assert_eq!(GetUserFollowingOptionalParams::default(), GetUserFollowingOptionalParams::new());
}

#[test]
fn user_info_request() {
    let request = client().get_user_info();
    assert_eq!(request.method, Method::Get);
    assert_eq!(request.url, "https://api.tumblr.com/v2/user/info");
    assert_eq!(request.body, Body::Empty);
    assert_signed_by_user(&request, "GET", "https://api.tumblr.com/v2/user/info", &[]);
}

#[test]
fn user_dashboard_request() {
    let p = GetUserDashboardOptionalParams::new()
        .notes_info("true")
        .reblog_info("true")
        .since_id("8")
        .post_type("text")
        .offset("1")
        .limit("2");
    let request = client().get_user_dashboard(Some(p));
    assert_eq!(
        request.url,
        "https://api.tumblr.com/v2/user/dashboard?limit=2&notes_info=true&offset=1&reblog_info=true&since_id=8&type=text"
    );
    assert_signed_by_user(
        &request,
        "GET",
        "https://api.tumblr.com/v2/user/dashboard",
        &[
            ("limit", "2"),
            ("offset", "1"),
            ("type", "text"),
            ("since_id", "8"),
            ("reblog_info", "true"),
            ("notes_info", "true"),
        ],
    );
    assert_eq!(client().get_user_dashboard(None).url, "https://api.tumblr.com/v2/user/dashboard");
}

#[test]
fn user_likes_request() {
    let p = GetUserLikesOptionalParams::new().limit("1").offset("2").before("4").after("3");
    let request = client().get_user_likes(Some(p));
    assert_eq!(
        request.url,
        "https://api.tumblr.com/v2/user/likes?after=3&before=4&limit=1&offset=2"
    );
    assert_signed_by_user(
        &request,
        "GET",
        "https://api.tumblr.com/v2/user/likes",
        &[("limit", "1"), ("offset", "2"), ("before", "4"), ("after", "3")],
    );
    assert_eq!(client().get_user_likes(None).url, "https://api.tumblr.com/v2/user/likes");
}

#[test]
fn user_following_request() {
    let request =
        client().get_user_following(Some(GetUserFollowingOptionalParams::new().offset("40")));
    assert_eq!(request.url, "https://api.tumblr.com/v2/user/following?offset=40");
    assert_signed_by_user(
        &request,
        "GET",
        "https://api.tumblr.com/v2/user/following",
        &[("offset", "40")],
    );
    assert_eq!(client().get_user_following(None).url, "https://api.tumblr.com/v2/user/following");
}

#[test]
fn follow_and_unfollow_requests() {
    let request = client().follow_blog("https://b.tumblr.com/");
    assert_eq!(request.method, Method::Post);
    assert_eq!(request.url, "https://api.tumblr.com/v2/user/follow");
    assert_eq!(request.body, Body::Form(owned(&[("url", "https://b.tumblr.com/")])));
    assert_signed_by_user(
        &request,
        "POST",
        "https://api.tumblr.com/v2/user/follow",
        &[("url", "https://b.tumblr.com/")],
    );
    let request = client().unfollow_blog("https://b.tumblr.com/");
    assert_eq!(request.url, "https://api.tumblr.com/v2/user/unfollow");
    assert_eq!(request.body, Body::Form(owned(&[("url", "https://b.tumblr.com/")])));
    assert_signed_by_user(
        &request,
        "POST",
        "https://api.tumblr.com/v2/user/unfollow",
        &[("url", "https://b.tumblr.com/")],
    );
}

#[test]
fn like_and_unlike_requests() {
    let form = [("id", "12"), ("reblog_key", "rk")];
    let request = client().like_post("12", "rk");
    assert_eq!(request.method, Method::Post);
    assert_eq!(request.url, "https://api.tumblr.com/v2/user/like");
    assert_eq!(request.body, Body::Form(owned(&form)));
    assert_signed_by_user(&request, "POST", "https://api.tumblr.com/v2/user/like", &form);
    let request = client().unlike_post("12", "rk");
    assert_eq!(request.url, "https://api.tumblr.com/v2/user/unlike");
    assert_eq!(request.body, Body::Form(owned(&form)));
    assert_signed_by_user(&request, "POST", "https://api.tumblr.com/v2/user/unlike", &form);
}
