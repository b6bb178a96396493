use tumblr_api::multipart::{file_parts, multipart_body};
use tumblr_api::params::param_set;
use tumblr_api::{select_upload, Body, TumblrClientError, UploadPayload};

#[test]
fn remote_source_wins_over_all() {
    assert_eq!(
        select_upload(Some("https://example.com/a.png"), Some("QUJD"), Some(vec!["a.png", "b.png"])),
        Ok(UploadPayload::Remote("https://example.com/a.png"))
    );
}

#[test]
fn remote_source_wins_over_each() {
    assert_eq!(select_upload(Some("u"), Some("QUJD"), None), Ok(UploadPayload::Remote("u")));
    assert_eq!(select_upload(Some("u"), None, Some(vec!["a"])), Ok(UploadPayload::Remote("u")));
    assert_eq!(select_upload(Some("u"), None, None), Ok(UploadPayload::Remote("u")));
}

#[test]
fn inline_data_wins_over_files() {
    assert_eq!(select_upload(None, Some("QUJD"), Some(vec!["a"])), Ok(UploadPayload::Inline("QUJD")));
    assert_eq!(select_upload(None, Some("QUJD"), None), Ok(UploadPayload::Inline("QUJD")));
}

#[test]
fn files_are_used_when_nothing_else_is_given() {
    assert_eq!(
        select_upload(None, None, Some(vec!["a.png", "b.png"])),
        Ok(UploadPayload::Files(vec!["a.png", "b.png"]))
    );
    assert_eq!(select_upload(None, None, Some(vec![])), Ok(UploadPayload::Files(vec![])));
}

#[test]
fn no_source_is_rejected() {
    assert_eq!(select_upload(None, None, None), Err(TumblrClientError::MissingPhotoSource));
}

fn owned(pairs: &[(&str, &str)]) -> Vec<(String, String)> {
    pairs.iter().map(|(k, v)| (k.to_string(), v.to_string())).collect()
}

#[test]
fn file_parts_are_indexed_in_order() {
    assert_eq!(
        file_parts("data", &["one.png", "two.png", "three.png"]),
        owned(&[("data[0]", "one.png"), ("data[1]", "two.png"), ("data[2]", "three.png")])
    );
}

#[test]
fn file_parts_beyond_nine() {
    let files: Vec<String> = (0..12).map(|i| format!("f{}.png", i)).collect();
    let borrowed: Vec<&str> = files.iter().map(|s| s.as_str()).collect();
    let parts = file_parts("data", &borrowed);
    assert_eq!(parts.len(), 12);
    assert_eq!(parts[9], ("data[9]".to_string(), "f9.png".to_string()));
    assert_eq!(parts[10], ("data[10]".to_string(), "f10.png".to_string()));
    assert_eq!(parts[11], ("data[11]".to_string(), "f11.png".to_string()));
}

#[test]
fn no_files_give_no_parts() {
    assert_eq!(file_parts("data", &[]), vec![]);
}

#[test]
fn multipart_body_keeps_text_fields_as_they_stand() {
    let fields = param_set(&[("type", "photo"), ("caption", "a b&c")]);
    let body = multipart_body(&fields, "data", &["x.png"]);
    assert_eq!(
        body,
        Body::Multipart {
            fields: owned(&[("type", "photo"), ("caption", "a b&c")]),
            files: owned(&[("data[0]", "x.png")]),
        }
    );
}
