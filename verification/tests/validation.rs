use miniblog::post::CreatePostRequest;

fn req(content: &str, user: &str, avatar_url: Option<&str>) -> CreatePostRequest {
    CreatePostRequest {
        content: content.to_string(),
        user: user.to_string(),
        avatar_url: avatar_url.map(|s| s.to_string()),
        has_thumbnail: false,
    }
}

#[test]
fn empty_content_rejected() {
    let r = req("", "bob", None).validate();
    assert_eq!(r, Err("Content cannot be empty".to_string()));
}

#[test]
fn content_longer_than_4096_rejected() {
    let r = req(&"a".repeat(4097), "bob", None).validate();
    assert_eq!(
        r,
        Err("Content cannot be longer than 4096 characters".to_string())
    );
}

#[test]
fn content_of_length_1_and_4096_accepted() {
    assert_eq!(req("a", "bob", None).validate(), Ok(()));
    assert_eq!(req(&"a".repeat(4096), "bob", None).validate(), Ok(()));
}

#[test]
fn empty_user_rejected() {
    let r = req("hello", "", None).validate();
    assert_eq!(r, Err("User cannot be empty".to_string()));
}

#[test]
fn user_longer_than_64_rejected() {
    let r = req("hello", &"u".repeat(65), None).validate();
    assert_eq!(
        r,
        Err("User cannot be longer than 64 characters".to_string())
    );
}

#[test]
fn user_of_length_1_and_64_accepted() {
    assert_eq!(req("hello", "u", None).validate(), Ok(()));
    assert_eq!(req("hello", &"u".repeat(64), None).validate(), Ok(()));
}

#[test]
fn malformed_avatar_url_rejected() {
    let r = req("hello", "bob", Some("not a url")).validate();
    assert_eq!(r, Err("Invalid avatar URL".to_string()));
}

#[test]
fn well_formed_avatar_url_accepted() {
    let r = req("hello", "bob", Some("https://example.com/a.png")).validate();
    assert_eq!(r, Ok(()));
}
