use miniblog::post::Post;
use miniblog::render::{render_feed, render_post};
use miniblog::text::{i64_to_string, u64_to_string};

fn plain_post() -> Post {
    Post {
        id: 7,
        content: "hello".to_string(),
        user: "bob".to_string(),
        avatar_url: None,
        thumbnail_url: None,
        created_at: 5,
    }
}

#[test]
fn numerals_render_exactly() {
    assert_eq!(u64_to_string(0), "0");
    assert_eq!(u64_to_string(42), "42");
    assert_eq!(u64_to_string(u64::MAX), "18446744073709551615");
    assert_eq!(i64_to_string(0), "0");
    assert_eq!(i64_to_string(-42), "-42");
    assert_eq!(i64_to_string(i64::MAX), "9223372036854775807");
    assert_eq!(i64_to_string(i64::MIN), "-9223372036854775808");
}

#[test]
fn plain_fragment_has_text_and_no_images() {
    let html = render_post(&plain_post());
    assert!(html.contains("hello"));
    assert!(html.contains("bob"));
    assert!(!html.contains("<img"));
}

#[test]
fn plain_fragment_renders_exactly() {
    let html = render_post(&plain_post());
    assert_eq!(
        html,
        "<div data-id='7' class='post'><div><p>hello</p></div>\
         <div>Created by  <strong>bob</strong> on <time>5</time></div><hr/></div>"
    );
}

#[test]
fn fragment_with_images_references_both_paths() {
    let post = Post {
        id: 3,
        content: "pic".to_string(),
        user: "alice".to_string(),
        avatar_url: Some("images/avatars/a.png".to_string()),
        thumbnail_url: Some("images/thumbnails/a.png".to_string()),
        created_at: 12,
    };
    let html = render_post(&post);
    assert!(html.contains("<img class='post__thumbnail' src='images/thumbnails/a.png' />"));
    assert!(html.contains("<img class='post__avatar' src='images/avatars/a.png' alt='alice's avatar' />"));
    assert!(html.contains("<p>pic</p>"));
    assert!(html.contains("<time>12</time>"));
}

#[test]
fn feed_concatenates_fragments_in_input_order() {
    let a = plain_post();
    let mut b = plain_post();
    b.id = 8;
    b.content = "second".to_string();
    let expected = format!("{}{}", render_post(&a), render_post(&b));
    let posts = vec![a, b];
    let feed = render_feed(&posts);
    assert_eq!(feed, expected);
}

#[test]
fn empty_feed_renders_empty() {
    assert_eq!(render_feed(&Vec::new()), "");
}
