use vstd::prelude::*;

use crate::post::{Post, PostV};
use crate::text::{dec_i64_of, i64_to_string};

verus! {

/// The thumbnail image reference of a fragment; empty when the post has no
/// thumbnail.
pub open spec fn thumbnail_part(p: PostV) -> Seq<char> {
    match p.thumbnail_url {
        Option::Some(u) => "<img class='post__thumbnail' src='"@ + u + "' />"@,
        Option::None => Seq::<char>::empty(),
    }
}

/// The avatar image reference of a fragment, with alt text naming the
/// user; empty when the post has no avatar.
pub open spec fn avatar_part(p: PostV) -> Seq<char> {
    match p.avatar_url {
        Option::Some(u) => "<img class='post__avatar' src='"@ + u + "' alt='"@ + p.user
            + "'s avatar' />"@,
        Option::None => Seq::<char>::empty(),
    }
}

/// One rendered post: the optional thumbnail, the content, the optional
/// avatar, the user name, and the creation timestamp. User-supplied text is
/// rendered as-is, unescaped, exactly as stored.
pub open spec fn fragment_view(p: PostV) -> Seq<char> {
    "<div data-id='"@ + dec_i64_of(p.id) + "' class='post'><div>"@ + thumbnail_part(p) + "<p>"@
        + p.content + "</p></div><div>Created by "@ + avatar_part(p) + " <strong>"@ + p.user
        + "</strong> on <time>"@ + dec_i64_of(p.created_at) + "</time></div><hr/></div>"@
}

/// The whole feed: the fragments of the posts from the given index on,
/// concatenated in input order with no separator.
pub open spec fn feed_from(ps: Seq<PostV>, i: int) -> Seq<char>
    decreases ps.len() - i,
{
    if i < 0 || i >= ps.len() {
        Seq::<char>::empty()
    } else {
        fragment_view(ps[i]) + feed_from(ps, i + 1)
    }
}

/// The whole feed, in input order.
pub open spec fn feed_view(ps: Seq<PostV>) -> Seq<char> {
    feed_from(ps, 0)
}

fn render_thumbnail(p: &Post) -> (r: String)
    ensures
        r@ == thumbnail_part(p@),
{
    match &p.thumbnail_url {
        Some(u) => {
            let mut s = String::from_str("<img class='post__thumbnail' src='");
            s.append(u.as_str());
            s.append("' />");
            s
        },
        None => String::new(),
    }
}

fn render_avatar(p: &Post) -> (r: String)
    ensures
        r@ == avatar_part(p@),
{
    match &p.avatar_url {
        Some(u) => {
            let mut s = String::from_str("<img class='post__avatar' src='");
            s.append(u.as_str());
            s.append("' alt='");
            s.append(p.user.as_str());
            s.append("'s avatar' />");
            s
        },
        None => String::new(),
    }
}

/// Renders one post to its fragment.
pub fn render_post(p: &Post) -> (r: String)
    ensures
        r@ == fragment_view(p@),
{
    let mut s = String::from_str("<div data-id='");
    let id_text = i64_to_string(p.id);
    s.append(id_text.as_str());
    s.append("' class='post'><div>");
    let thumb = render_thumbnail(p);
    s.append(thumb.as_str());
    s.append("<p>");
    s.append(p.content.as_str());
    s.append("</p></div><div>Created by ");
    let avatar = render_avatar(p);
    s.append(avatar.as_str());
    s.append(" <strong>");
    s.append(p.user.as_str());
    s.append("</strong> on <time>");
    let time_text = i64_to_string(p.created_at);
    s.append(time_text.as_str());
    s.append("</time></div><hr/></div>");
    s
}

fn render_from(posts: &Vec<Post>, i: usize) -> (r: String)
    requires
        i <= posts@.len(),
    ensures
        r@ == feed_from(posts@.map_values(|p: Post| p@), i as int),
    decreases posts@.len() - i,
{
    if i == posts.len() {
        String::new()
    } else {
        let head = render_post(&posts[i]);
        let rest = render_from(posts, i + 1);
        head.concat(rest.as_str())
    }
}

/// Renders the feed: one fragment per post, concatenated in the input
/// order (the store already hands the posts newest first).
pub fn render_feed(posts: &Vec<Post>) -> (r: String)
    ensures
        r@ == feed_view(posts@.map_values(|p: Post| p@)),
{
    render_from(posts, 0)
}

} // verus!
