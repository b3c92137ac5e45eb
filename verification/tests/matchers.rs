use threads_rs::api::post_matchers::{
    carousel_matcher, image_matcher, media_content_matches, post_text, post_topic_tag,
    replied_to_id, text_matcher, video_matcher,
};
use threads_rs::types::{
    CarouselPostContent, ChildPost, ChildrenData, ContainerId, ImagePostContent, MediaType, Post,
    PostId, TextPostContent, VideoPostContent,
};

fn post(media_type: Option<MediaType>, text: Option<&str>) -> Post {
    Post {
        id: PostId::from("post-1"),
        media_type,
        text: text.map(str::to_owned),
        topic_tag: None,
        is_reply: false,
        replied_to: None,
        is_quote_post: false,
        quoted_post: None,
        children: None,
    }
}

fn with_id(id: &str) -> Option<Box<Post>> {
    let mut inner = post(None, None);
    inner.id = PostId::from(id);
    Some(Box::new(inner))
}

fn text(text: &str) -> TextPostContent {
    TextPostContent {
        text: text.to_owned(),
        link_attachment: None,
        reply_to_id: None,
        topic_tag: None,
        allowlisted_country_codes: None,
        location_id: None,
        auto_publish_text: false,
        quoted_post_id: None,
        is_ghost_post: false,
        enable_reply_approvals: false,
    }
}

fn image(text: Option<&str>, url: &str) -> ImagePostContent {
    ImagePostContent {
        text: text.map(str::to_owned),
        image_url: url.to_owned(),
        alt_text: None,
        reply_to_id: None,
        topic_tag: None,
        allowlisted_country_codes: None,
        location_id: None,
        quoted_post_id: None,
        is_spoiler_media: false,
        enable_reply_approvals: false,
    }
}

fn video(text: Option<&str>, url: &str) -> VideoPostContent {
    VideoPostContent {
        text: text.map(str::to_owned),
        video_url: url.to_owned(),
        alt_text: None,
        reply_to_id: None,
        topic_tag: None,
        allowlisted_country_codes: None,
        location_id: None,
        quoted_post_id: None,
        is_spoiler_media: false,
        enable_reply_approvals: false,
    }
}

fn carousel(text: Option<&str>, children: &[&str]) -> CarouselPostContent {
    CarouselPostContent {
        text: text.map(str::to_owned),
        children: children.iter().map(|id| ContainerId::from(*id)).collect(),
        reply_to_id: None,
        topic_tag: None,
        allowlisted_country_codes: None,
        location_id: None,
        quoted_post_id: None,
        is_spoiler_media: false,
        enable_reply_approvals: false,
    }
}

fn album(text: Option<&str>, children: &[&str]) -> Post {
    let mut album = post(Some(MediaType::CarouselAlbum), text);
    album.children = Some(ChildrenData {
        data: children
            .iter()
            .map(|id| ChildPost {
                id: PostId::from(*id),
            })
            .collect(),
    });
    album
}

#[test]
fn accessors_default_to_nothing() {
    let mut p = post(None, None);
    assert_eq!(post_text(&p), "");
    assert_eq!(post_topic_tag(&p), "");
    assert!(replied_to_id(&p).is_none());
    p.text = Some("text".to_owned());
    p.topic_tag = Some("tag".to_owned());
    p.replied_to = with_id("parent");
    assert_eq!(post_text(&p), "text");
    assert_eq!(post_topic_tag(&p), "tag");
    assert_eq!(replied_to_id(&p), Some(&PostId::from("parent")));
}

#[test]
fn text_posts_come_under_two_kinds_or_none() {
    let content = text("hi");
    let matches = text_matcher(&content);
    for kind in [None, Some(MediaType::Text), Some(MediaType::TextPost)] {
        assert!(matches(&post(kind, Some("hi"))));
    }
    for kind in [
        MediaType::Image,
        MediaType::Video,
        MediaType::Audio,
        MediaType::CarouselAlbum,
        MediaType::Other,
    ] {
        assert!(!matches(&post(Some(kind), Some("hi"))));
    }
}

#[test]
fn kinds_are_disjoint() {
    let t = text("same");
    let i = image(Some("same"), "u");
    let v = video(Some("same"), "u");
    let c = carousel(Some("same"), &["c1"]);
    for kind in [
        MediaType::Text,
        MediaType::TextPost,
        MediaType::Image,
        MediaType::Video,
        MediaType::Audio,
        MediaType::CarouselAlbum,
    ] {
        let mut p = album(Some("same"), &["p1"]);
        p.media_type = Some(kind);
        let accepted = [
            text_matcher(&t)(&p),
            image_matcher(&i)(&p),
            video_matcher(&v)(&p),
            carousel_matcher(&c)(&p),
        ];
        assert_eq!(accepted.iter().filter(|a| **a).count(), 1);
    }
}

#[test]
fn quote_state_is_never_crossed() {
    let plain = text("hi");
    let mut quoting = text("hi");
    quoting.quoted_post_id = Some(PostId::from("q1"));

    let regular = post(Some(MediaType::TextPost), Some("hi"));
    let mut quote = post(Some(MediaType::TextPost), Some("hi"));
    quote.is_quote_post = true;
    quote.quoted_post = with_id("q1");
    // Embeds a quoted post without being a quote post.
    let mut odd = post(Some(MediaType::TextPost), Some("hi"));
    odd.quoted_post = with_id("q1");

    assert!(text_matcher(&plain)(&regular));
    assert!(!text_matcher(&plain)(&quote));
    assert!(text_matcher(&plain)(&odd));
    assert!(!text_matcher(&quoting)(&regular));
    assert!(text_matcher(&quoting)(&quote));
    assert!(!text_matcher(&quoting)(&odd));
}

#[test]
fn reply_state_is_never_crossed() {
    let root = image(Some("hi"), "u");
    let mut reply = image(Some("hi"), "u");
    reply.reply_to_id = Some(PostId::from("parent-1"));

    let root_post = post(Some(MediaType::Image), Some("hi"));
    let mut reply_post = post(Some(MediaType::Image), Some("hi"));
    reply_post.is_reply = true;
    reply_post.replied_to = with_id("parent-1");
    let mut orphan = post(Some(MediaType::Image), Some("hi"));
    orphan.is_reply = true;

    assert!(image_matcher(&root)(&root_post));
    assert!(!image_matcher(&root)(&reply_post));
    assert!(!image_matcher(&reply)(&root_post));
    assert!(image_matcher(&reply)(&reply_post));
    assert!(!image_matcher(&reply)(&orphan));
    reply_post.replied_to = with_id("parent-2");
    assert!(!image_matcher(&reply)(&reply_post));
}

#[test]
fn topic_tells_roots_apart_but_not_replies() {
    let mut root = text("hi");
    root.topic_tag = Some("rust".to_owned());
    let mut p = post(None, Some("hi"));
    assert!(!text_matcher(&root)(&p));
    p.topic_tag = Some("rust".to_owned());
    assert!(text_matcher(&root)(&p));
    assert!(!text_matcher(&text("hi"))(&p));

    root.reply_to_id = Some(PostId::from("parent-1"));
    p.is_reply = true;
    p.replied_to = with_id("parent-1");
    assert!(text_matcher(&root)(&p));
    p.topic_tag = Some("golang".to_owned());
    assert!(text_matcher(&root)(&p));
}

#[test]
fn unset_and_empty_strings_are_the_same() {
    let mut content = image(Some(""), "u");
    content.topic_tag = Some("tag".to_owned());
    let mut p = post(Some(MediaType::Image), None);
    p.topic_tag = Some("tag".to_owned());
    assert!(image_matcher(&content)(&p));
    p.text = Some(String::new());
    assert!(image_matcher(&content)(&p));
    content.text = None;
    assert!(image_matcher(&content)(&p));
}

#[test]
fn topic_alone_distinguishes_a_root_but_not_a_reply() {
    let p = {
        let mut p = post(Some(MediaType::Video), None);
        p.topic_tag = Some("tag".to_owned());
        p
    };
    assert!(media_content_matches(&p, "", "tag", None, None));

    let parent = PostId::from("parent-1");
    let mut reply = p;
    reply.is_reply = true;
    reply.replied_to = with_id("parent-1");
    assert!(!media_content_matches(&reply, "", "tag", Some(&parent), None));
    reply.text = Some("hi".to_owned());
    assert!(media_content_matches(&reply, "hi", "tag", Some(&parent), None));
}

#[test]
fn quote_target_alone_distinguishes_roots_and_replies() {
    let quoted = PostId::from("q1");
    let parent = PostId::from("parent-1");
    let mut p = post(Some(MediaType::Video), None);
    p.is_quote_post = true;
    p.quoted_post = with_id("q1");
    assert!(media_content_matches(&p, "", "", None, Some(&quoted)));
    p.is_reply = true;
    p.replied_to = with_id("parent-1");
    assert!(media_content_matches(&p, "", "", Some(&parent), Some(&quoted)));
    assert!(!media_content_matches(&p, "other", "", Some(&parent), Some(&quoted)));
}

#[test]
fn indistinguishable_video_and_carousel_accept_nothing() {
    let v = video(None, "u");
    assert!(!video_matcher(&v)(&post(Some(MediaType::Video), None)));
    let c = carousel(None, &["c1"]);
    assert!(!carousel_matcher(&c)(&album(None, &["p1"])));
}

#[test]
fn media_address_is_not_compared() {
    let p = post(Some(MediaType::Image), Some("hi"));
    assert!(image_matcher(&image(Some("hi"), "https://a.example/1"))(&p));
    assert!(image_matcher(&image(Some("hi"), "https://b.example/2"))(&p));
    let p = post(Some(MediaType::Audio), Some("hi"));
    assert!(video_matcher(&video(Some("hi"), "https://a.example/1"))(&p));
    assert!(video_matcher(&video(Some("hi"), "https://b.example/2"))(&p));
}

#[test]
fn children_are_only_counted() {
    let c = carousel(Some("album"), &["c1", "c2"]);
    assert!(carousel_matcher(&c)(&album(Some("album"), &["p1", "p2"])));
    assert!(carousel_matcher(&c)(&album(Some("album"), &["x", "y"])));
    assert!(!carousel_matcher(&c)(&album(Some("album"), &["c1"])));
    assert!(!carousel_matcher(&c)(&album(Some("album"), &["c1", "c2", "c3"])));
}

#[test]
fn text_is_compared_character_by_character() {
    let content = text("Gr\u{fc}\u{df}e \u{1f980}");
    let matches = text_matcher(&content);
    assert!(matches(&post(None, Some("Gr\u{fc}\u{df}e \u{1f980}"))));
    assert!(!matches(&post(None, Some("Gr\u{fc}\u{df}e \u{1f981}"))));
    assert!(!matches(&post(None, Some("Gr\u{fc}\u{df}e"))));
    assert!(!matches(&post(None, None)));
}

#[test]
fn matcher_outlives_its_content() {
    let matches = {
        let content = text("hi");
        text_matcher(&content)
    };
    assert!(matches(&post(None, Some("hi"))));
}
