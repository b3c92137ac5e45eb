use threads_rs::api::post_matchers::{
    carousel_matcher, image_matcher, quote_matches, reply_has_unique_discriminator,
    root_has_unique_discriminator, text_matcher, video_matcher,
};
use threads_rs::api::posts_publish_recovery::should_attempt_publish_recovery;
use threads_rs::error;
use threads_rs::types::{
    CarouselPostContent, ChildPost, ChildrenData, ContainerId, ImagePostContent, MediaType, Post,
    PostId, TextPostContent, VideoPostContent,
};

fn base_post(media_type: MediaType) -> Post {
    Post {
        id: PostId::from("post-1"),
        media_type: Some(media_type),
        text: None,
        topic_tag: None,
        is_reply: false,
        replied_to: None,
        is_quote_post: false,
        quoted_post: None,
        children: None,
    }
}

fn text_content(text: &str) -> TextPostContent {
    TextPostContent {
        text: text.to_owned(),
        link_attachment: None,
        reply_to_id: None,
        topic_tag: None,
        allowlisted_country_codes: None,
        location_id: None,
        auto_publish_text: false,
        quoted_post_id: None,
        is_ghost_post: false,
        enable_reply_approvals: false,
    }
}

fn image_content(text: Option<&str>) -> ImagePostContent {
    ImagePostContent {
        text: text.map(str::to_owned),
        image_url: "https://example.com/img.jpg".into(),
        alt_text: None,
        reply_to_id: None,
        topic_tag: None,
        allowlisted_country_codes: None,
        location_id: None,
        quoted_post_id: None,
        is_spoiler_media: false,
        enable_reply_approvals: false,
    }
}

#[test]
fn test_should_attempt_publish_recovery_code_10() {
    let mut err = error::new_api_error(10, "GraphMethodException", "", "");
    error::set_error_metadata(&mut err, false, 500, 0);
    assert!(should_attempt_publish_recovery(&err));
}

#[test]
fn test_should_not_attempt_publish_recovery_other_codes() {
    let err = error::new_api_error(1, "Internal error", "", "");
    assert!(!should_attempt_publish_recovery(&err));

    let auth = error::new_authentication_error(190, "Invalid token", "");
    assert!(!should_attempt_publish_recovery(&auth));
}

#[test]
fn test_text_matcher_matches_by_text() {
    let content = text_content("hello world");
    let matches = text_matcher(&content);

    let mut post = base_post(MediaType::TextPost);
    post.text = Some("hello world".into());
    assert!(matches(&post));

    post.text = Some("different".into());
    assert!(!matches(&post));
}

#[test]
fn test_text_matcher_accepts_missing_media_type() {
    let content = text_content("hello");
    let matches = text_matcher(&content);

    let mut post = base_post(MediaType::TextPost);
    post.media_type = None;
    post.text = Some("hello".into());
    assert!(matches(&post));
}

#[test]
fn test_text_matcher_rejects_wrong_media_type() {
    let content = text_content("hello");
    let matches = text_matcher(&content);

    let mut post = base_post(MediaType::Image);
    post.text = Some("hello".into());
    assert!(!matches(&post));
}

#[test]
fn test_text_matcher_rejects_quote_mismatch() {
    let content = text_content("hello");
    let matches = text_matcher(&content);

    let mut post = base_post(MediaType::TextPost);
    post.text = Some("hello".into());
    post.is_quote_post = true;
    assert!(!matches(&post), "unexpected quote post must not match");
}

#[test]
fn test_text_matcher_matches_quote_post() {
    let mut content = text_content("hello");
    content.quoted_post_id = Some(PostId::from("quoted-1"));
    let matches = text_matcher(&content);

    let mut post = base_post(MediaType::TextPost);
    post.text = Some("hello".into());
    post.is_quote_post = true;
    post.quoted_post = Some(Box::new(base_post(MediaType::TextPost)));
    post.quoted_post.as_mut().unwrap().id = PostId::from("quoted-1");
    assert!(matches(&post));

    post.quoted_post.as_mut().unwrap().id = PostId::from("quoted-other");
    assert!(!matches(&post));
}

#[test]
fn test_text_matcher_reply() {
    let mut content = text_content("reply text");
    content.reply_to_id = Some(PostId::from("parent-1"));
    let matches = text_matcher(&content);

    let mut post = base_post(MediaType::TextPost);
    post.text = Some("reply text".into());
    post.is_reply = true;
    post.replied_to = Some(Box::new(base_post(MediaType::TextPost)));
    post.replied_to.as_mut().unwrap().id = PostId::from("parent-1");
    assert!(matches(&post));

    // Same text but a reply to a different parent
    post.replied_to.as_mut().unwrap().id = PostId::from("parent-other");
    assert!(!matches(&post));

    // Same text but not a reply at all
    post.is_reply = false;
    post.replied_to = None;
    assert!(!matches(&post));
}

#[test]
fn test_text_matcher_topic_tag_disambiguates_roots() {
    let mut content = text_content("same text");
    content.topic_tag = Some("rust".into());
    let matches = text_matcher(&content);

    let mut post = base_post(MediaType::TextPost);
    post.text = Some("same text".into());
    post.topic_tag = Some("rust".into());
    assert!(matches(&post));

    post.topic_tag = Some("golang".into());
    assert!(!matches(&post));
}

#[test]
fn test_image_matcher_root_requires_discriminator() {
    // Nothing tells an image-only root from other images.
    let content = image_content(None);
    let matches = image_matcher(&content);

    let post = base_post(MediaType::Image);
    assert!(!matches(&post));
}

#[test]
fn test_image_matcher_root_with_text() {
    let content = image_content(Some("caption"));
    let matches = image_matcher(&content);

    let mut post = base_post(MediaType::Image);
    post.text = Some("caption".into());
    assert!(matches(&post));

    post.text = None;
    assert!(!matches(&post));
}

#[test]
fn test_image_matcher_reply_requires_discriminator() {
    // A blank reply that quotes nothing fails closed even under the right parent.
    let mut content = image_content(None);
    content.reply_to_id = Some(PostId::from("parent-1"));
    let matches = image_matcher(&content);

    let mut post = base_post(MediaType::Image);
    post.is_reply = true;
    post.replied_to = Some(Box::new(base_post(MediaType::TextPost)));
    post.replied_to.as_mut().unwrap().id = PostId::from("parent-1");
    assert!(!matches(&post));
}

#[test]
fn test_image_matcher_reply_with_text() {
    let mut content = image_content(Some("reply caption"));
    content.reply_to_id = Some(PostId::from("parent-1"));
    let matches = image_matcher(&content);

    let mut post = base_post(MediaType::Image);
    post.text = Some("reply caption".into());
    post.is_reply = true;
    post.replied_to = Some(Box::new(base_post(MediaType::TextPost)));
    post.replied_to.as_mut().unwrap().id = PostId::from("parent-1");
    assert!(matches(&post));
}

#[test]
fn test_video_matcher_accepts_video_and_audio() {
    let content = VideoPostContent {
        text: Some("vid".into()),
        video_url: "https://example.com/v.mp4".into(),
        alt_text: None,
        reply_to_id: None,
        topic_tag: None,
        allowlisted_country_codes: None,
        location_id: None,
        quoted_post_id: None,
        is_spoiler_media: false,
        enable_reply_approvals: false,
    };
    let matches = video_matcher(&content);

    let mut post = base_post(MediaType::Video);
    post.text = Some("vid".into());
    assert!(matches(&post));

    post.media_type = Some(MediaType::Audio);
    assert!(matches(&post));

    post.media_type = Some(MediaType::Image);
    assert!(!matches(&post));
}

#[test]
fn test_carousel_matcher_children_count() {
    let content = CarouselPostContent {
        text: Some("album".into()),
        children: vec![ContainerId::from("c1"), ContainerId::from("c2")],
        reply_to_id: None,
        topic_tag: None,
        allowlisted_country_codes: None,
        location_id: None,
        quoted_post_id: None,
        is_spoiler_media: false,
        enable_reply_approvals: false,
    };
    let matches = carousel_matcher(&content);

    let mut post = base_post(MediaType::CarouselAlbum);
    post.text = Some("album".into());
    post.children = Some(ChildrenData {
        data: vec![
            ChildPost {
                id: PostId::from("p1"),
            },
            ChildPost {
                id: PostId::from("p2"),
            },
        ],
    });
    assert!(matches(&post));

    // Wrong child count
    post.children.as_mut().unwrap().data.pop();
    assert!(!matches(&post));

    // No children data at all
    post.children = None;
    assert!(!matches(&post));
}

#[test]
fn test_quote_matches() {
    let mut post = base_post(MediaType::TextPost);
    assert!(quote_matches(&post, None));

    post.is_quote_post = true;
    assert!(!quote_matches(&post, None));

    let want = PostId::from("q1");
    // is_quote_post but no embedded quoted_post
    assert!(!quote_matches(&post, Some(&want)));

    post.quoted_post = Some(Box::new(base_post(MediaType::TextPost)));
    post.quoted_post.as_mut().unwrap().id = PostId::from("q1");
    assert!(quote_matches(&post, Some(&want)));
}

#[test]
fn test_discriminator_helpers() {
    assert!(!root_has_unique_discriminator("", "", None));
    assert!(root_has_unique_discriminator("t", "", None));
    assert!(root_has_unique_discriminator("", "tag", None));
    let q = PostId::from("q");
    assert!(root_has_unique_discriminator("", "", Some(&q)));

    assert!(!reply_has_unique_discriminator("", None));
    assert!(reply_has_unique_discriminator("t", None));
    assert!(reply_has_unique_discriminator("", Some(&q)));
}
