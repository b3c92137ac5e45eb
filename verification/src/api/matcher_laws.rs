//! Laws of the matchers, over what each kind of content accepts.

use vstd::prelude::*;

use crate::api::post_matchers::{
    distinguishable, media_content_agrees, parent_id_view, place_agrees, quote_agrees,
    quoted_id_view,
};
use crate::types::{
    id_view, text_or_empty, CarouselPostContent, ImagePostContent, MediaType, Post,
    PostId, TextPostContent, VideoPostContent,
};

verus! {

/// A post is only accepted with the very quote state that was asked for: a
/// quote post never passes for a regular one, a regular post never for a quote
/// post, and a quote never for a quote of another post.
pub proof fn law_quote_state_is_never_crossed(
    text: TextPostContent,
    image: ImagePostContent,
    video: VideoPostContent,
    carousel: CarouselPostContent,
    post: Post,
)
    ensures
        text.agrees(post) ==> {
            &&& post.is_quote_post == (text.quoted_post_id is Some)
            &&& text.quoted_post_id matches Some(id) ==> quoted_id_view(post) == Some(id@)
        },
        image.agrees(post) ==> {
            &&& post.is_quote_post == (image.quoted_post_id is Some)
            &&& image.quoted_post_id matches Some(id) ==> quoted_id_view(post) == Some(id@)
        },
        video.agrees(post) ==> {
            &&& post.is_quote_post == (video.quoted_post_id is Some)
            &&& video.quoted_post_id matches Some(id) ==> quoted_id_view(post) == Some(id@)
        },
        carousel.agrees(post) ==> {
            &&& post.is_quote_post == (carousel.quoted_post_id is Some)
            &&& carousel.quoted_post_id matches Some(id) ==> quoted_id_view(post) == Some(id@)
        },
{
}

/// A reply is only accepted for a request to reply, and only under the parent
/// that was asked for; a root only for a request without a parent.
pub proof fn law_reply_state_is_never_crossed(
    text: TextPostContent,
    image: ImagePostContent,
    video: VideoPostContent,
    carousel: CarouselPostContent,
    post: Post,
)
    ensures
        text.agrees(post) ==> {
            &&& post.is_reply == (text.reply_to_id is Some)
            &&& text.reply_to_id matches Some(id) ==> parent_id_view(post) == Some(id@)
        },
        image.agrees(post) ==> {
            &&& post.is_reply == (image.reply_to_id is Some)
            &&& image.reply_to_id matches Some(id) ==> parent_id_view(post) == Some(id@)
        },
        video.agrees(post) ==> {
            &&& post.is_reply == (video.reply_to_id is Some)
            &&& video.reply_to_id matches Some(id) ==> parent_id_view(post) == Some(id@)
        },
        carousel.agrees(post) ==> {
            &&& post.is_reply == (carousel.reply_to_id is Some)
            &&& carousel.reply_to_id matches Some(id) ==> parent_id_view(post) == Some(id@)
        },
{
}

/// A media request that nothing distinguishes fails closed: a root with
/// neither text nor topic nor quote target, and a reply with neither text nor
/// quote target, accept no post whatever.
pub proof fn law_indistinguishable_media_accepts_nothing(
    image: ImagePostContent,
    video: VideoPostContent,
    carousel: CarouselPostContent,
    post: Post,
)
    ensures
        text_or_empty(image.text).len() == 0 && image.quoted_post_id is None && (
        image.reply_to_id is Some || text_or_empty(image.topic_tag).len() == 0) ==> !image.agrees(
            post,
        ),
        text_or_empty(video.text).len() == 0 && video.quoted_post_id is None && (
        video.reply_to_id is Some || text_or_empty(video.topic_tag).len() == 0) ==> !video.agrees(
            post,
        ),
        text_or_empty(carousel.text).len() == 0 && carousel.quoted_post_id is None && (
        carousel.reply_to_id is Some || text_or_empty(carousel.topic_tag).len() == 0)
            ==> !carousel.agrees(post),
{
}

/// Requests for different kinds of media never accept the same post.
pub proof fn law_kinds_are_disjoint(
    text: TextPostContent,
    image: ImagePostContent,
    video: VideoPostContent,
    carousel: CarouselPostContent,
    post: Post,
)
    ensures
        text.agrees(post) ==> !image.agrees(post) && !video.agrees(post) && !carousel.agrees(post),
        image.agrees(post) ==> !video.agrees(post) && !carousel.agrees(post),
        video.agrees(post) ==> !carousel.agrees(post),
{
}

/// Two text requests that accept the same post ask for the same thing: text,
/// quote target, parent, and, for roots, topic.
pub proof fn law_text_match_is_specific(a: TextPostContent, b: TextPostContent, post: Post)
    requires
        a.agrees(post),
        b.agrees(post),
    ensures
        a.text@ == b.text@,
        id_view(a.quoted_post_id) == id_view(b.quoted_post_id),
        id_view(a.reply_to_id) == id_view(b.reply_to_id),
        a.reply_to_id is None ==> text_or_empty(a.topic_tag) == text_or_empty(b.topic_tag),
{
}

/// Two sets of media values that fit the same post are the same, but for the
/// topic of replies.
proof fn lemma_media_match_is_specific(
    post: Post,
    text_a: Seq<char>,
    topic_a: Seq<char>,
    reply_a: Option<Seq<char>>,
    quoted_a: Option<Seq<char>>,
    text_b: Seq<char>,
    topic_b: Seq<char>,
    reply_b: Option<Seq<char>>,
    quoted_b: Option<Seq<char>>,
)
    requires
        media_content_agrees(post, text_a, topic_a, reply_a, quoted_a),
        media_content_agrees(post, text_b, topic_b, reply_b, quoted_b),
    ensures
        text_a == text_b,
        reply_a == reply_b,
        quoted_a == quoted_b,
        reply_a is None ==> topic_a == topic_b,
{
}

/// Two image requests that accept the same post ask for the same text, quote
/// target, parent, and, for roots, topic.
pub proof fn law_image_match_is_specific(a: ImagePostContent, b: ImagePostContent, post: Post)
    requires
        a.agrees(post),
        b.agrees(post),
    ensures
        text_or_empty(a.text) == text_or_empty(b.text),
        id_view(a.quoted_post_id) == id_view(b.quoted_post_id),
        id_view(a.reply_to_id) == id_view(b.reply_to_id),
        a.reply_to_id is None ==> text_or_empty(a.topic_tag) == text_or_empty(b.topic_tag),
{
    lemma_media_match_is_specific(
        post,
        text_or_empty(a.text),
        text_or_empty(a.topic_tag),
        id_view(a.reply_to_id),
        id_view(a.quoted_post_id),
        text_or_empty(b.text),
        text_or_empty(b.topic_tag),
        id_view(b.reply_to_id),
        id_view(b.quoted_post_id),
    );
}

/// Two video requests that accept the same post ask for the same text, quote
/// target, parent, and, for roots, topic.
pub proof fn law_video_match_is_specific(a: VideoPostContent, b: VideoPostContent, post: Post)
    requires
        a.agrees(post),
        b.agrees(post),
    ensures
        text_or_empty(a.text) == text_or_empty(b.text),
        id_view(a.quoted_post_id) == id_view(b.quoted_post_id),
        id_view(a.reply_to_id) == id_view(b.reply_to_id),
        a.reply_to_id is None ==> text_or_empty(a.topic_tag) == text_or_empty(b.topic_tag),
{
    lemma_media_match_is_specific(
        post,
        text_or_empty(a.text),
        text_or_empty(a.topic_tag),
        id_view(a.reply_to_id),
        id_view(a.quoted_post_id),
        text_or_empty(b.text),
        text_or_empty(b.topic_tag),
        id_view(b.reply_to_id),
        id_view(b.quoted_post_id),
    );
}

/// Two carousel requests that accept the same post ask for the same text, quote
/// target, parent, number of children, and, for roots, topic.
pub proof fn law_carousel_match_is_specific(
    a: CarouselPostContent,
    b: CarouselPostContent,
    post: Post,
)
    requires
        a.agrees(post),
        b.agrees(post),
    ensures
        a.children@.len() == b.children@.len(),
        text_or_empty(a.text) == text_or_empty(b.text),
        id_view(a.quoted_post_id) == id_view(b.quoted_post_id),
        id_view(a.reply_to_id) == id_view(b.reply_to_id),
        a.reply_to_id is None ==> text_or_empty(a.topic_tag) == text_or_empty(b.topic_tag),
{
    lemma_media_match_is_specific(
        post,
        text_or_empty(a.text),
        text_or_empty(a.topic_tag),
        id_view(a.reply_to_id),
        id_view(a.quoted_post_id),
        text_or_empty(b.text),
        text_or_empty(b.topic_tag),
        id_view(b.reply_to_id),
        id_view(b.quoted_post_id),
    );
}

/// The address of an image is not compared, nor anything else but text, topic,
/// parent and quote target: image requests that agree in these accept the same
/// posts.
pub proof fn law_image_address_is_not_compared(
    a: ImagePostContent,
    b: ImagePostContent,
    post: Post,
)
    requires
        text_or_empty(a.text) == text_or_empty(b.text),
        text_or_empty(a.topic_tag) == text_or_empty(b.topic_tag),
        id_view(a.reply_to_id) == id_view(b.reply_to_id),
        id_view(a.quoted_post_id) == id_view(b.quoted_post_id),
    ensures
        a.agrees(post) == b.agrees(post),
{
}

/// The address of a video is not compared, nor anything else but text, topic,
/// parent and quote target: video requests that agree in these accept the same
/// posts.
pub proof fn law_video_address_is_not_compared(
    a: VideoPostContent,
    b: VideoPostContent,
    post: Post,
)
    requires
        text_or_empty(a.text) == text_or_empty(b.text),
        text_or_empty(a.topic_tag) == text_or_empty(b.topic_tag),
        id_view(a.reply_to_id) == id_view(b.reply_to_id),
        id_view(a.quoted_post_id) == id_view(b.quoted_post_id),
    ensures
        a.agrees(post) == b.agrees(post),
{
}

/// The identifiers of a carousel's children are not compared, on neither side:
/// only their number counts.
pub proof fn law_children_are_only_counted(
    a: CarouselPostContent,
    b: CarouselPostContent,
    post: Post,
    other: Post,
)
    requires
        text_or_empty(a.text) == text_or_empty(b.text),
        text_or_empty(a.topic_tag) == text_or_empty(b.topic_tag),
        id_view(a.reply_to_id) == id_view(b.reply_to_id),
        id_view(a.quoted_post_id) == id_view(b.quoted_post_id),
        a.children@.len() == b.children@.len(),
        other == (Post { children: other.children, ..post }),
        post.children is Some == other.children is Some,
        post.children is Some ==> post.children->0.data@.len() == other.children->0.data@.len(),
    ensures
        a.agrees(post) == b.agrees(other),
{
}

/// The topic of a reply is not compared: replies that differ in nothing else
/// are accepted alike.
pub proof fn law_topic_of_reply_is_not_compared(
    text: TextPostContent,
    image: ImagePostContent,
    video: VideoPostContent,
    carousel: CarouselPostContent,
    post: Post,
    other: Post,
)
    requires
        other == (Post { topic_tag: other.topic_tag, ..post }),
    ensures
        text.reply_to_id is Some ==> text.agrees(post) == text.agrees(other),
        image.reply_to_id is Some ==> image.agrees(post) == image.agrees(other),
        video.reply_to_id is Some ==> video.agrees(post) == video.agrees(other),
        carousel.reply_to_id is Some ==> carousel.agrees(post) == carousel.agrees(other),
{
}

/// Same text, different topic: a root that one request accepts is never
/// accepted by a request under another topic.
pub proof fn law_topic_tells_roots_apart(a: TextPostContent, b: TextPostContent, post: Post)
    requires
        a.reply_to_id is None,
        text_or_empty(a.topic_tag) != text_or_empty(b.topic_tag),
    ensures
        !(a.agrees(post) && b.agrees(post)),
{
}

/// `post` stands under `reply_to` and quotes `quoted`.
pub open spec fn placed_as_asked(
    post: Post,
    reply_to: Option<Seq<char>>,
    quoted: Option<Seq<char>>,
) -> bool {
    &&& post.is_reply == (reply_to is Some)
    &&& parent_id_view(post) == reply_to
    &&& post.is_quote_post == (quoted is Some)
    &&& quoted_id_view(post) == quoted
}

/// A request accepts the post that echoes it: for text posts always, for media
/// posts wherever something distinguishes the request.
pub proof fn law_echo_is_accepted(
    text: TextPostContent,
    image: ImagePostContent,
    video: VideoPostContent,
    carousel: CarouselPostContent,
    post: Post,
)
    ensures
        ({
            &&& post.media_type is None || post.media_type == Some(MediaType::Text)
                || post.media_type == Some(MediaType::TextPost)
            &&& post.text == Some(text.text)
            &&& post.topic_tag == text.topic_tag
            &&& placed_as_asked(post, id_view(text.reply_to_id), id_view(text.quoted_post_id))
        }) ==> text.agrees(post),
        ({
            &&& post.media_type == Some(MediaType::Image)
            &&& post.text == image.text
            &&& post.topic_tag == image.topic_tag
            &&& placed_as_asked(post, id_view(image.reply_to_id), id_view(image.quoted_post_id))
            &&& distinguishable(
                text_or_empty(image.text),
                text_or_empty(image.topic_tag),
                id_view(image.reply_to_id),
                id_view(image.quoted_post_id),
            )
        }) ==> image.agrees(post),
        ({
            &&& post.media_type == Some(MediaType::Video) || post.media_type == Some(
                MediaType::Audio,
            )
            &&& post.text == video.text
            &&& post.topic_tag == video.topic_tag
            &&& placed_as_asked(post, id_view(video.reply_to_id), id_view(video.quoted_post_id))
            &&& distinguishable(
                text_or_empty(video.text),
                text_or_empty(video.topic_tag),
                id_view(video.reply_to_id),
                id_view(video.quoted_post_id),
            )
        }) ==> video.agrees(post),
        ({
            &&& post.media_type == Some(MediaType::CarouselAlbum)
            &&& post.children matches Some(children) && children.data@.len()
                == carousel.children@.len()
            &&& post.text == carousel.text
            &&& post.topic_tag == carousel.topic_tag
            &&& placed_as_asked(
                post,
                id_view(carousel.reply_to_id),
                id_view(carousel.quoted_post_id),
            )
            &&& distinguishable(
                text_or_empty(carousel.text),
                text_or_empty(carousel.topic_tag),
                id_view(carousel.reply_to_id),
                id_view(carousel.quoted_post_id),
            )
        }) ==> carousel.agrees(post),
{
}

/// A string without characters is the empty one.
proof fn lemma_no_characters()
    ensures
        forall|s: Seq<char>| #[trigger] s.len() == 0 ==> s == Seq::<char>::empty(),
{
    assert forall|s: Seq<char>| #[trigger] s.len() == 0 implies s == Seq::<char>::empty() by {
        assert(s =~= Seq::<char>::empty());
    }
}

/// What is accepted for a text post was asked for: the kind, every character of
/// the text, the quoted post, the parent of a reply and the topic of a root are
/// those of the request.
pub proof fn law_text_match_has_what_was_asked(content: TextPostContent, post: Post)
    requires
        content.agrees(post),
    ensures
        post.media_type is None || post.media_type == Some(MediaType::Text) || post.media_type
            == Some(MediaType::TextPost),
        match post.text {
            Some(b) => b@ == content.text@,
            None => content.text@.len() == 0,
        },
        match content.quoted_post_id {
            Some(want) => post.is_quote_post && post.quoted_post is Some
                && post.quoted_post->0.id.0@ == want.0@,
            None => !post.is_quote_post,
        },
        match content.reply_to_id {
            Some(parent) => post.is_reply && post.replied_to is Some
                && post.replied_to->0.id.0@ == parent.0@,
            None => !post.is_reply && match (content.topic_tag, post.topic_tag) {
                (Some(a), Some(b)) => a@ == b@,
                (Some(a), None) => a@.len() == 0,
                (None, Some(b)) => b@.len() == 0,
                (None, None) => true,
            },
        },
{
    lemma_no_characters();
}

/// What was asked for as a text post is accepted, whatever else the post and the
/// request hold.
pub proof fn law_text_match_needs_no_more(content: TextPostContent, post: Post)
    requires
        post.media_type is None || post.media_type == Some(MediaType::Text) || post.media_type
            == Some(MediaType::TextPost),
        match post.text {
            Some(b) => b@ == content.text@,
            None => content.text@.len() == 0,
        },
        match content.quoted_post_id {
            Some(want) => post.is_quote_post && post.quoted_post is Some
                && post.quoted_post->0.id.0@ == want.0@,
            None => !post.is_quote_post,
        },
        match content.reply_to_id {
            Some(parent) => post.is_reply && post.replied_to is Some
                && post.replied_to->0.id.0@ == parent.0@,
            None => !post.is_reply && match (content.topic_tag, post.topic_tag) {
                (Some(a), Some(b)) => a@ == b@,
                (Some(a), None) => a@.len() == 0,
                (None, Some(b)) => b@.len() == 0,
                (None, None) => true,
            },
        },
    ensures
        content.agrees(post),
{
    lemma_no_characters();
}

/// What is accepted for an image post was asked for: the kind, every character of
/// the text, the quoted post, the parent of a reply and the topic of a root are
/// those of the request, and something tells the
/// request from others.
pub proof fn law_image_match_has_what_was_asked(content: ImagePostContent, post: Post)
    requires
        content.agrees(post),
    ensures
        post.media_type == Some(MediaType::Image),
        match (content.text, post.text) {
            (Some(a), Some(b)) => a@ == b@,
            (Some(a), None) => a@.len() == 0,
            (None, Some(b)) => b@.len() == 0,
            (None, None) => true,
        },
        match content.quoted_post_id {
            Some(want) => post.is_quote_post && post.quoted_post is Some
                && post.quoted_post->0.id.0@ == want.0@,
            None => !post.is_quote_post,
        },
        match content.reply_to_id {
            Some(parent) => post.is_reply && post.replied_to is Some
                && post.replied_to->0.id.0@ == parent.0@,
            None => !post.is_reply && match (content.topic_tag, post.topic_tag) {
                (Some(a), Some(b)) => a@ == b@,
                (Some(a), None) => a@.len() == 0,
                (None, Some(b)) => b@.len() == 0,
                (None, None) => true,
            },
        },
        (content.text is Some && content.text->0@.len() > 0) || content.quoted_post_id is Some || (
        content.reply_to_id is None && content.topic_tag is Some && content.topic_tag->0@.len() > 0),
{
    lemma_no_characters();
}

/// What was asked for as an image post is accepted, whatever else the post and the
/// request hold.
pub proof fn law_image_match_needs_no_more(content: ImagePostContent, post: Post)
    requires
        post.media_type == Some(MediaType::Image),
        match (content.text, post.text) {
            (Some(a), Some(b)) => a@ == b@,
            (Some(a), None) => a@.len() == 0,
            (None, Some(b)) => b@.len() == 0,
            (None, None) => true,
        },
        match content.quoted_post_id {
            Some(want) => post.is_quote_post && post.quoted_post is Some
                && post.quoted_post->0.id.0@ == want.0@,
            None => !post.is_quote_post,
        },
        match content.reply_to_id {
            Some(parent) => post.is_reply && post.replied_to is Some
                && post.replied_to->0.id.0@ == parent.0@,
            None => !post.is_reply && match (content.topic_tag, post.topic_tag) {
                (Some(a), Some(b)) => a@ == b@,
                (Some(a), None) => a@.len() == 0,
                (None, Some(b)) => b@.len() == 0,
                (None, None) => true,
            },
        },
        (content.text is Some && content.text->0@.len() > 0) || content.quoted_post_id is Some || (
        content.reply_to_id is None && content.topic_tag is Some && content.topic_tag->0@.len() > 0),
    ensures
        content.agrees(post),
{
    lemma_no_characters();
}

/// What is accepted for a video post was asked for: the kind, every character of
/// the text, the quoted post, the parent of a reply and the topic of a root are
/// those of the request, and something tells the
/// request from others.
pub proof fn law_video_match_has_what_was_asked(content: VideoPostContent, post: Post)
    requires
        content.agrees(post),
    ensures
        post.media_type == Some(MediaType::Video) || post.media_type == Some(MediaType::Audio),
        match (content.text, post.text) {
            (Some(a), Some(b)) => a@ == b@,
            (Some(a), None) => a@.len() == 0,
            (None, Some(b)) => b@.len() == 0,
            (None, None) => true,
        },
        match content.quoted_post_id {
            Some(want) => post.is_quote_post && post.quoted_post is Some
                && post.quoted_post->0.id.0@ == want.0@,
            None => !post.is_quote_post,
        },
        match content.reply_to_id {
            Some(parent) => post.is_reply && post.replied_to is Some
                && post.replied_to->0.id.0@ == parent.0@,
            None => !post.is_reply && match (content.topic_tag, post.topic_tag) {
                (Some(a), Some(b)) => a@ == b@,
                (Some(a), None) => a@.len() == 0,
                (None, Some(b)) => b@.len() == 0,
                (None, None) => true,
            },
        },
        (content.text is Some && content.text->0@.len() > 0) || content.quoted_post_id is Some || (
        content.reply_to_id is None && content.topic_tag is Some && content.topic_tag->0@.len() > 0),
{
    lemma_no_characters();
}

/// What was asked for as a video post is accepted, whatever else the post and the
/// request hold.
pub proof fn law_video_match_needs_no_more(content: VideoPostContent, post: Post)
    requires
        post.media_type == Some(MediaType::Video) || post.media_type == Some(MediaType::Audio),
        match (content.text, post.text) {
            (Some(a), Some(b)) => a@ == b@,
            (Some(a), None) => a@.len() == 0,
            (None, Some(b)) => b@.len() == 0,
            (None, None) => true,
        },
        match content.quoted_post_id {
            Some(want) => post.is_quote_post && post.quoted_post is Some
                && post.quoted_post->0.id.0@ == want.0@,
            None => !post.is_quote_post,
        },
        match content.reply_to_id {
            Some(parent) => post.is_reply && post.replied_to is Some
                && post.replied_to->0.id.0@ == parent.0@,
            None => !post.is_reply && match (content.topic_tag, post.topic_tag) {
                (Some(a), Some(b)) => a@ == b@,
                (Some(a), None) => a@.len() == 0,
                (None, Some(b)) => b@.len() == 0,
                (None, None) => true,
            },
        },
        (content.text is Some && content.text->0@.len() > 0) || content.quoted_post_id is Some || (
        content.reply_to_id is None && content.topic_tag is Some && content.topic_tag->0@.len() > 0),
    ensures
        content.agrees(post),
{
    lemma_no_characters();
}

/// What is accepted for a carousel post was asked for: the kind, the number of
/// children, every character of
/// the text, the quoted post, the parent of a reply and the topic of a root are
/// those of the request, and something tells the
/// request from others.
pub proof fn law_carousel_match_has_what_was_asked(content: CarouselPostContent, post: Post)
    requires
        content.agrees(post),
    ensures
        post.media_type == Some(MediaType::CarouselAlbum),
        post.children is Some && post.children->0.data@.len() == content.children@.len(),
        match (content.text, post.text) {
            (Some(a), Some(b)) => a@ == b@,
            (Some(a), None) => a@.len() == 0,
            (None, Some(b)) => b@.len() == 0,
            (None, None) => true,
        },
        match content.quoted_post_id {
            Some(want) => post.is_quote_post && post.quoted_post is Some
                && post.quoted_post->0.id.0@ == want.0@,
            None => !post.is_quote_post,
        },
        match content.reply_to_id {
            Some(parent) => post.is_reply && post.replied_to is Some
                && post.replied_to->0.id.0@ == parent.0@,
            None => !post.is_reply && match (content.topic_tag, post.topic_tag) {
                (Some(a), Some(b)) => a@ == b@,
                (Some(a), None) => a@.len() == 0,
                (None, Some(b)) => b@.len() == 0,
                (None, None) => true,
            },
        },
        (content.text is Some && content.text->0@.len() > 0) || content.quoted_post_id is Some || (
        content.reply_to_id is None && content.topic_tag is Some && content.topic_tag->0@.len() > 0),
{
    lemma_no_characters();
}

/// What was asked for as a carousel post is accepted, whatever else the post and the
/// request hold.
pub proof fn law_carousel_match_needs_no_more(content: CarouselPostContent, post: Post)
    requires
        post.media_type == Some(MediaType::CarouselAlbum),
        post.children is Some && post.children->0.data@.len() == content.children@.len(),
        match (content.text, post.text) {
            (Some(a), Some(b)) => a@ == b@,
            (Some(a), None) => a@.len() == 0,
            (None, Some(b)) => b@.len() == 0,
            (None, None) => true,
        },
        match content.quoted_post_id {
            Some(want) => post.is_quote_post && post.quoted_post is Some
                && post.quoted_post->0.id.0@ == want.0@,
            None => !post.is_quote_post,
        },
        match content.reply_to_id {
            Some(parent) => post.is_reply && post.replied_to is Some
                && post.replied_to->0.id.0@ == parent.0@,
            None => !post.is_reply && match (content.topic_tag, post.topic_tag) {
                (Some(a), Some(b)) => a@ == b@,
                (Some(a), None) => a@.len() == 0,
                (None, Some(b)) => b@.len() == 0,
                (None, None) => true,
            },
        },
        (content.text is Some && content.text->0@.len() > 0) || content.quoted_post_id is Some || (
        content.reply_to_id is None && content.topic_tag is Some && content.topic_tag->0@.len() > 0),
    ensures
        content.agrees(post),
{
    lemma_no_characters();
}

/// Only the identifiers of the posts that a post quotes and answers are
/// compared: whatever else these hold, posts that name the same ones are
/// accepted alike.
pub proof fn law_embedded_posts_count_by_identifier(
    text: TextPostContent,
    image: ImagePostContent,
    video: VideoPostContent,
    carousel: CarouselPostContent,
    post: Post,
    other: Post,
)
    requires
        other == (Post { quoted_post: other.quoted_post, replied_to: other.replied_to, ..post }),
        post.quoted_post is Some == other.quoted_post is Some,
        post.quoted_post is Some ==> post.quoted_post->0.id.0@ == other.quoted_post->0.id.0@,
        post.replied_to is Some == other.replied_to is Some,
        post.replied_to is Some ==> post.replied_to->0.id.0@ == other.replied_to->0.id.0@,
    ensures
        text.agrees(post) == text.agrees(other),
        image.agrees(post) == image.agrees(other),
        video.agrees(post) == video.agrees(other),
        carousel.agrees(post) == carousel.agrees(other),
{
}

/// The identifier of the listed post itself is not compared: the request does
/// not know it.
pub proof fn law_identifier_of_post_is_not_compared(
    text: TextPostContent,
    image: ImagePostContent,
    video: VideoPostContent,
    carousel: CarouselPostContent,
    post: Post,
    other: Post,
)
    requires
        other == (Post { id: other.id, ..post }),
    ensures
        text.agrees(post) == text.agrees(other),
        image.agrees(post) == image.agrees(other),
        video.agrees(post) == video.agrees(other),
        carousel.agrees(post) == carousel.agrees(other),
{
}

/// A quote of another post is refused: where a request quotes a post, no
/// accepted post quotes a post of another identifier, and where it quotes none,
/// no accepted post is a quote.
pub proof fn law_quote_target_decides(post: Post, want: PostId, other: PostId)
    ensures
        quote_agrees(post, Some(want@)) <==> post.is_quote_post && post.quoted_post is Some
            && post.quoted_post->0.id.0@ == want.0@,
        quote_agrees(post, None) <==> !post.is_quote_post,
        quote_agrees(post, Some(want@)) && quote_agrees(post, Some(other@)) ==> want.0@ == other.0@,
        !(quote_agrees(post, Some(want@)) && quote_agrees(post, None)),
{
}

/// The place of a post is its parent, or, for a root, its topic.
pub proof fn law_place_decides(post: Post, topic_tag: Seq<char>, parent: PostId)
    ensures
        place_agrees(post, topic_tag, Some(parent@)) <==> post.is_reply && post.replied_to is Some
            && post.replied_to->0.id.0@ == parent.0@,
        place_agrees(post, topic_tag, None) ==> !post.is_reply,
        post.topic_tag matches Some(tag) ==> (place_agrees(post, topic_tag, None)
            <==> !post.is_reply && tag@ == topic_tag),
        post.topic_tag is None ==> (place_agrees(post, topic_tag, None) <==> !post.is_reply
            && topic_tag.len() == 0),
{
    lemma_no_characters();
}

/// Media values fit a post exactly when the post has the whole text, the place
/// and the quote target, and when something tells the request from others.
pub proof fn law_media_values_are_compared_whole(
    post: Post,
    text: Seq<char>,
    topic_tag: Seq<char>,
    parent: PostId,
    quoted: PostId,
)
    ensures
        media_content_agrees(post, text, topic_tag, None, None) ==> {
            &&& post.text matches Some(s) ==> s@ == text
            &&& post.text is None ==> text.len() == 0
            &&& post.topic_tag matches Some(s) ==> s@ == topic_tag
            &&& post.topic_tag is None ==> topic_tag.len() == 0
            &&& text.len() > 0 || topic_tag.len() > 0
            &&& !post.is_reply
            &&& !post.is_quote_post
        },
        media_content_agrees(post, text, topic_tag, None, Some(quoted@)) ==> {
            &&& post.text matches Some(s) ==> s@ == text
            &&& post.text is None ==> text.len() == 0
            &&& post.topic_tag matches Some(s) ==> s@ == topic_tag
            &&& post.topic_tag is None ==> topic_tag.len() == 0
            &&& !post.is_reply
            &&& post.is_quote_post
            &&& post.quoted_post is Some
            &&& post.quoted_post->0.id.0@ == quoted.0@
        },
        media_content_agrees(post, text, topic_tag, Some(parent@), None) ==> {
            &&& post.text matches Some(s) ==> s@ == text
            &&& text.len() > 0
            &&& post.is_reply
            &&& post.replied_to is Some
            &&& post.replied_to->0.id.0@ == parent.0@
            &&& !post.is_quote_post
        },
        media_content_agrees(post, text, topic_tag, Some(parent@), Some(quoted@)) ==> {
            &&& post.text matches Some(s) ==> s@ == text
            &&& post.text is None ==> text.len() == 0
            &&& post.is_reply
            &&& post.replied_to is Some
            &&& post.replied_to->0.id.0@ == parent.0@
            &&& post.is_quote_post
            &&& post.quoted_post is Some
            &&& post.quoted_post->0.id.0@ == quoted.0@
        },
{
}

} // verus!
