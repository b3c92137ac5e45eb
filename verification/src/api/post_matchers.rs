//! Matchers: whether a post that the API lists is the one that a publish
//! request created.
//!
//! A matcher compares what identifies a request among other requests of the
//! same user: text, topic, reply target and quote target. Where these leave the
//! request indistinguishable from others, the matcher accepts nothing.

use vstd::prelude::*;

use crate::strings::same_str;
use crate::types::{
    id_ref_view, id_view, text_or_empty, CarouselPostContent, ImagePostContent, MediaType, Post,
    PostId, TextPostContent, VideoPostContent,
};

verus! {

/// The identifier of the post that `post` quotes, where the API reports it.
pub open spec fn quoted_id_view(post: Post) -> Option<Seq<char>> {
    match post.quoted_post {
        Some(quoted) => Some(quoted.id@),
        None => None,
    }
}

/// The identifier of the post that `post` answers, where the API reports it.
pub open spec fn parent_id_view(post: Post) -> Option<Seq<char>> {
    match post.replied_to {
        Some(parent) => Some(parent.id@),
        None => None,
    }
}

/// `post` quotes exactly what was asked for: nothing, or the given post.
pub open spec fn quote_agrees(post: Post, quoted: Option<Seq<char>>) -> bool {
    &&& post.is_quote_post == (quoted is Some)
    &&& quoted is Some ==> quoted_id_view(post) == quoted
}

/// `post` stands where it was asked to: under the given parent, or as a root
/// under the given topic.
pub open spec fn place_agrees(
    post: Post,
    topic_tag: Seq<char>,
    reply_to: Option<Seq<char>>,
) -> bool {
    &&& post.is_reply == (reply_to is Some)
    &&& reply_to is Some ==> parent_id_view(post) == reply_to
    &&& reply_to is None ==> text_or_empty(post.topic_tag) == topic_tag
}

/// A request with these values can be told from the user's other requests. A
/// topic only tells roots apart: the topic of a reply is not compared.
pub open spec fn distinguishable(
    text: Seq<char>,
    topic_tag: Seq<char>,
    reply_to: Option<Seq<char>>,
    quoted: Option<Seq<char>>,
) -> bool {
    ||| text.len() > 0
    ||| quoted is Some
    ||| reply_to is None && topic_tag.len() > 0
}

/// `post` has the content of a media post with these values.
pub open spec fn media_content_agrees(
    post: Post,
    text: Seq<char>,
    topic_tag: Seq<char>,
    reply_to: Option<Seq<char>>,
    quoted: Option<Seq<char>>,
) -> bool {
    &&& distinguishable(text, topic_tag, reply_to, quoted)
    &&& text_or_empty(post.text) == text
    &&& quote_agrees(post, quoted)
    &&& place_agrees(post, topic_tag, reply_to)
}

impl TextPostContent {
    /// `post` is a text post with this content. The API reports text posts
    /// under two kinds, or under none.
    pub open spec fn agrees(self, post: Post) -> bool {
        &&& post.media_type is None || post.media_type == Some(MediaType::TextPost)
            || post.media_type == Some(MediaType::Text)
        &&& text_or_empty(post.text) == self.text@
        &&& quote_agrees(post, id_view(self.quoted_post_id))
        &&& place_agrees(post, text_or_empty(self.topic_tag), id_view(self.reply_to_id))
    }
}

impl ImagePostContent {
    /// `post` is an image post with this content.
    pub open spec fn agrees(self, post: Post) -> bool {
        &&& post.media_type == Some(MediaType::Image)
        &&& media_content_agrees(
            post,
            text_or_empty(self.text),
            text_or_empty(self.topic_tag),
            id_view(self.reply_to_id),
            id_view(self.quoted_post_id),
        )
    }
}

impl VideoPostContent {
    /// `post` is a video post with this content. The API reports uploads
    /// without a picture as audio.
    pub open spec fn agrees(self, post: Post) -> bool {
        &&& post.media_type == Some(MediaType::Video) || post.media_type == Some(MediaType::Audio)
        &&& media_content_agrees(
            post,
            text_or_empty(self.text),
            text_or_empty(self.topic_tag),
            id_view(self.reply_to_id),
            id_view(self.quoted_post_id),
        )
    }
}

impl CarouselPostContent {
    /// `post` is a carousel with this content and as many children.
    pub open spec fn agrees(self, post: Post) -> bool {
        &&& post.media_type == Some(MediaType::CarouselAlbum)
        &&& post.children matches Some(children) && children.data@.len() == self.children@.len()
        &&& media_content_agrees(
            post,
            text_or_empty(self.text),
            text_or_empty(self.topic_tag),
            id_view(self.reply_to_id),
            id_view(self.quoted_post_id),
        )
    }
}

/// Whether the quote state of `post` is what was asked for: `None` means that
/// it must not be a quote post, `Some` that it must quote that very post. A
/// match across that boundary would let a regular post pass for a quote post,
/// or the other way round.
pub fn quote_matches(post: &Post, want_quoted_id: Option<&PostId>) -> (agrees: bool)
    ensures
        agrees == quote_agrees(*post, id_ref_view(want_quoted_id)),
        want_quoted_id is None ==> agrees == !post.is_quote_post,
        want_quoted_id matches Some(want) ==> (agrees <==> post.is_quote_post
            && post.quoted_post is Some && post.quoted_post->0.id.0@ == want.0@),
{
    match want_quoted_id {
        None => !post.is_quote_post,
        Some(want) => post.is_quote_post && match &post.quoted_post {
            Some(quoted) => quoted.id == *want,
            None => false,
        },
    }
}

/// Whether text or quote target single out one reply among the replies to the
/// same parent.
pub fn reply_has_unique_discriminator(text: &str, quoted_post_id: Option<&PostId>) -> (unique: bool)
    ensures
        unique == (text@.len() > 0 || quoted_post_id is Some),
        forall|topic_tag: Seq<char>, parent: Seq<char>|
            unique == #[trigger] distinguishable(
                text@,
                topic_tag,
                Some(parent),
                id_ref_view(quoted_post_id),
            ),
{
    !text.is_empty() || quoted_post_id.is_some()
}

/// Whether text, topic or quote target tell a root post from unrelated posts
/// of the same kind.
pub fn root_has_unique_discriminator(
    text: &str,
    topic_tag: &str,
    quoted_post_id: Option<&PostId>,
) -> (unique: bool)
    ensures
        unique == (text@.len() > 0 || topic_tag@.len() > 0 || quoted_post_id is Some),
        unique == distinguishable(text@, topic_tag@, None, id_ref_view(quoted_post_id)),
{
    !text.is_empty() || !topic_tag.is_empty() || quoted_post_id.is_some()
}

/// The identifier of the parent of a reply, where the API reports the parent.
pub fn replied_to_id(post: &Post) -> (parent: Option<&PostId>)
    ensures
        match post.replied_to {
            Some(replied_to) => parent == Some(&replied_to.id),
            None => parent is None,
        },
        id_ref_view(parent) == parent_id_view(*post),
        parent is Some <==> post.replied_to is Some,
        parent matches Some(id) ==> id.0@ == post.replied_to->0.id.0@,
{
    match &post.replied_to {
        Some(parent) => Some(&parent.id),
        None => None,
    }
}

/// An optional string as a slice; empty where it is unset.
fn str_or_empty(text: &Option<String>) -> (slice: &str)
    ensures
        slice@ == text_or_empty(*text),
        match *text {
            Some(s) => slice@ == s@,
            None => slice@.len() == 0,
        },
{
    match text {
        Some(s) => s.as_str(),
        None => {
            proof {
                reveal_strlit("");
                assert(""@ =~= Seq::<char>::empty());
            }
            ""
        },
    }
}

/// The text of a post; empty where it has none.
pub fn post_text(post: &Post) -> (text: &str)
    ensures
        text@ == text_or_empty(post.text),
        match post.text {
            Some(s) => text@ == s@,
            None => text@.len() == 0,
        },
{
    str_or_empty(&post.text)
}

/// The topic of a post; empty where it has none.
pub fn post_topic_tag(post: &Post) -> (topic_tag: &str)
    ensures
        topic_tag@ == text_or_empty(post.topic_tag),
        match post.topic_tag {
            Some(s) => topic_tag@ == s@,
            None => topic_tag@.len() == 0,
        },
{
    str_or_empty(&post.topic_tag)
}

/// Whether `post` stands under `reply_to`, or is a root under `topic_tag`.
fn place_matches(post: &Post, topic_tag: &str, reply_to: Option<&PostId>) -> (agrees: bool)
    ensures
        agrees == place_agrees(*post, topic_tag@, id_ref_view(reply_to)),
        reply_to matches Some(parent) ==> (agrees <==> post.is_reply && post.replied_to is Some
            && post.replied_to->0.id.0@ == parent.0@),
        reply_to is None ==> (agrees <==> !post.is_reply && match post.topic_tag {
            Some(tag) => tag@ == topic_tag@,
            None => topic_tag@.len() == 0,
        }),
{
    assert(topic_tag@.len() == 0 ==> topic_tag@ =~= Seq::<char>::empty());
    match reply_to {
        None => !post.is_reply && same_str(post_topic_tag(post), topic_tag),
        Some(parent) => post.is_reply && match replied_to_id(post) {
            Some(id) => *id == *parent,
            None => false,
        },
    }
}

/// Whether `post` has the content of an image, video or carousel post with
/// these values; `text` and `topic_tag` are empty where they are unset.
///
/// A root must agree in text and topic, a reply in parent and text. A request
/// that nothing distinguishes matches no post: a root with neither text nor
/// topic nor quote target, a reply with neither text nor quote target.
pub fn media_content_matches(
    post: &Post,
    text: &str,
    topic_tag: &str,
    reply_to: Option<&PostId>,
    quoted_post_id: Option<&PostId>,
) -> (agrees: bool)
    ensures
        agrees == media_content_agrees(
            *post,
            text@,
            topic_tag@,
            id_ref_view(reply_to),
            id_ref_view(quoted_post_id),
        ),
        agrees ==> (post.text matches Some(s) ==> s@ == text@),
        agrees ==> (post.text is None ==> text@.len() == 0),
        agrees ==> (quoted_post_id is None ==> !post.is_quote_post),
        agrees ==> (quoted_post_id matches Some(want) ==> post.is_quote_post
            && post.quoted_post is Some && post.quoted_post->0.id.0@ == want.0@),
        agrees ==> (reply_to matches Some(parent) ==> post.is_reply && post.replied_to is Some
            && post.replied_to->0.id.0@ == parent.0@),
        agrees ==> (reply_to is None ==> !post.is_reply && match post.topic_tag {
            Some(tag) => tag@ == topic_tag@,
            None => topic_tag@.len() == 0,
        }),
        text@.len() == 0 && quoted_post_id is None && (reply_to is Some || topic_tag@.len() == 0)
            ==> !agrees,
        ({
            &&& text@.len() > 0 || quoted_post_id is Some || reply_to is None && topic_tag@.len()
                > 0
            &&& match post.text {
                Some(s) => s@ == text@,
                None => text@.len() == 0,
            }
            &&& match quoted_post_id {
                Some(want) => post.is_quote_post && post.quoted_post is Some
                    && post.quoted_post->0.id.0@ == want.0@,
                None => !post.is_quote_post,
            }
            &&& match reply_to {
                Some(parent) => post.is_reply && post.replied_to is Some
                    && post.replied_to->0.id.0@ == parent.0@,
                None => !post.is_reply && match post.topic_tag {
                    Some(tag) => tag@ == topic_tag@,
                    None => topic_tag@.len() == 0,
                },
            }
        }) ==> agrees,
{
    if !quote_matches(post, quoted_post_id) {
        return false;
    }
    match reply_to {
        None => {
            if !root_has_unique_discriminator(text, topic_tag, quoted_post_id) {
                return false;
            }
        },
        Some(_) => {
            if !reply_has_unique_discriminator(text, quoted_post_id) {
                return false;
            }
        },
    }
    assert(text@.len() == 0 ==> text@ =~= Seq::<char>::empty());
    place_matches(post, topic_tag, reply_to) && same_str(post_text(post), text)
}

/// A copy of an optional string; empty where it is unset.
fn owned_or_empty(text: &Option<String>) -> (owned: String)
    ensures
        owned@ == text_or_empty(*text),
        match *text {
            Some(s) => owned@ == s@,
            None => owned@.len() == 0,
        },
{
    match text {
        Some(s) => s.clone(),
        None => String::new(),
    }
}

/// A copy of an optional identifier.
fn cloned_id(id: &Option<PostId>) -> (copy: Option<PostId>)
    ensures
        copy == *id,
{
    match id {
        Some(id) => Some(id.clone()),
        None => None,
    }
}

/// Matcher for a text post. Text posts always have a text, which by itself
/// tells them apart well; roots are also told apart by their topic.
pub fn text_matcher(content: &TextPostContent) -> (matcher: impl Fn(&Post) -> bool)
    ensures
        forall|post: &Post| #[trigger] call_requires(matcher, (post,)),
        forall|post: &Post, agrees: bool| #[trigger]
            call_ensures(matcher, (post,), agrees) ==> agrees == content.agrees(*post),
{
    let text: String = content.text.clone();
    let topic_tag: String = owned_or_empty(&content.topic_tag);
    let reply_to: Option<PostId> = cloned_id(&content.reply_to_id);
    let quoted: Option<PostId> = cloned_id(&content.quoted_post_id);
    move |post: &Post| -> (agrees: bool)
        ensures
            agrees == content.agrees(*post),
        {
            if !matches!(post.media_type, None | Some(MediaType::TextPost) | Some(MediaType::Text)) {
                return false;
            }
            if !quote_matches(post, quoted.as_ref()) {
                return false;
            }
            if !same_str(post_text(post), text.as_str()) {
                return false;
            }
            place_matches(post, topic_tag.as_str(), reply_to.as_ref())
        }
}

/// Matcher for a single-image post. The image's address is not compared: the
/// API reports an address of its own.
pub fn image_matcher(content: &ImagePostContent) -> (matcher: impl Fn(&Post) -> bool)
    ensures
        forall|post: &Post| #[trigger] call_requires(matcher, (post,)),
        forall|post: &Post, agrees: bool| #[trigger]
            call_ensures(matcher, (post,), agrees) ==> agrees == content.agrees(*post),
{
    let text: String = owned_or_empty(&content.text);
    let topic_tag: String = owned_or_empty(&content.topic_tag);
    let reply_to: Option<PostId> = cloned_id(&content.reply_to_id);
    let quoted: Option<PostId> = cloned_id(&content.quoted_post_id);
    move |post: &Post| -> (agrees: bool)
        ensures
            agrees == content.agrees(*post),
        {
            if !matches!(post.media_type, Some(MediaType::Image)) {
                return false;
            }
            media_content_matches(
                post,
                text.as_str(),
                topic_tag.as_str(),
                reply_to.as_ref(),
                quoted.as_ref(),
            )
        }
}

/// Matcher for a video post; it compares what [`image_matcher`] compares.
pub fn video_matcher(content: &VideoPostContent) -> (matcher: impl Fn(&Post) -> bool)
    ensures
        forall|post: &Post| #[trigger] call_requires(matcher, (post,)),
        forall|post: &Post, agrees: bool| #[trigger]
            call_ensures(matcher, (post,), agrees) ==> agrees == content.agrees(*post),
{
    let text: String = owned_or_empty(&content.text);
    let topic_tag: String = owned_or_empty(&content.topic_tag);
    let reply_to: Option<PostId> = cloned_id(&content.reply_to_id);
    let quoted: Option<PostId> = cloned_id(&content.quoted_post_id);
    move |post: &Post| -> (agrees: bool)
        ensures
            agrees == content.agrees(*post),
        {
            if !matches!(post.media_type, Some(MediaType::Video) | Some(MediaType::Audio)) {
                return false;
            }
            media_content_matches(
                post,
                text.as_str(),
                topic_tag.as_str(),
                reply_to.as_ref(),
                quoted.as_ref(),
            )
        }
}

/// Matcher for a carousel post.
///
/// The identifiers of the children are not compared, only their number: a
/// request names the containers of its children, and the API reports the posts
/// that were made from them, under other identifiers.
pub fn carousel_matcher(content: &CarouselPostContent) -> (matcher: impl Fn(&Post) -> bool)
    ensures
        forall|post: &Post| #[trigger] call_requires(matcher, (post,)),
        forall|post: &Post, agrees: bool| #[trigger]
            call_ensures(matcher, (post,), agrees) ==> agrees == content.agrees(*post),
{
    let text: String = owned_or_empty(&content.text);
    let topic_tag: String = owned_or_empty(&content.topic_tag);
    let reply_to: Option<PostId> = cloned_id(&content.reply_to_id);
    let quoted: Option<PostId> = cloned_id(&content.quoted_post_id);
    let want_children: usize = content.children.len();
    move |post: &Post| -> (agrees: bool)
        ensures
            agrees == content.agrees(*post),
        {
            if !matches!(post.media_type, Some(MediaType::CarouselAlbum)) {
                return false;
            }
            match &post.children {
                Some(children) => {
                    if children.data.len() != want_children {
                        return false;
                    }
                },
                None => {
                    return false;
                },
            }
            media_content_matches(
                post,
                text.as_str(),
                topic_tag.as_str(),
                reply_to.as_ref(),
                quoted.as_ref(),
            )
        }
}

} // verus!
