use vstd::prelude::*;

verus! {

/// Identifier of a post.
#[derive(Debug, Eq, Hash)]
pub struct PostId(pub String);

impl View for PostId {
    type V = Seq<char>;

    open spec fn view(&self) -> Seq<char> {
        self.0@
    }
}

impl Clone for PostId {
    fn clone(&self) -> (copy: Self)
        ensures
            copy == *self,
    {
        PostId(self.0.clone())
    }
}

impl PartialEq for PostId {
    fn eq(&self, other: &Self) -> (same: bool)
        ensures
            same <==> self.0@ == other.0@,
    {
        self.0 == other.0
    }
}

impl vstd::std_specs::cmp::PartialEqSpecImpl for PostId {
    open spec fn obeys_eq_spec() -> bool {
        true
    }

    open spec fn eq_spec(&self, other: &Self) -> bool {
        self@ == other@
    }
}

impl From<&str> for PostId {
    fn from(id: &str) -> (post_id: PostId)
        ensures
            post_id@ == id@,
            post_id.0@ == id@,
    {
        PostId(id.to_owned())
    }
}

// A specification cannot name the `String` that a copy allocates, only its
// characters: `from` states these itself.
impl vstd::std_specs::convert::FromSpecImpl<&str> for PostId {
    open spec fn obeys_from_spec() -> bool {
        false
    }

    open spec fn from_spec(id: &str) -> PostId {
        arbitrary()
    }
}

/// Identifier of a media container.
#[derive(Debug, Eq, Hash)]
pub struct ContainerId(pub String);

impl View for ContainerId {
    type V = Seq<char>;

    open spec fn view(&self) -> Seq<char> {
        self.0@
    }
}

impl Clone for ContainerId {
    fn clone(&self) -> (copy: Self)
        ensures
            copy == *self,
    {
        ContainerId(self.0.clone())
    }
}

impl PartialEq for ContainerId {
    fn eq(&self, other: &Self) -> (same: bool)
        ensures
            same <==> self.0@ == other.0@,
    {
        self.0 == other.0
    }
}

impl vstd::std_specs::cmp::PartialEqSpecImpl for ContainerId {
    open spec fn obeys_eq_spec() -> bool {
        true
    }

    open spec fn eq_spec(&self, other: &Self) -> bool {
        self@ == other@
    }
}

impl From<&str> for ContainerId {
    fn from(id: &str) -> (container_id: ContainerId)
        ensures
            container_id@ == id@,
            container_id.0@ == id@,
    {
        ContainerId(id.to_owned())
    }
}

// A specification cannot name the `String` that a copy allocates, only its
// characters: `from` states these itself.
impl vstd::std_specs::convert::FromSpecImpl<&str> for ContainerId {
    open spec fn obeys_from_spec() -> bool {
        false
    }

    open spec fn from_spec(id: &str) -> ContainerId {
        arbitrary()
    }
}

/// Identifier of a user.
#[derive(Debug, Eq, Hash)]
pub struct UserId(pub String);

impl View for UserId {
    type V = Seq<char>;

    open spec fn view(&self) -> Seq<char> {
        self.0@
    }
}

impl Clone for UserId {
    fn clone(&self) -> (copy: Self)
        ensures
            copy == *self,
    {
        UserId(self.0.clone())
    }
}

impl PartialEq for UserId {
    fn eq(&self, other: &Self) -> (same: bool)
        ensures
            same <==> self.0@ == other.0@,
    {
        self.0 == other.0
    }
}

impl vstd::std_specs::cmp::PartialEqSpecImpl for UserId {
    open spec fn obeys_eq_spec() -> bool {
        true
    }

    open spec fn eq_spec(&self, other: &Self) -> bool {
        self@ == other@
    }
}

impl From<&str> for UserId {
    fn from(id: &str) -> (user_id: UserId)
        ensures
            user_id@ == id@,
            user_id.0@ == id@,
    {
        UserId(id.to_owned())
    }
}

// A specification cannot name the `String` that a copy allocates, only its
// characters: `from` states these itself.
impl vstd::std_specs::convert::FromSpecImpl<&str> for UserId {
    open spec fn obeys_from_spec() -> bool {
        false
    }

    open spec fn from_spec(id: &str) -> UserId {
        arbitrary()
    }
}

/// Kind of media that a post shows.
#[derive(Clone, Copy, Debug, PartialEq, Eq, Structural)]
pub enum MediaType {
    /// `TEXT`
    Text,
    /// `TEXT_POST`
    TextPost,
    /// `IMAGE`
    Image,
    /// `VIDEO`
    Video,
    /// `AUDIO`
    Audio,
    /// `CAROUSEL_ALBUM`
    CarouselAlbum,
    /// Any other kind.
    Other,
}

/// A child of a carousel post.
#[derive(Clone, Debug)]
pub struct ChildPost {
    /// Identifier of the child.
    pub id: PostId,
}

/// The children of a carousel post.
#[derive(Clone, Debug)]
pub struct ChildrenData {
    /// One entry for each child.
    pub data: Vec<ChildPost>,
}

/// A post as the API reports it.
#[derive(Debug)]
pub struct Post {
    /// Identifier of the post.
    pub id: PostId,
    /// Kind of media, where the API reports one.
    pub media_type: Option<MediaType>,
    /// Text of the post, where it has any.
    pub text: Option<String>,
    /// Topic of the post, where it has one.
    pub topic_tag: Option<String>,
    /// Whether the post answers another one.
    pub is_reply: bool,
    /// The post that this one answers, where the API reports it.
    pub replied_to: Option<Box<Post>>,
    /// Whether the post quotes another one.
    pub is_quote_post: bool,
    /// The post that this one quotes, where the API reports it.
    pub quoted_post: Option<Box<Post>>,
    /// Children of a carousel, where the API reports them.
    pub children: Option<ChildrenData>,
}

/// A page of posts.
#[derive(Debug)]
pub struct PostsResponse {
    /// The posts of the page.
    pub data: Vec<Post>,
}

/// State of a media container.
#[derive(Clone, Debug)]
pub struct ContainerStatus {
    /// Identifier of the container.
    pub id: ContainerId,
    /// One of the container statuses.
    pub status: String,
    /// What went wrong, where something did.
    pub error_message: Option<String>,
}

/// Which page of a user's posts to list.
#[derive(Clone, Debug)]
pub struct PostsOptions {
    /// Most posts to list.
    pub limit: Option<u32>,
    /// Only posts at or after this Unix timestamp.
    pub since: Option<i64>,
    /// Only posts at or before this Unix timestamp.
    pub until: Option<i64>,
    /// Page before this cursor.
    pub before: Option<String>,
    /// Page after this cursor.
    pub after: Option<String>,
}

/// A text post to publish.
#[derive(Clone, Debug)]
pub struct TextPostContent {
    pub text: String,
    pub link_attachment: Option<String>,
    pub reply_to_id: Option<PostId>,
    pub topic_tag: Option<String>,
    pub allowlisted_country_codes: Option<Vec<String>>,
    pub location_id: Option<String>,
    pub auto_publish_text: bool,
    pub quoted_post_id: Option<PostId>,
    pub is_ghost_post: bool,
    pub enable_reply_approvals: bool,
}

/// A single-image post to publish.
#[derive(Clone, Debug)]
pub struct ImagePostContent {
    pub text: Option<String>,
    pub image_url: String,
    pub alt_text: Option<String>,
    pub reply_to_id: Option<PostId>,
    pub topic_tag: Option<String>,
    pub allowlisted_country_codes: Option<Vec<String>>,
    pub location_id: Option<String>,
    pub quoted_post_id: Option<PostId>,
    pub is_spoiler_media: bool,
    pub enable_reply_approvals: bool,
}

/// A video post to publish.
#[derive(Clone, Debug)]
pub struct VideoPostContent {
    pub text: Option<String>,
    pub video_url: String,
    pub alt_text: Option<String>,
    pub reply_to_id: Option<PostId>,
    pub topic_tag: Option<String>,
    pub allowlisted_country_codes: Option<Vec<String>>,
    pub location_id: Option<String>,
    pub quoted_post_id: Option<PostId>,
    pub is_spoiler_media: bool,
    pub enable_reply_approvals: bool,
}

/// A carousel post to publish.
#[derive(Clone, Debug)]
pub struct CarouselPostContent {
    pub text: Option<String>,
    /// The media containers of the children.
    pub children: Vec<ContainerId>,
    pub reply_to_id: Option<PostId>,
    pub topic_tag: Option<String>,
    pub allowlisted_country_codes: Option<Vec<String>>,
    pub location_id: Option<String>,
    pub quoted_post_id: Option<PostId>,
    pub is_spoiler_media: bool,
    pub enable_reply_approvals: bool,
}

/// The characters of an optional string; none where it is unset.
pub open spec fn text_or_empty(text: Option<String>) -> Seq<char> {
    match text {
        Some(s) => s@,
        None => Seq::empty(),
    }
}

/// The characters of an optional post identifier.
pub open spec fn id_view(id: Option<PostId>) -> Option<Seq<char>> {
    match id {
        Some(id) => Some(id@),
        None => None,
    }
}

/// The characters of an optional reference to a post identifier.
pub open spec fn id_ref_view(id: Option<&PostId>) -> Option<Seq<char>> {
    match id {
        Some(id) => Some(id@),
        None => None,
    }
}

/// Identifiers are compared whole: two are equal exactly when they hold the
/// same characters.
pub proof fn law_identifiers_are_compared_whole(
    post_a: PostId,
    post_b: PostId,
    container_a: ContainerId,
    container_b: ContainerId,
    user_a: UserId,
    user_b: UserId,
)
    ensures
        vstd::std_specs::cmp::PartialEqSpec::eq_spec(&post_a, &post_b) <==> post_a.0@ == post_b.0@,
        vstd::std_specs::cmp::PartialEqSpec::eq_spec(&container_a, &container_b)
            <==> container_a.0@ == container_b.0@,
        vstd::std_specs::cmp::PartialEqSpec::eq_spec(&user_a, &user_b) <==> user_a.0@ == user_b.0@,
        post_a@ == post_a.0@,
        container_a@ == container_a.0@,
        user_a@ == user_a.0@,
{
}

} // verus!
