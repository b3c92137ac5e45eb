//! Recovery from `/threads_publish` false failures.
//!
//! The endpoint sometimes answers with an error (HTTP 5xx with code 10,
//! "Application does not have permission for this action") although the
//! container was published. The way out is to check the container's status
//! and, once it is PUBLISHED, to find the post among the user's recent posts.
//!
//! The flow is a chain of steps. Each step names one request; the caller makes
//! it, and hands the reply to the step, which gives the next one:
//!
//! 1. [`recover_or_original`] lets through only the errors worth a second look.
//! 2. [`StatusPoll`] asks for the container's status, a few times if need be:
//!    the publish answer can arrive before the status was updated.
//! 3. [`UserLookup`] asks who the user is, and fixes the search window.
//! 4. [`PostSearch`] lists the user's posts, a few times if need be: a post can
//!    lag behind its container in the listing.
//! 5. The end is the one matching post, or the original error.

use vstd::prelude::*;

use crate::api::recovery_window::{recovery_since, UtcInstant, PUBLISH_RECOVERY_WINDOW_SECS};
use crate::constants::{
    CONTAINER_STATUS_ERROR, CONTAINER_STATUS_EXPIRED, CONTAINER_STATUS_PUBLISHED,
};
use crate::error::{extract_base_fields, Error};
use crate::http::{is_non_retryable_permanent_error_code, PERMISSION_ERROR_CODE};
use crate::strings::same_str;
use crate::types::{ContainerId, ContainerStatus, Post, PostsOptions, PostsResponse, UserId};

verus! {

/// Most status requests that one recovery makes.
pub const MAX_RECOVERY_STATUS_POLLS: u32 = 5;

/// Most listings that one recovery asks for.
pub const MAX_RECOVERY_LIST_POLLS: u32 = 3;

/// Seconds to wait before a request is repeated.
pub const RECOVERY_POLL_INTERVAL_SECS: u64 = 1;

/// Most posts that one listing returns.
pub const RECOVERY_LIST_LIMIT: u32 = 25;

/// `err` is the answer that the API gives although the container was
/// published.
pub open spec fn is_false_failure(err: Error) -> bool {
    match err {
        Error::Authentication(fields) => fields.code == PERMISSION_ERROR_CODE,
        Error::Api(fields) => fields.code == PERMISSION_ERROR_CODE,
        Error::Other(_) => false,
    }
}

/// Whether `err` may come from a publish request that succeeded: code 10, which
/// the API returns for some permission setups while the container still moves
/// to PUBLISHED.
pub fn should_attempt_publish_recovery(err: &Error) -> (attempt: bool)
    ensures
        attempt == is_false_failure(*err),
        match *err {
            Error::Authentication(fields) => attempt <==> fields.code == 10,
            Error::Api(fields) => attempt <==> fields.code == 10,
            Error::Other(_) => !attempt,
        },
{
    match extract_base_fields(err) {
        Some(fields) => is_non_retryable_permanent_error_code(fields.code),
        None => false,
    }
}

/// What a recovery does next.
#[derive(Debug)]
pub enum RecoveryStep {
    /// Ask for the status of a container.
    FetchStatus(StatusPoll),
    /// Ask for the identifier of the user.
    ReadUserId(UserLookup),
    /// List the user's recent posts.
    ListPosts(PostSearch),
    /// Nothing: the recovered post, or the error of the publish request.
    Done(Result<Post, Error>),
}

/// Waiting for the status of a container to become PUBLISHED.
#[derive(Debug)]
pub struct StatusPoll {
    /// The container to ask for.
    pub container_id: ContainerId,
    /// When the publish request was made.
    pub publish_start: UtcInstant,
    /// The error of the publish request.
    pub publish_err: Error,
    /// Status requests that have been answered.
    pub attempt: u32,
}

/// Waiting for the identifier of the user who published.
#[derive(Debug)]
pub struct UserLookup {
    /// When the publish request was made.
    pub publish_start: UtcInstant,
    /// The error of the publish request.
    pub publish_err: Error,
}

/// Waiting for the published post to be listed.
#[derive(Debug)]
pub struct PostSearch {
    /// The user whose posts to list.
    pub user_id: UserId,
    /// Which posts to list.
    pub options: PostsOptions,
    /// The error of the publish request.
    pub publish_err: Error,
    /// Listings that have been answered.
    pub attempt: u32,
}

/// How many posts of a listing match.
#[derive(Clone, Copy, Debug)]
pub enum SearchOutcome {
    /// None does.
    NoMatch,
    /// Exactly the one at this position does.
    Unique(usize),
    /// More than one does.
    Ambiguous,
}

/// Seconds to wait before a request after `attempt` requests of its kind: the
/// first is made at once.
pub open spec fn poll_delay_secs(attempt: u32) -> u64 {
    if attempt > 0 {
        RECOVERY_POLL_INTERVAL_SECS
    } else {
        0
    }
}

/// The posts to consider: the latest ones since shortly before the publish
/// request.
pub open spec fn recovery_options(publish_start: UtcInstant) -> PostsOptions {
    PostsOptions {
        limit: Some(RECOVERY_LIST_LIMIT),
        since: Some((publish_start.whole_secs() - PUBLISH_RECOVERY_WINDOW_SECS) as i64),
        until: None,
        before: None,
        after: None,
    }
}

/// `matcher` decides the predicate `wanted`.
pub open spec fn decides<F: Fn(&Post) -> bool>(matcher: F, wanted: spec_fn(Post) -> bool) -> bool {
    forall|post: &Post, agrees: bool| #[trigger]
        call_ensures(matcher, (post,), agrees) ==> agrees == wanted(*post)
}

/// `outcome` is what answers of `matcher` on each of `posts` amount to.
pub open spec fn outcome_of<F: Fn(&Post) -> bool>(
    posts: Seq<Post>,
    matcher: F,
    outcome: SearchOutcome,
) -> bool {
    match outcome {
        SearchOutcome::NoMatch => forall|i: int|
            0 <= i < posts.len() ==> call_ensures(matcher, (&#[trigger] posts[i],), false),
        SearchOutcome::Unique(at) => {
            &&& at < posts.len()
            &&& call_ensures(matcher, (&posts[at as int],), true)
            &&& forall|i: int|
                0 <= i < posts.len() && i != at ==> call_ensures(
                    matcher,
                    (&#[trigger] posts[i],),
                    false,
                )
        },
        SearchOutcome::Ambiguous => exists|i: int, j: int|
            0 <= i < j < posts.len() && call_ensures(matcher, (&#[trigger] posts[i],), true)
                && call_ensures(matcher, (&#[trigger] posts[j],), true),
    }
}

/// No post is wanted.
pub open spec fn none_wanted(posts: Seq<Post>, wanted: spec_fn(Post) -> bool) -> bool {
    forall|i: int| 0 <= i < posts.len() ==> !wanted(#[trigger] posts[i])
}

/// The post at `at` is wanted, and no other.
pub open spec fn only_wanted(posts: Seq<Post>, wanted: spec_fn(Post) -> bool, at: int) -> bool {
    &&& 0 <= at < posts.len()
    &&& wanted(posts[at])
    &&& forall|i: int| 0 <= i < posts.len() && i != at ==> !wanted(#[trigger] posts[i])
}

/// At least two posts are wanted.
pub open spec fn several_wanted(posts: Seq<Post>, wanted: spec_fn(Post) -> bool) -> bool {
    exists|i: int, j: int|
        0 <= i < j < posts.len() && wanted(#[trigger] posts[i]) && wanted(#[trigger] posts[j])
}

impl StatusPoll {
    /// The step after the reply to this step's request.
    pub open spec fn after_status(self, reply: Result<ContainerStatus, Error>) -> RecoveryStep {
        match reply {
            Err(_) => RecoveryStep::Done(Err(self.publish_err)),
            Ok(status) => if status.status@ == CONTAINER_STATUS_PUBLISHED@ {
                RecoveryStep::ReadUserId(
                    UserLookup {
                        publish_start: self.publish_start,
                        publish_err: self.publish_err,
                    },
                )
            } else if status.status@ == CONTAINER_STATUS_ERROR@ || status.status@
                == CONTAINER_STATUS_EXPIRED@ || self.attempt + 1 >= MAX_RECOVERY_STATUS_POLLS {
                RecoveryStep::Done(Err(self.publish_err))
            } else {
                RecoveryStep::FetchStatus(StatusPoll { attempt: (self.attempt + 1) as u32, ..self })
            },
        }
    }

    /// Seconds to wait before the request.
    pub fn delay_secs(&self) -> (secs: u64)
        ensures
            secs == poll_delay_secs(self.attempt),
            self.attempt == 0 ==> secs == 0,
            self.attempt > 0 ==> secs == 1,
    {
        if self.attempt > 0 {
            RECOVERY_POLL_INTERVAL_SECS
        } else {
            0
        }
    }

    /// Takes the reply to a status request.
    ///
    /// PUBLISHED lets the recovery go on. ERROR, EXPIRED and a failed request
    /// end it, as does the last reply that the poll budget allows; after any
    /// other status the request is made again.
    pub fn wait_for_container_published(self, reply: Result<ContainerStatus, Error>) -> (step:
        RecoveryStep)
        ensures
            step == self.after_status(reply),
            step is ReadUserId <==> (reply matches Ok(status) && status.status@ == "PUBLISHED"@),
            step matches RecoveryStep::ReadUserId(lookup) ==> lookup.publish_start
                == self.publish_start && lookup.publish_err == self.publish_err,
            step is FetchStatus ==> self.attempt < 4,
            step matches RecoveryStep::FetchStatus(poll) ==> {
                &&& poll.attempt == self.attempt + 1
                &&& poll.container_id == self.container_id
                &&& poll.publish_start == self.publish_start
                &&& poll.publish_err == self.publish_err
            },
            step is Done ==> step == RecoveryStep::Done(Err(self.publish_err)),
            !(step is ListPosts),
            (reply matches Ok(status) && status.status@ != "PUBLISHED"@ && status.status@
                != "ERROR"@ && status.status@ != "EXPIRED"@) && self.attempt < 4
                ==> step is FetchStatus,
            reply is Err || self.attempt >= 4 ==> !(step is FetchStatus),
            (reply matches Ok(status) && (status.status@ == "ERROR"@ || status.status@
                == "EXPIRED"@)) ==> step == RecoveryStep::Done(Err(self.publish_err)),
    {
        proof {
            reveal_strlit("PUBLISHED");
            reveal_strlit("ERROR");
            reveal_strlit("EXPIRED");
            assert("PUBLISHED"@[0] == 'P' && "ERROR"@[0] == 'E' && "EXPIRED"@[0] == 'E');
        }
        let status: ContainerStatus = match reply {
            Ok(status) => status,
            Err(_) => {
                return RecoveryStep::Done(Err(self.publish_err));
            },
        };
        if same_str(status.status.as_str(), CONTAINER_STATUS_PUBLISHED) {
            return RecoveryStep::ReadUserId(
                UserLookup { publish_start: self.publish_start, publish_err: self.publish_err },
            );
        }
        if same_str(status.status.as_str(), CONTAINER_STATUS_ERROR) || same_str(
            status.status.as_str(),
            CONTAINER_STATUS_EXPIRED,
        ) {
            return RecoveryStep::Done(Err(self.publish_err));
        }
        if self.attempt < MAX_RECOVERY_STATUS_POLLS - 1 {
            RecoveryStep::FetchStatus(StatusPoll { attempt: self.attempt + 1, ..self })
        } else {
            RecoveryStep::Done(Err(self.publish_err))
        }
    }
}

impl UserLookup {
    /// The step after the reply to this step's request.
    pub open spec fn after_user_id(self, user_id: String) -> RecoveryStep {
        if user_id@.len() == 0 {
            RecoveryStep::Done(Err(self.publish_err))
        } else {
            RecoveryStep::ListPosts(
                PostSearch {
                    user_id: UserId(user_id),
                    options: recovery_options(self.publish_start),
                    publish_err: self.publish_err,
                    attempt: 0,
                },
            )
        }
    }

    /// Takes the identifier of the user; it is empty where nobody is logged in,
    /// which ends the recovery.
    pub fn begin_search(self, user_id: String) -> (step: RecoveryStep)
        requires
            user_id@.len() > 0 ==> self.publish_start.reaches_back(
                PUBLISH_RECOVERY_WINDOW_SECS as int,
            ),
        ensures
            step == self.after_user_id(user_id),
            user_id@.len() == 0 ==> step == RecoveryStep::Done(Err(self.publish_err)),
            user_id@.len() > 0 ==> {
                &&& step matches RecoveryStep::ListPosts(search)
                &&& search.user_id.0 == user_id
                &&& search.attempt == 0
                &&& search.publish_err == self.publish_err
                &&& search.options.limit == Some(25u32)
                &&& search.options.since matches Some(since)
                &&& since <= self.publish_start.secs - 4
                &&& self.publish_start.nanos < 1_000_000_000 ==> since == self.publish_start.secs
                    - 5
                &&& self.publish_start.nanos >= 1_000_000_000 ==> since
                    == self.publish_start.secs + 1 - 5
                &&& search.options.until is None
                &&& search.options.before is None
                &&& search.options.after is None
            },
    {
        if user_id.as_str().is_empty() {
            return RecoveryStep::Done(Err(self.publish_err));
        }
        let options: PostsOptions = PostsOptions {
            limit: Some(RECOVERY_LIST_LIMIT),
            since: Some(recovery_since(self.publish_start)),
            until: None,
            before: None,
            after: None,
        };
        RecoveryStep::ListPosts(
            PostSearch { user_id: UserId(user_id), options, publish_err: self.publish_err, attempt: 0 },
        )
    }
}

/// Looks for the one post that matches. More than one match is ambiguous:
/// matchers are unique per request, so picking one would be a guess.
pub fn find_unique_match<F: Fn(&Post) -> bool>(posts: &Vec<Post>, matcher: &F) -> (outcome:
    SearchOutcome)
    requires
        forall|post: &Post| #[trigger] call_requires(*matcher, (post,)),
    ensures
        outcome_of(posts@, *matcher, outcome),
        forall|wanted: spec_fn(Post) -> bool|
            #![trigger posts@.filter(wanted)]
            (forall|post: &Post, agrees: bool| #[trigger]
                call_ensures(*matcher, (post,), agrees) ==> agrees == wanted(*post))
                ==> match outcome {
                SearchOutcome::NoMatch => posts@.filter(wanted).len() == 0,
                SearchOutcome::Unique(at) => at < posts@.len() && posts@.filter(wanted)
                    == seq![posts@[at as int]],
                SearchOutcome::Ambiguous => posts@.filter(wanted).len() >= 2,
            },
{
    let mut found: Option<usize> = None;
    let mut i: usize = 0;
    while i < posts.len()
        invariant
            i <= posts@.len(),
            forall|post: &Post| #[trigger] call_requires(*matcher, (post,)),
            found matches Some(at) ==> at < i && call_ensures(*matcher, (&posts@[at as int],), true),
            forall|k: int|
                0 <= k < i && found != Some(k as usize) ==> call_ensures(
                    *matcher,
                    (&#[trigger] posts@[k],),
                    false,
                ),
        decreases posts@.len() - i,
    {
        if matcher(&posts[i]) {
            if let Some(at) = found {
                assert(0 <= at < i < posts@.len());
                proof {
                    lemma_outcome_counts(posts@, *matcher, SearchOutcome::Ambiguous);
                }
                return SearchOutcome::Ambiguous;
            }
            found = Some(i);
        }
        i = i + 1;
    }
    let outcome: SearchOutcome = match found {
        Some(at) => SearchOutcome::Unique(at),
        None => SearchOutcome::NoMatch,
    };
    proof {
        lemma_outcome_counts(posts@, *matcher, outcome);
    }
    outcome
}

/// The posts that `wanted` picks are as many as `none_wanted`, `only_wanted`
/// and `several_wanted` say.
pub(crate) proof fn lemma_wanted_counts(posts: Seq<Post>, wanted: spec_fn(Post) -> bool)
    ensures
        posts.filter(wanted).len() == 0 <==> none_wanted(posts, wanted),
        forall|at: int| #[trigger]
            only_wanted(posts, wanted, at) ==> posts.filter(wanted) == seq![posts[at]],
        posts.filter(wanted).len() == 1 ==> exists|at: int| #[trigger]
            only_wanted(posts, wanted, at),
        posts.filter(wanted).len() >= 2 <==> several_wanted(posts, wanted),
    decreases posts.len(),
{
    reveal(Seq::filter);
    if posts.len() > 0 {
        let before = posts.drop_last();
        let last = posts.len() - 1;
        lemma_wanted_counts(before, wanted);
        assert(forall|i: int| 0 <= i < before.len() ==> before[i] == posts[i]);
        if several_wanted(before, wanted) {
            let (i, j) = choose|i: int, j: int|
                0 <= i < j < before.len() && wanted(#[trigger] before[i]) && wanted(
                    #[trigger] before[j],
                );
            assert(wanted(posts[i]) && wanted(posts[j]));
        }
        if wanted(posts[last]) {
            if before.filter(wanted).len() == 0 {
                assert(only_wanted(posts, wanted, last));
                assert(posts.filter(wanted) =~= seq![posts[last]]);
            } else {
                assert(exists|i: int| 0 <= i < before.len() && wanted(#[trigger] before[i]));
                let i = choose|i: int| 0 <= i < before.len() && wanted(#[trigger] before[i]);
                assert(wanted(posts[i]) && wanted(posts[last]));
            }
        } else {
            assert forall|at: int| #[trigger] only_wanted(posts, wanted, at) implies only_wanted(
                before,
                wanted,
                at,
            ) by {
                assert(at != last);
            }
            if posts.filter(wanted).len() == 1 {
                let at = choose|at: int| #[trigger] only_wanted(before, wanted, at);
                assert(before[at] == posts[at]);
                assert(only_wanted(posts, wanted, at));
            }
        }
    }
}

/// The outcome of a search counts the wanted posts, for every predicate that
/// the matcher decides.
proof fn lemma_outcome_counts<F: Fn(&Post) -> bool>(
    posts: Seq<Post>,
    matcher: F,
    outcome: SearchOutcome,
)
    requires
        outcome_of(posts, matcher, outcome),
    ensures
        forall|wanted: spec_fn(Post) -> bool|
            #![trigger posts.filter(wanted)]
            (forall|post: &Post, agrees: bool| #[trigger]
                call_ensures(matcher, (post,), agrees) ==> agrees == wanted(*post))
                ==> match outcome {
                SearchOutcome::NoMatch => posts.filter(wanted).len() == 0,
                SearchOutcome::Unique(at) => at < posts.len() && posts.filter(wanted)
                    == seq![posts[at as int]],
                SearchOutcome::Ambiguous => posts.filter(wanted).len() >= 2,
            },
{
    assert forall|wanted: spec_fn(Post) -> bool|
        #![trigger posts.filter(wanted)]
        (forall|post: &Post, agrees: bool| #[trigger]
            call_ensures(matcher, (post,), agrees) ==> agrees == wanted(*post)) implies (
    match outcome {
        SearchOutcome::NoMatch => posts.filter(wanted).len() == 0,
        SearchOutcome::Unique(at) => at < posts.len() && posts.filter(wanted)
            == seq![posts[at as int]],
        SearchOutcome::Ambiguous => posts.filter(wanted).len() >= 2,
    }) by {
        assert(decides(matcher, wanted));
        lemma_outcome_decided(posts, matcher, wanted, outcome);
        lemma_wanted_counts(posts, wanted);
        if let SearchOutcome::Unique(at) = outcome {
            assert(only_wanted(posts, wanted, at as int));
        }
    }
}

/// The outcome of a search with a matcher that decides `wanted` is what
/// `wanted` says of the posts.
pub proof fn lemma_outcome_decided<F: Fn(&Post) -> bool>(
    posts: Seq<Post>,
    matcher: F,
    wanted: spec_fn(Post) -> bool,
    outcome: SearchOutcome,
)
    requires
        outcome_of(posts, matcher, outcome),
        decides(matcher, wanted),
    ensures
        outcome is NoMatch <==> none_wanted(posts, wanted),
        outcome is Ambiguous <==> several_wanted(posts, wanted),
        forall|at: int|
            #[trigger] only_wanted(posts, wanted, at) <==> (outcome matches SearchOutcome::Unique(k)
                && k == at),
{
    match outcome {
        SearchOutcome::NoMatch => {
            assert(none_wanted(posts, wanted));
        },
        SearchOutcome::Unique(k) => {
            assert(wanted(posts[k as int]));
            assert(only_wanted(posts, wanted, k as int));
        },
        SearchOutcome::Ambiguous => {
            let (i, j) = choose|i: int, j: int|
                0 <= i < j < posts.len() && call_ensures(matcher, (&#[trigger] posts[i],), true)
                    && call_ensures(matcher, (&#[trigger] posts[j],), true);
            assert(wanted(posts[i]) && wanted(posts[j]));
        },
    }
}

impl PostSearch {
    /// The step after a listing with this outcome.
    pub open spec fn after_outcome(self, posts: Seq<Post>, outcome: SearchOutcome) -> RecoveryStep {
        match outcome {
            SearchOutcome::Unique(at) => RecoveryStep::Done(Ok(posts[at as int])),
            SearchOutcome::Ambiguous => RecoveryStep::Done(Err(self.publish_err)),
            SearchOutcome::NoMatch => if self.attempt + 1 >= MAX_RECOVERY_LIST_POLLS {
                RecoveryStep::Done(Err(self.publish_err))
            } else {
                RecoveryStep::ListPosts(PostSearch { attempt: (self.attempt + 1) as u32, ..self })
            },
        }
    }

    /// The step after the reply to this step's request, where `wanted` says
    /// which posts match.
    pub open spec fn after_posts(
        self,
        reply: Result<PostsResponse, Error>,
        wanted: spec_fn(Post) -> bool,
    ) -> RecoveryStep {
        match reply {
            Err(_) => RecoveryStep::Done(Err(self.publish_err)),
            Ok(posts) => if exists|at: int| only_wanted(posts.data@, wanted, at) {
                let at = choose|at: int| only_wanted(posts.data@, wanted, at);
                RecoveryStep::Done(Ok(posts.data@[at]))
            } else if several_wanted(posts.data@, wanted) || self.attempt + 1
                >= MAX_RECOVERY_LIST_POLLS {
                RecoveryStep::Done(Err(self.publish_err))
            } else {
                RecoveryStep::ListPosts(PostSearch { attempt: (self.attempt + 1) as u32, ..self })
            },
        }
    }

    /// Seconds to wait before the request.
    pub fn delay_secs(&self) -> (secs: u64)
        ensures
            secs == poll_delay_secs(self.attempt),
            self.attempt == 0 ==> secs == 0,
            self.attempt > 0 ==> secs == 1,
    {
        if self.attempt > 0 {
            RECOVERY_POLL_INTERVAL_SECS
        } else {
            0
        }
    }

    /// Takes the reply to a listing.
    ///
    /// The one matching post is the recovered one. Several matches and a failed
    /// request end the recovery, as does the last reply that the poll budget
    /// allows; where no post matches yet, the listing is asked for again.
    pub fn try_recover_published_post<F: Fn(&Post) -> bool>(
        self,
        reply: Result<PostsResponse, Error>,
        matcher: &F,
    ) -> (step: RecoveryStep)
        requires
            forall|post: &Post| #[trigger] call_requires(*matcher, (post,)),
        ensures
            reply is Err ==> step == RecoveryStep::Done(Err(self.publish_err)),
            reply matches Ok(posts) ==> exists|outcome: SearchOutcome|
                {
                    &&& #[trigger] outcome_of(posts.data@, *matcher, outcome)
                    &&& step == self.after_outcome(posts.data@, outcome)
                },
            forall|wanted: spec_fn(Post) -> bool| #[trigger]
                decides(*matcher, wanted) ==> step == self.after_posts(reply, wanted),
            reply matches Ok(posts) ==> forall|wanted: spec_fn(Post) -> bool|
                #![trigger posts.data@.filter(wanted)]
                (forall|post: &Post, agrees: bool| #[trigger]
                    call_ensures(*matcher, (post,), agrees) ==> agrees == wanted(*post)) ==> {
                    let matching = posts.data@.filter(wanted);
                    &&& matching.len() == 1 ==> step == RecoveryStep::Done(Ok(matching[0]))
                    &&& matching.len() >= 2 ==> step == RecoveryStep::Done(Err(self.publish_err))
                    &&& matching.len() == 0 && self.attempt >= 2 ==> step == RecoveryStep::Done(
                        Err(self.publish_err),
                    )
                    &&& matching.len() == 0 && self.attempt < 2 ==> {
                        &&& step matches RecoveryStep::ListPosts(search)
                        &&& search.attempt == self.attempt + 1
                        &&& search.user_id == self.user_id
                        &&& search.options == self.options
                        &&& search.publish_err == self.publish_err
                    }
                },
            step matches RecoveryStep::Done(Ok(post)) ==> {
                &&& reply matches Ok(posts)
                &&& exists|at: int|
                    {
                        &&& 0 <= at < posts.data@.len()
                        &&& #[trigger] posts.data@[at] == post
                        &&& call_ensures(*matcher, (&posts.data@[at],), true)
                        &&& forall|i: int|
                            0 <= i < posts.data@.len() && i != at ==> call_ensures(
                                *matcher,
                                (&#[trigger] posts.data@[i],),
                                false,
                            )
                    }
            },
            step matches RecoveryStep::Done(Err(err)) ==> err == self.publish_err,
            !(step is FetchStatus) && !(step is ReadUserId),
    {
        let ghost listing = reply;
        let posts: PostsResponse = match reply {
            Ok(posts) => posts,
            Err(_) => {
                return RecoveryStep::Done(Err(self.publish_err));
            },
        };
        let mut data: Vec<Post> = posts.data;
        let ghost listed = data@;
        let outcome: SearchOutcome = find_unique_match(&data, matcher);
        proof {
            assert forall|wanted: spec_fn(Post) -> bool| #[trigger]
                decides(*matcher, wanted) implies self.after_outcome(listed, outcome)
                == self.after_posts(listing, wanted) by {
                lemma_outcome_decided(listed, *matcher, wanted, outcome);
                if let SearchOutcome::Unique(at) = outcome {
                    assert(only_wanted(listed, wanted, at as int));
                }
            }
        }
        match outcome {
            SearchOutcome::Unique(at) => RecoveryStep::Done(Ok(data.swap_remove(at))),
            SearchOutcome::Ambiguous => RecoveryStep::Done(Err(self.publish_err)),
            SearchOutcome::NoMatch => {
                if self.attempt < MAX_RECOVERY_LIST_POLLS - 1 {
                    RecoveryStep::ListPosts(PostSearch { attempt: self.attempt + 1, ..self })
                } else {
                    RecoveryStep::Done(Err(self.publish_err))
                }
            },
        }
    }
}

/// Begins the recovery from `publish_err`, the error of the request that
/// published `container_id` at `publish_start`.
///
/// A genuine failure is the end at once: no request is made. Where the recovery
/// cannot help later on, it ends with `publish_err` too: that is what the
/// caller needs to see.
pub fn recover_or_original(
    container_id: &str,
    publish_start: UtcInstant,
    publish_err: Error,
) -> (step: RecoveryStep)
    ensures
        !is_false_failure(publish_err) ==> step == RecoveryStep::Done(Err(publish_err)),
        is_false_failure(publish_err) ==> {
            &&& step matches RecoveryStep::FetchStatus(poll)
            &&& poll.container_id@ == container_id@
            &&& poll.publish_start == publish_start
            &&& poll.publish_err == publish_err
            &&& poll.attempt == 0
        },
        match publish_err {
            Error::Authentication(fields) => step is FetchStatus <==> fields.code == 10,
            Error::Api(fields) => step is FetchStatus <==> fields.code == 10,
            Error::Other(_) => !(step is FetchStatus),
        },
        step matches RecoveryStep::FetchStatus(poll) ==> {
            &&& poll.container_id.0@ == container_id@
            &&& poll.publish_start == publish_start
            &&& poll.publish_err == publish_err
            &&& poll.attempt == 0
        },
        !(step is FetchStatus) ==> step == RecoveryStep::Done(Err(publish_err)),
{
    if !should_attempt_publish_recovery(&publish_err) {
        return RecoveryStep::Done(Err(publish_err));
    }
    RecoveryStep::FetchStatus(
        StatusPoll {
            container_id: ContainerId::from(container_id),
            publish_start,
            publish_err,
            attempt: 0,
        },
    )
}

} // verus!
