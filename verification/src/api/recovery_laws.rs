//! Laws of whole recoveries: what holds after any sequence of replies.

use vstd::prelude::*;

use crate::api::post_matchers::{distinguishable, media_content_agrees};
use crate::api::posts_publish_recovery::{
    none_wanted, only_wanted, poll_delay_secs, recovery_options, several_wanted, PostSearch,
    RecoveryStep, StatusPoll, UserLookup, MAX_RECOVERY_LIST_POLLS, MAX_RECOVERY_STATUS_POLLS,
    RECOVERY_POLL_INTERVAL_SECS,
};
use crate::constants::{
    CONTAINER_STATUS_ERROR, CONTAINER_STATUS_EXPIRED, CONTAINER_STATUS_PUBLISHED,
};
use crate::error::Error;
use crate::types::{ContainerStatus, Post, PostsResponse};

verus! {

/// A reply to one of the requests of a recovery.
#[derive(Debug)]
pub enum Reply {
    /// To a request for a container's status.
    Status(Result<ContainerStatus, Error>),
    /// To a request for the user's identifier.
    UserId(String),
    /// To a listing.
    Posts(Result<PostsResponse, Error>),
}

impl RecoveryStep {
    /// `reply` answers the request that this step names.
    pub open spec fn answered_by(self, reply: Reply) -> bool {
        match self {
            RecoveryStep::FetchStatus(_) => reply is Status,
            RecoveryStep::ReadUserId(_) => reply is UserId,
            RecoveryStep::ListPosts(_) => reply is Posts,
            RecoveryStep::Done(_) => false,
        }
    }

    /// The step after `reply`, where `wanted` says which posts match.
    pub open spec fn next(self, reply: Reply, wanted: spec_fn(Post) -> bool) -> RecoveryStep {
        match (self, reply) {
            (RecoveryStep::FetchStatus(poll), Reply::Status(reply)) => poll.after_status(reply),
            (RecoveryStep::ReadUserId(lookup), Reply::UserId(id)) => lookup.after_user_id(id),
            (RecoveryStep::ListPosts(search), Reply::Posts(reply)) => search.after_posts(
                reply,
                wanted,
            ),
            _ => self,
        }
    }

    /// Seconds that the caller waits before the request of this step.
    pub open spec fn delay(self) -> int {
        match self {
            RecoveryStep::FetchStatus(poll) => poll_delay_secs(poll.attempt) as int,
            RecoveryStep::ListPosts(search) => poll_delay_secs(search.attempt) as int,
            _ => 0,
        }
    }
}

/// The step that is reached from `first` through `replies`.
pub open spec fn run(
    first: RecoveryStep,
    replies: Seq<Reply>,
    wanted: spec_fn(Post) -> bool,
) -> RecoveryStep
    decreases replies.len(),
{
    if replies.len() == 0 {
        first
    } else {
        run(first, replies.drop_last(), wanted).next(replies.last(), wanted)
    }
}

/// Each of `replies` answers the request that was made when it came.
pub open spec fn is_history(
    first: RecoveryStep,
    replies: Seq<Reply>,
    wanted: spec_fn(Post) -> bool,
) -> bool
    decreases replies.len(),
{
    replies.len() == 0 || {
        &&& is_history(first, replies.drop_last(), wanted)
        &&& run(first, replies.drop_last(), wanted).answered_by(replies.last())
    }
}

/// Seconds that the caller has waited between requests, counting the wait
/// before the request that is to be made next.
pub open spec fn waited(
    first: RecoveryStep,
    replies: Seq<Reply>,
    wanted: spec_fn(Post) -> bool,
) -> int
    decreases replies.len(),
{
    run(first, replies, wanted).delay() + if replies.len() == 0 {
        0
    } else {
        waited(first, replies.drop_last(), wanted)
    }
}

/// How many of `replies` are statuses.
pub open spec fn status_count(replies: Seq<Reply>) -> int
    decreases replies.len(),
{
    if replies.len() == 0 {
        0
    } else {
        status_count(replies.drop_last()) + if replies.last() is Status {
            1int
        } else {
            0
        }
    }
}

/// How many of `replies` are listings.
pub open spec fn listing_count(replies: Seq<Reply>) -> int
    decreases replies.len(),
{
    if replies.len() == 0 {
        0
    } else {
        listing_count(replies.drop_last()) + if replies.last() is Posts {
            1int
        } else {
            0
        }
    }
}

/// `reply` reports the container as published.
pub open spec fn reports_published(reply: Reply) -> bool {
    reply matches Reply::Status(Ok(status)) && status.status@ == CONTAINER_STATUS_PUBLISHED@
}

/// `reply` lists `post` as the only wanted post.
pub open spec fn lists_only(reply: Reply, wanted: spec_fn(Post) -> bool, post: Post) -> bool {
    reply matches Reply::Posts(Ok(posts)) && exists|at: int|
        #[trigger] only_wanted(posts.data@, wanted, at) && posts.data@[at] == post
}

/// `reply` shows that the post cannot be recovered: a request failed, the
/// container ended unpublished, nobody is logged in, or several posts match.
pub open spec fn is_setback(reply: Reply, wanted: spec_fn(Post) -> bool) -> bool {
    match reply {
        Reply::Status(Err(_)) => true,
        Reply::Status(Ok(status)) => status.status@ == CONTAINER_STATUS_ERROR@ || status.status@
            == CONTAINER_STATUS_EXPIRED@,
        Reply::UserId(id) => id@.len() == 0,
        Reply::Posts(Err(_)) => true,
        Reply::Posts(Ok(posts)) => several_wanted(posts.data@, wanted),
    }
}

/// Some reply reports the container as published.
pub open spec fn published_seen(replies: Seq<Reply>) -> bool {
    exists|i: int| 0 <= i < replies.len() && reports_published(#[trigger] replies[i])
}

/// What holds of `step` after `replies`, in a recovery that began with `first`.
spec fn reached(
    first: StatusPoll,
    replies: Seq<Reply>,
    wanted: spec_fn(Post) -> bool,
    step: RecoveryStep,
) -> bool {
    let statuses = status_count(replies);
    let listings = listing_count(replies);
    let wait = waited(RecoveryStep::FetchStatus(first), replies, wanted);
    match step {
        RecoveryStep::FetchStatus(poll) => {
            &&& poll == (StatusPoll { attempt: poll.attempt, ..first })
            &&& poll.attempt == statuses == replies.len()
            &&& poll.attempt < MAX_RECOVERY_STATUS_POLLS
            &&& listings == 0
            &&& wait == statuses * RECOVERY_POLL_INTERVAL_SECS
        },
        RecoveryStep::ReadUserId(lookup) => {
            &&& lookup == (UserLookup {
                publish_start: first.publish_start,
                publish_err: first.publish_err,
            })
            &&& published_seen(replies)
            &&& 1 <= statuses <= MAX_RECOVERY_STATUS_POLLS
            &&& statuses == replies.len()
            &&& listings == 0
            &&& wait == (statuses - 1) * RECOVERY_POLL_INTERVAL_SECS
        },
        RecoveryStep::ListPosts(search) => {
            &&& search.options == recovery_options(first.publish_start)
            &&& search.publish_err == first.publish_err
            &&& search.user_id@.len() > 0
            &&& exists|i: int|
                0 <= i < replies.len() && #[trigger] replies[i] == Reply::UserId(search.user_id.0)
            &&& published_seen(replies)
            &&& search.attempt == listings < MAX_RECOVERY_LIST_POLLS
            &&& 1 <= statuses <= MAX_RECOVERY_STATUS_POLLS
            &&& replies.len() == statuses + 1 + listings
            &&& wait == (statuses - 1 + listings) * RECOVERY_POLL_INTERVAL_SECS
        },
        RecoveryStep::Done(result) => {
            &&& statuses <= MAX_RECOVERY_STATUS_POLLS
            &&& listings <= MAX_RECOVERY_LIST_POLLS
            &&& replies.len() <= statuses + 1 + listings
            &&& wait <= (MAX_RECOVERY_STATUS_POLLS + MAX_RECOVERY_LIST_POLLS - 2)
                * RECOVERY_POLL_INTERVAL_SECS
            &&& result matches Err(err) ==> err == first.publish_err
            &&& result matches Ok(post) ==> {
                &&& published_seen(replies)
                &&& replies.len() > 0
                &&& lists_only(replies.last(), wanted, post)
            }
        },
    }
}

proof fn lemma_reached(first: StatusPoll, replies: Seq<Reply>, wanted: spec_fn(Post) -> bool)
    requires
        first.attempt == 0,
        is_history(RecoveryStep::FetchStatus(first), replies, wanted),
    ensures
        reached(first, replies, wanted, run(RecoveryStep::FetchStatus(first), replies, wanted)),
    decreases replies.len(),
{
    let start = RecoveryStep::FetchStatus(first);
    if replies.len() > 0 {
        let before = replies.drop_last();
        let reply = replies.last();
        lemma_reached(first, before, wanted);
        let step = run(start, before, wanted);
        let next = step.next(reply, wanted);
        assert(run(start, replies, wanted) == next);
        assert(forall|i: int| 0 <= i < before.len() ==> before[i] == replies[i]);
        if published_seen(before) {
            let i = choose|i: int| 0 <= i < before.len() && reports_published(#[trigger] before[i]);
            assert(reports_published(replies[i]));
            assert(published_seen(replies));
        }
        if reports_published(reply) {
            assert(reports_published(replies[replies.len() - 1]));
            assert(published_seen(replies));
        }
        match step {
            RecoveryStep::FetchStatus(poll) => {},
            RecoveryStep::ReadUserId(lookup) => {
                assert(replies[replies.len() - 1] == reply);
            },
            RecoveryStep::ListPosts(search) => {
                let i = choose|i: int|
                    0 <= i < before.len() && #[trigger] before[i] == Reply::UserId(search.user_id.0);
                assert(replies[i] == Reply::UserId(search.user_id.0));
            },
            RecoveryStep::Done(_) => {},
        }
    }
}

/// The polls are bounded: a recovery asks for the status at most
/// [`MAX_RECOVERY_STATUS_POLLS`] times and for a listing at most
/// [`MAX_RECOVERY_LIST_POLLS`] times, and it ends once all these replies are
/// in.
pub proof fn law_polls_are_bounded(
    first: StatusPoll,
    replies: Seq<Reply>,
    wanted: spec_fn(Post) -> bool,
)
    requires
        first.attempt == 0,
        is_history(RecoveryStep::FetchStatus(first), replies, wanted),
    ensures
        status_count(replies) <= MAX_RECOVERY_STATUS_POLLS,
        listing_count(replies) <= MAX_RECOVERY_LIST_POLLS,
        replies.len() <= MAX_RECOVERY_STATUS_POLLS + 1 + MAX_RECOVERY_LIST_POLLS,
        replies.len() == MAX_RECOVERY_STATUS_POLLS + 1 + MAX_RECOVERY_LIST_POLLS ==> run(
            RecoveryStep::FetchStatus(first),
            replies,
            wanted,
        ) is Done,
{
    lemma_reached(first, replies, wanted);
}

/// The latency is bounded: whatever the replies, a recovery waits no longer
/// than one interval for each request that its budgets allow beyond the first
/// of each kind.
pub proof fn law_latency_is_bounded(
    first: StatusPoll,
    replies: Seq<Reply>,
    wanted: spec_fn(Post) -> bool,
)
    requires
        first.attempt == 0,
        is_history(RecoveryStep::FetchStatus(first), replies, wanted),
    ensures
        waited(RecoveryStep::FetchStatus(first), replies, wanted) <= (MAX_RECOVERY_STATUS_POLLS
            + MAX_RECOVERY_LIST_POLLS - 2) * RECOVERY_POLL_INTERVAL_SECS,
{
    lemma_reached(first, replies, wanted);
}

/// The requests are fixed from the start: every status request is for the
/// container that was published, and every listing is of the user who was
/// reported, from the window before the publish request. The error of the
/// publish request is carried along unchanged.
pub proof fn law_requests_are_fixed(
    first: StatusPoll,
    replies: Seq<Reply>,
    wanted: spec_fn(Post) -> bool,
)
    requires
        first.attempt == 0,
        is_history(RecoveryStep::FetchStatus(first), replies, wanted),
    ensures
        match run(RecoveryStep::FetchStatus(first), replies, wanted) {
            RecoveryStep::FetchStatus(poll) => {
                &&& poll.container_id == first.container_id
                &&& poll.publish_start == first.publish_start
                &&& poll.publish_err == first.publish_err
            },
            RecoveryStep::ReadUserId(lookup) => {
                &&& lookup.publish_start == first.publish_start
                &&& lookup.publish_err == first.publish_err
            },
            RecoveryStep::ListPosts(search) => {
                &&& search.options == recovery_options(first.publish_start)
                &&& search.user_id@.len() > 0
                &&& replies.contains(Reply::UserId(search.user_id.0))
                &&& search.publish_err == first.publish_err
            },
            RecoveryStep::Done(_) => true,
        },
{
    lemma_reached(first, replies, wanted);
    if let RecoveryStep::ListPosts(search) = run(
        RecoveryStep::FetchStatus(first),
        replies,
        wanted,
    ) {
        let i = choose|i: int|
            0 <= i < replies.len() && #[trigger] replies[i] == Reply::UserId(search.user_id.0);
        assert(replies.contains(Reply::UserId(search.user_id.0)));
    }
}

/// The user is not asked for, and nothing is listed, unless the container was
/// reported as published.
pub proof fn law_search_needs_published_container(
    first: StatusPoll,
    replies: Seq<Reply>,
    wanted: spec_fn(Post) -> bool,
)
    requires
        first.attempt == 0,
        is_history(RecoveryStep::FetchStatus(first), replies, wanted),
        !published_seen(replies),
    ensures
        match run(RecoveryStep::FetchStatus(first), replies, wanted) {
            RecoveryStep::FetchStatus(_) => status_count(replies) < MAX_RECOVERY_STATUS_POLLS,
            RecoveryStep::Done(result) => result == Err::<Post, Error>(first.publish_err),
            _ => false,
        },
{
    lemma_reached(first, replies, wanted);
}

/// Only the published post is recovered: where a recovery ends with a post, the
/// container was reported as published, and the last listing held that post as
/// its one matching post.
pub proof fn law_recovered_post_is_the_only_match(
    first: StatusPoll,
    replies: Seq<Reply>,
    wanted: spec_fn(Post) -> bool,
    post: Post,
)
    requires
        first.attempt == 0,
        is_history(RecoveryStep::FetchStatus(first), replies, wanted),
        run(RecoveryStep::FetchStatus(first), replies, wanted) == RecoveryStep::Done(Ok(post)),
    ensures
        wanted(post),
        published_seen(replies),
        replies.len() > 0,
        lists_only(replies.last(), wanted, post),
{
    lemma_reached(first, replies, wanted);
}

/// Where a recovery fails, whatever the reason, it ends with the error of the
/// publish request, unchanged.
pub proof fn law_failure_surfaces_original_error(
    first: StatusPoll,
    replies: Seq<Reply>,
    wanted: spec_fn(Post) -> bool,
    err: Error,
)
    requires
        first.attempt == 0,
        is_history(RecoveryStep::FetchStatus(first), replies, wanted),
        run(RecoveryStep::FetchStatus(first), replies, wanted) == RecoveryStep::Done(Err(err)),
    ensures
        err == first.publish_err,
{
    lemma_reached(first, replies, wanted);
}

/// A recovery fails closed: a failed request, a container that ended
/// unpublished, a missing user and an ambiguous listing each end it with the
/// error of the publish request.
pub proof fn law_setback_fails_closed(
    first: StatusPoll,
    replies: Seq<Reply>,
    wanted: spec_fn(Post) -> bool,
    at: int,
)
    requires
        first.attempt == 0,
        is_history(RecoveryStep::FetchStatus(first), replies, wanted),
        0 <= at < replies.len(),
        is_setback(replies[at], wanted),
    ensures
        run(RecoveryStep::FetchStatus(first), replies, wanted) == RecoveryStep::Done(
            Err(first.publish_err),
        ),
    decreases replies.len(),
{
    let before = replies.drop_last();
    lemma_reached(first, before, wanted);
    if at < before.len() {
        assert(before[at] == replies[at]);
        law_setback_fails_closed(first, before, wanted, at);
    } else {
        lemma_statuses_differ();
        if let Reply::Posts(Ok(posts)) = replies[at] {
            assert forall|k: int| !only_wanted(posts.data@, wanted, k) by {
                let (i, j) = choose|i: int, j: int|
                    0 <= i < j < posts.data@.len() && wanted(#[trigger] posts.data@[i]) && wanted(
                        #[trigger] posts.data@[j],
                    );
                assert(wanted(posts.data@[i]) && wanted(posts.data@[j]));
            }
        }
    }
}

/// A recovery whose matcher accepts none of the listed posts recovers nothing,
/// and ends with the error of the publish request once its listings are spent.
pub proof fn law_no_match_recovers_nothing(
    first: StatusPoll,
    replies: Seq<Reply>,
    wanted: spec_fn(Post) -> bool,
)
    requires
        first.attempt == 0,
        is_history(RecoveryStep::FetchStatus(first), replies, wanted),
        forall|i: int|
            #![trigger replies[i]]
            0 <= i < replies.len() ==> (replies[i] matches Reply::Posts(Ok(posts)) ==> none_wanted(
                posts.data@,
                wanted,
            )),
    ensures
        run(RecoveryStep::FetchStatus(first), replies, wanted) matches RecoveryStep::Done(result)
            ==> result == Err::<Post, Error>(first.publish_err),
        listing_count(replies) == MAX_RECOVERY_LIST_POLLS ==> run(
            RecoveryStep::FetchStatus(first),
            replies,
            wanted,
        ) == RecoveryStep::Done(Err(first.publish_err)),
{
    lemma_reached(first, replies, wanted);
    if let RecoveryStep::Done(Ok(post)) = run(RecoveryStep::FetchStatus(first), replies, wanted) {
        assert(lists_only(replies[replies.len() - 1], wanted, post));
    }
}

/// A media request that nothing distinguishes is never recovered, however
/// plausible the listed posts are.
pub proof fn law_indistinguishable_media_is_not_recovered(
    first: StatusPoll,
    replies: Seq<Reply>,
    wanted: spec_fn(Post) -> bool,
    text: Seq<char>,
    topic_tag: Seq<char>,
    reply_to: Option<Seq<char>>,
    quoted: Option<Seq<char>>,
)
    requires
        first.attempt == 0,
        is_history(RecoveryStep::FetchStatus(first), replies, wanted),
        forall|post: Post| #[trigger]
            wanted(post) ==> media_content_agrees(post, text, topic_tag, reply_to, quoted),
        !distinguishable(text, topic_tag, reply_to, quoted),
    ensures
        run(RecoveryStep::FetchStatus(first), replies, wanted) matches RecoveryStep::Done(result)
            ==> result == Err::<Post, Error>(first.publish_err),
{
    law_no_match_recovers_nothing(first, replies, wanted);
}

/// The end is final: no reply changes it.
pub proof fn law_end_is_final(
    result: Result<Post, Error>,
    replies: Seq<Reply>,
    wanted: spec_fn(Post) -> bool,
)
    ensures
        run(RecoveryStep::Done(result), replies, wanted) == RecoveryStep::Done(result),
        is_history(RecoveryStep::Done(result), replies, wanted) ==> replies.len() == 0,
    decreases replies.len(),
{
    if replies.len() > 0 {
        law_end_is_final(result, replies.drop_last(), wanted);
    }
}

proof fn lemma_statuses_differ()
    ensures
        CONTAINER_STATUS_PUBLISHED@ != CONTAINER_STATUS_ERROR@,
        CONTAINER_STATUS_PUBLISHED@ != CONTAINER_STATUS_EXPIRED@,
{
    reveal_strlit("PUBLISHED");
    reveal_strlit("ERROR");
    reveal_strlit("EXPIRED");
    assert(CONTAINER_STATUS_PUBLISHED@[0] == 'P');
    assert(CONTAINER_STATUS_ERROR@[0] == 'E');
    assert(CONTAINER_STATUS_EXPIRED@[0] == 'E');
}

/// A status after which the container may still be published.
pub open spec fn is_pending(status: ContainerStatus) -> bool {
    &&& status.status@ != CONTAINER_STATUS_PUBLISHED@
    &&& status.status@ != CONTAINER_STATUS_ERROR@
    &&& status.status@ != CONTAINER_STATUS_EXPIRED@
}

/// Replies that report these statuses.
pub open spec fn status_replies(statuses: Seq<ContainerStatus>) -> Seq<Reply> {
    statuses.map_values(|status: ContainerStatus| Reply::Status(Ok(status)))
}

/// Replies with these listings.
pub open spec fn listing_replies(listings: Seq<PostsResponse>) -> Seq<Reply> {
    listings.map_values(|posts: PostsResponse| Reply::Posts(Ok(posts)))
}

proof fn lemma_pending_statuses(
    first: StatusPoll,
    pending: Seq<ContainerStatus>,
    wanted: spec_fn(Post) -> bool,
)
    requires
        first.attempt == 0,
        pending.len() < MAX_RECOVERY_STATUS_POLLS,
        forall|i: int| 0 <= i < pending.len() ==> is_pending(#[trigger] pending[i]),
    ensures
        is_history(RecoveryStep::FetchStatus(first), status_replies(pending), wanted),
        run(RecoveryStep::FetchStatus(first), status_replies(pending), wanted)
            == RecoveryStep::FetchStatus(StatusPoll { attempt: pending.len() as u32, ..first }),
    decreases pending.len(),
{
    if pending.len() > 0 {
        let before = pending.drop_last();
        lemma_pending_statuses(first, before, wanted);
        assert(status_replies(pending).drop_last() =~= status_replies(before));
        assert(is_pending(pending[pending.len() - 1]));
    }
}

proof fn lemma_one_more_reply(
    first: RecoveryStep,
    replies: Seq<Reply>,
    reply: Reply,
    wanted: spec_fn(Post) -> bool,
)
    ensures
        run(first, replies.push(reply), wanted) == run(first, replies, wanted).next(reply, wanted),
        is_history(first, replies.push(reply), wanted) <==> is_history(first, replies, wanted)
            && run(first, replies, wanted).answered_by(reply),
{
    assert(replies.push(reply).drop_last() =~= replies);
}

proof fn lemma_unmatched_listings(
    first: RecoveryStep,
    replies: Seq<Reply>,
    search: PostSearch,
    unmatched: Seq<PostsResponse>,
    wanted: spec_fn(Post) -> bool,
)
    requires
        is_history(first, replies, wanted),
        run(first, replies, wanted) == RecoveryStep::ListPosts(search),
        search.attempt == 0,
        unmatched.len() < MAX_RECOVERY_LIST_POLLS,
        forall|i: int|
            0 <= i < unmatched.len() ==> none_wanted((#[trigger] unmatched[i]).data@, wanted),
    ensures
        is_history(first, replies + listing_replies(unmatched), wanted),
        run(first, replies + listing_replies(unmatched), wanted) == RecoveryStep::ListPosts(
            PostSearch { attempt: unmatched.len() as u32, ..search },
        ),
    decreases unmatched.len(),
{
    if unmatched.len() == 0 {
        assert(replies + listing_replies(unmatched) =~= replies);
    } else {
        let before = unmatched.drop_last();
        lemma_unmatched_listings(first, replies, search, before, wanted);
        let posts = unmatched.last();
        assert(replies + listing_replies(unmatched) =~= (replies + listing_replies(before)).push(
            Reply::Posts(Ok(posts)),
        ));
        lemma_one_more_reply(
            first,
            replies + listing_replies(before),
            Reply::Posts(Ok(posts)),
            wanted,
        );
        assert(none_wanted(unmatched[unmatched.len() - 1].data@, wanted));
        assert(forall|at: int| !only_wanted(posts.data@, wanted, at));
    }
}

/// A published post is recovered: where the container is reported as published
/// within the status budget, and the post appears within the listing budget as
/// the one matching post, the recovery ends with that post.
pub proof fn law_published_post_is_recovered(
    first: StatusPoll,
    pending: Seq<ContainerStatus>,
    published: ContainerStatus,
    user_id: String,
    unmatched: Seq<PostsResponse>,
    posts: PostsResponse,
    at: int,
    wanted: spec_fn(Post) -> bool,
)
    requires
        first.attempt == 0,
        pending.len() < MAX_RECOVERY_STATUS_POLLS,
        forall|i: int| 0 <= i < pending.len() ==> is_pending(#[trigger] pending[i]),
        published.status@ == CONTAINER_STATUS_PUBLISHED@,
        user_id@.len() > 0,
        unmatched.len() < MAX_RECOVERY_LIST_POLLS,
        forall|i: int|
            0 <= i < unmatched.len() ==> none_wanted((#[trigger] unmatched[i]).data@, wanted),
        only_wanted(posts.data@, wanted, at),
    ensures
        ({
            let replies = (status_replies(pending).push(Reply::Status(Ok(published))).push(
                Reply::UserId(user_id),
            ) + listing_replies(unmatched)).push(Reply::Posts(Ok(posts)));
            &&& is_history(RecoveryStep::FetchStatus(first), replies, wanted)
            &&& run(RecoveryStep::FetchStatus(first), replies, wanted) == RecoveryStep::Done(
                Ok(posts.data@[at]),
            )
        }),
{
    let start = RecoveryStep::FetchStatus(first);
    let polled = status_replies(pending);
    lemma_pending_statuses(first, pending, wanted);
    lemma_one_more_reply(start, polled, Reply::Status(Ok(published)), wanted);
    let gated = polled.push(Reply::Status(Ok(published)));
    lemma_one_more_reply(start, gated, Reply::UserId(user_id), wanted);
    let named = gated.push(Reply::UserId(user_id));
    let search = PostSearch {
        user_id: crate::types::UserId(user_id),
        options: recovery_options(first.publish_start),
        publish_err: first.publish_err,
        attempt: 0,
    };
    assert(run(start, named, wanted) == RecoveryStep::ListPosts(search));
    lemma_unmatched_listings(start, named, search, unmatched, wanted);
    let searched = named + listing_replies(unmatched);
    lemma_one_more_reply(start, searched, Reply::Posts(Ok(posts)), wanted);
    let k = choose|k: int| only_wanted(posts.data@, wanted, k);
    assert(only_wanted(posts.data@, wanted, k));
    assert(k == at);
}

} // verus!
