//! Laws of the single steps of a recovery, over the values that go into a step
//! and come out of it.

use vstd::prelude::*;

use crate::api::posts_publish_recovery::{
    decides, is_false_failure, lemma_wanted_counts, only_wanted, outcome_of, poll_delay_secs,
    several_wanted, PostSearch, RecoveryStep, SearchOutcome, StatusPoll, UserLookup,
};
use crate::error::{with_metadata, BaseFields, Error};
use crate::types::{ContainerStatus, Post, PostsResponse};

verus! {

/// The code alone decides whether an error is worth a recovery: code 10 is, any
/// other is not, and an error without an answer of the API never is.
pub proof fn law_code_alone_decides(fields: BaseFields, text: String)
    ensures
        is_false_failure(Error::Api(fields)) <==> fields.code == 10,
        is_false_failure(Error::Authentication(fields)) <==> fields.code == 10,
        !is_false_failure(Error::Other(text)),
{
}

/// HTTP status, subcode and the transient mark of an error do not matter:
/// setting them never changes whether it is worth a recovery.
pub proof fn law_metadata_do_not_decide(
    err: Error,
    is_transient: bool,
    http_status_code: u16,
    error_subcode: i64,
)
    ensures
        is_false_failure(with_metadata(err, is_transient, http_status_code, error_subcode))
            == is_false_failure(err),
{
}

/// Errors with the same code are treated alike, whatever else they hold.
pub proof fn law_same_code_is_treated_alike(a: BaseFields, b: BaseFields)
    requires
        a.code == b.code,
    ensures
        is_false_failure(Error::Api(a)) == is_false_failure(Error::Api(b)),
        is_false_failure(Error::Api(a)) == is_false_failure(Error::Authentication(b)),
{
}

/// Only a container that is reported as PUBLISHED lets a recovery go on, and it
/// always does; the start and the error of the publish request go along.
pub proof fn law_only_published_goes_on(poll: StatusPoll, reply: Result<ContainerStatus, Error>)
    ensures
        poll.after_status(reply) is ReadUserId <==> (reply matches Ok(status) && status.status@
            == "PUBLISHED"@),
        poll.after_status(reply) matches RecoveryStep::ReadUserId(lookup) ==> lookup.publish_start
            == poll.publish_start && lookup.publish_err == poll.publish_err,
        !(poll.after_status(reply) is ListPosts),
{
}

/// The status is asked for again exactly when a reply leaves it open and the
/// budget of five requests is not spent; the next request is for the same
/// container.
pub proof fn law_open_status_is_polled_again(
    poll: StatusPoll,
    reply: Result<ContainerStatus, Error>,
)
    ensures
        poll.after_status(reply) is FetchStatus <==> poll.attempt < 4 && (reply matches Ok(status)
            && status.status@ != "PUBLISHED"@ && status.status@ != "ERROR"@ && status.status@
            != "EXPIRED"@),
        poll.after_status(reply) matches RecoveryStep::FetchStatus(again) ==> {
            &&& again.attempt == poll.attempt + 1
            &&& again.container_id == poll.container_id
            &&& again.publish_start == poll.publish_start
            &&& again.publish_err == poll.publish_err
        },
{
}

/// A status request that ends the recovery ends it with the error of the
/// publish request: after a failed request, after ERROR and EXPIRED, and after
/// a fifth reply that is not PUBLISHED.
pub proof fn law_status_ends_with_publish_error(
    poll: StatusPoll,
    reply: Result<ContainerStatus, Error>,
)
    ensures
        reply is Err ==> poll.after_status(reply) == RecoveryStep::Done(Err(poll.publish_err)),
        (reply matches Ok(status) && (status.status@ == "ERROR"@ || status.status@ == "EXPIRED"@))
            ==> poll.after_status(reply) == RecoveryStep::Done(Err(poll.publish_err)),
        poll.attempt >= 4 && (reply matches Ok(status) && status.status@ != "PUBLISHED"@)
            ==> poll.after_status(reply) == RecoveryStep::Done(Err(poll.publish_err)),
        poll.after_status(reply) is Done ==> poll.after_status(reply) == RecoveryStep::Done(
            Err(poll.publish_err),
        ),
{
    reveal_strlit("PUBLISHED");
    reveal_strlit("ERROR");
    reveal_strlit("EXPIRED");
    assert("PUBLISHED"@[0] == 'P' && "ERROR"@[0] == 'E' && "EXPIRED"@[0] == 'E');
}

/// Of a status reply only the status counts: replies that report the same one
/// lead to the same step.
pub proof fn law_only_the_status_counts(poll: StatusPoll, a: ContainerStatus, b: ContainerStatus)
    requires
        a.status@ == b.status@,
    ensures
        poll.after_status(Ok(a)) == poll.after_status(Ok(b)),
{
}

/// The search window opens five seconds before the publish request and has no
/// end: a listing asks for 25 posts of the user, and never for posts after the
/// request only. A leap second counts as the second that follows.
pub proof fn law_window_opens_before_publish_request(lookup: UserLookup, user_id: String)
    requires
        user_id@.len() > 0,
        -8_334_601_228_795 <= lookup.publish_start.secs <= 8_210_266_876_799,
        lookup.publish_start.nanos < 2_000_000_000,
    ensures
        lookup.after_user_id(user_id) matches RecoveryStep::ListPosts(search) && {
            &&& search.options.since matches Some(since) && {
                &&& since < lookup.publish_start.secs
                &&& lookup.publish_start.nanos < 1_000_000_000 ==> since
                    == lookup.publish_start.secs - 5
                &&& lookup.publish_start.nanos >= 1_000_000_000 ==> since
                    == lookup.publish_start.secs - 4
            }
            &&& search.options.limit == Some(25u32)
            &&& search.options.until is None
            &&& search.options.before is None
            &&& search.options.after is None
            &&& search.user_id.0 == user_id
            &&& search.publish_err == lookup.publish_err
            &&& search.attempt == 0
        },
{
}

/// The window moves with the publish request: a request that is made `later`
/// seconds later is searched for from `later` seconds later on.
pub proof fn law_window_moves_with_publish_request(a: UserLookup, b: UserLookup, user_id: String)
    requires
        user_id@.len() > 0,
        -8_334_601_228_795 <= a.publish_start.secs <= 8_210_266_876_799,
        -8_334_601_228_795 <= b.publish_start.secs <= 8_210_266_876_799,
        a.publish_start.nanos < 1_000_000_000,
        b.publish_start.nanos < 1_000_000_000,
    ensures
        a.after_user_id(user_id) matches RecoveryStep::ListPosts(from_a) && (b.after_user_id(
            user_id,
        ) matches RecoveryStep::ListPosts(from_b) && from_b.options.since->0
            - from_a.options.since->0 == b.publish_start.secs - a.publish_start.secs),
{
}

/// Without a user there is nothing to list: the error of the publish request is
/// the end.
pub proof fn law_missing_user_ends_recovery(lookup: UserLookup, user_id: String)
    ensures
        user_id@.len() == 0 <==> lookup.after_user_id(user_id) == RecoveryStep::Done(
            Err(lookup.publish_err),
        ),
        user_id@.len() > 0 <==> lookup.after_user_id(user_id) is ListPosts,
{
}

/// Every listed post counts: exactly one match is the recovered post, two or
/// more end with the error of the publish request, and none leads to another
/// listing until three were answered.
pub proof fn law_every_listed_post_counts(
    search: PostSearch,
    posts: PostsResponse,
    wanted: spec_fn(Post) -> bool,
)
    ensures
        posts.data@.filter(wanted).len() == 1 ==> search.after_posts(Ok(posts), wanted)
            == RecoveryStep::Done(Ok(posts.data@.filter(wanted)[0])),
        posts.data@.filter(wanted).len() >= 2 ==> search.after_posts(Ok(posts), wanted)
            == RecoveryStep::Done(Err(search.publish_err)),
        posts.data@.filter(wanted).len() == 0 && search.attempt >= 2 ==> search.after_posts(
            Ok(posts),
            wanted,
        ) == RecoveryStep::Done(Err(search.publish_err)),
        posts.data@.filter(wanted).len() == 0 && search.attempt < 2 ==> (search.after_posts(
            Ok(posts),
            wanted,
        ) matches RecoveryStep::ListPosts(again) && again.attempt == search.attempt + 1
            && again.user_id == search.user_id && again.options == search.options
            && again.publish_err == search.publish_err),
{
    lemma_wanted_counts(posts.data@, wanted);
    if exists|at: int| only_wanted(posts.data@, wanted, at) {
        let at = choose|at: int| only_wanted(posts.data@, wanted, at);
        assert(only_wanted(posts.data@, wanted, at));
    }
}

/// A failed listing ends with the error of the publish request, not with its
/// own, and whatever ends a search without a post does.
pub proof fn law_listing_ends_with_publish_error(
    search: PostSearch,
    reply: Result<PostsResponse, Error>,
    wanted: spec_fn(Post) -> bool,
)
    ensures
        reply is Err ==> search.after_posts(reply, wanted) == RecoveryStep::Done(
            Err(search.publish_err),
        ),
        search.after_posts(reply, wanted) matches RecoveryStep::Done(Err(err)) ==> err
            == search.publish_err,
        search.after_posts(reply, wanted) matches RecoveryStep::Done(Ok(post)) ==> wanted(post) && (
        reply matches Ok(posts) && posts.data@.contains(post)),
        search.after_posts(reply, wanted) is Done || search.after_posts(reply, wanted) is ListPosts,
{
    if let Ok(posts) = reply {
        if exists|at: int| only_wanted(posts.data@, wanted, at) {
            let at = choose|at: int| only_wanted(posts.data@, wanted, at);
            assert(only_wanted(posts.data@, wanted, at));
            assert(posts.data@.contains(posts.data@[at]));
        }
    }
}

/// Only the matching posts matter, not where they stand nor what stands around
/// them: listings with the same matching posts lead to the same step.
pub proof fn law_unmatched_posts_do_not_matter(
    search: PostSearch,
    a: PostsResponse,
    b: PostsResponse,
    wanted: spec_fn(Post) -> bool,
)
    requires
        a.data@.filter(wanted) == b.data@.filter(wanted),
    ensures
        search.after_posts(Ok(a), wanted) == search.after_posts(Ok(b), wanted),
{
    law_every_listed_post_counts(search, a, wanted);
    law_every_listed_post_counts(search, b, wanted);
}

/// The order of a listing does not matter: a listing with the same posts in
/// another order leads to the same step.
pub proof fn law_order_of_listing_does_not_matter(
    search: PostSearch,
    a: PostsResponse,
    b: PostsResponse,
    wanted: spec_fn(Post) -> bool,
)
    requires
        a.data@.to_multiset() == b.data@.to_multiset(),
    ensures
        search.after_posts(Ok(a), wanted) == search.after_posts(Ok(b), wanted),
{
    let fa = a.data@.filter(wanted);
    let fb = b.data@.filter(wanted);
    lemma_filter_to_multiset(a.data@, wanted);
    lemma_filter_to_multiset(b.data@, wanted);
    vstd::seq_lib::to_multiset_len(fa);
    vstd::seq_lib::to_multiset_len(fb);
    assert(fa.len() == fb.len());
    if fa.len() == 1 {
        vstd::seq_lib::to_multiset_contains(fa, fa[0]);
        vstd::seq_lib::to_multiset_contains(fb, fa[0]);
        assert(fa.contains(fa[0]));
        assert(fb.contains(fa[0]));
        assert(fa[0] == fb[0]);
    }
    law_every_listed_post_counts(search, a, wanted);
    law_every_listed_post_counts(search, b, wanted);
}

/// A second match takes the recovery back: adding a matching post to a listing
/// that has a match makes it ambiguous, wherever it is added.
pub proof fn law_second_match_is_ambiguous(
    search: PostSearch,
    before: Seq<Post>,
    between: Seq<Post>,
    after: Seq<Post>,
    first: Post,
    second: Post,
    posts: PostsResponse,
    wanted: spec_fn(Post) -> bool,
)
    requires
        wanted(first),
        wanted(second),
        posts.data@ == before + seq![first] + between + seq![second] + after,
    ensures
        search.after_posts(Ok(posts), wanted) == RecoveryStep::Done(Err(search.publish_err)),
{
    let i = before.len() as int;
    let j = (before.len() + 1 + between.len()) as int;
    assert(posts.data@[i] == first);
    assert(posts.data@[j] == second);
    assert(several_wanted(posts.data@, wanted));
    lemma_wanted_counts(posts.data@, wanted);
    law_every_listed_post_counts(search, posts, wanted);
}

/// Filtering a sequence keeps the multiset of the posts that are wanted.
proof fn lemma_filter_to_multiset(posts: Seq<Post>, wanted: spec_fn(Post) -> bool)
    ensures
        posts.filter(wanted).to_multiset() == posts.to_multiset().filter(wanted),
    decreases posts.len(),
{
    reveal(Seq::filter);
    broadcast use vstd::seq_lib::group_to_multiset_ensures;

    if posts.len() > 0 {
        let before = posts.drop_last();
        lemma_filter_to_multiset(before, wanted);
        assert(posts =~= before.push(posts.last()));
        if wanted(posts.last()) {
            assert(posts.filter(wanted).to_multiset() =~= before.filter(wanted).to_multiset().insert(
                posts.last(),
            ));
        }
        assert(posts.to_multiset() =~= before.to_multiset().insert(posts.last()));
        assert(posts.filter(wanted).to_multiset() =~= posts.to_multiset().filter(wanted));
    } else {
        assert(posts.filter(wanted).to_multiset() =~= posts.to_multiset().filter(wanted));
    }
}

/// An outcome speaks of every post of the listing: the matcher answered `false`
/// on all but the found one, or `true` on two of them.
pub proof fn law_outcome_speaks_of_every_post<F: Fn(&Post) -> bool>(
    posts: Seq<Post>,
    matcher: F,
    outcome: SearchOutcome,
)
    requires
        outcome_of(posts, matcher, outcome),
    ensures
        match outcome {
            SearchOutcome::NoMatch => forall|post: Post|
                posts.contains(post) ==> #[trigger] call_ensures(matcher, (&post,), false),
            SearchOutcome::Unique(at) => {
                &&& at < posts.len()
                &&& call_ensures(matcher, (&posts[at as int],), true)
                &&& forall|post: Post|
                    posts.remove(at as int).contains(post) ==> #[trigger] call_ensures(
                        matcher,
                        (&post,),
                        false,
                    )
            },
            SearchOutcome::Ambiguous => exists|i: int, j: int|
                0 <= i < j < posts.len() && call_ensures(matcher, (&#[trigger] posts[i],), true)
                    && call_ensures(matcher, (&#[trigger] posts[j],), true),
        },
{
    if let SearchOutcome::Unique(at) = outcome {
        let rest = posts.remove(at as int);
        assert forall|post: Post| rest.contains(post) implies #[trigger] call_ensures(
            matcher,
            (&post,),
            false,
        ) by {
            let k = choose|k: int| 0 <= k < rest.len() && rest[k] == post;
            if k < at {
                assert(posts[k] == post);
            } else {
                assert(posts[k + 1] == post);
            }
        }
    }
}

/// A matcher decides a predicate exactly when each of its answers is what the
/// predicate says of the post.
pub proof fn law_matcher_decides_its_answers<F: Fn(&Post) -> bool>(
    matcher: F,
    wanted: spec_fn(Post) -> bool,
    post: Post,
    answer: bool,
)
    requires
        call_ensures(matcher, (&post,), answer),
    ensures
        decides(matcher, wanted) ==> answer == wanted(post),
        (forall|p: &Post, agrees: bool| #[trigger]
            call_ensures(matcher, (p,), agrees) ==> agrees == wanted(*p)) ==> decides(
            matcher,
            wanted,
        ),
{
}

/// A listing's outcome becomes a step: the found post, the error of the publish
/// request, or the same search once more.
pub proof fn law_outcome_becomes_a_step(search: PostSearch, posts: Seq<Post>, at: usize)
    requires
        at < posts.len(),
    ensures
        search.after_outcome(posts, SearchOutcome::Unique(at)) == RecoveryStep::Done(
            Ok(posts[at as int]),
        ),
        search.after_outcome(posts, SearchOutcome::Ambiguous) == RecoveryStep::Done(
            Err(search.publish_err),
        ),
        search.attempt >= 2 ==> search.after_outcome(posts, SearchOutcome::NoMatch)
            == RecoveryStep::Done(Err(search.publish_err)),
        search.attempt < 2 ==> (search.after_outcome(posts, SearchOutcome::NoMatch) matches
            RecoveryStep::ListPosts(again) && again.attempt == search.attempt + 1 && again.user_id
            == search.user_id && again.options == search.options && again.publish_err
            == search.publish_err),
{
}

/// The first request of a kind is made at once, each further one after a
/// second.
pub proof fn law_only_repeated_requests_wait(attempt: u32)
    ensures
        poll_delay_secs(0) == 0,
        attempt > 0 ==> poll_delay_secs(attempt) == 1,
{
}

} // verus!
