use std::cell::Cell;
use std::collections::VecDeque;

use threads_rs::api::post_matchers::{image_matcher, text_matcher};
use threads_rs::api::posts_publish_recovery::{
    find_unique_match, recover_or_original, RecoveryStep, SearchOutcome,
};
use threads_rs::api::recovery_window::UtcInstant;
use threads_rs::error::{
    extract_base_fields, new_api_error, new_authentication_error, set_error_metadata, Error,
};
use threads_rs::http::is_non_retryable_permanent_error_code;
use threads_rs::types::{
    ContainerId, ContainerStatus, ImagePostContent, MediaType, Post, PostId, PostsResponse,
    TextPostContent,
};

const PERMISSION: &str = "Application does not have permission for this action";

fn published_text_post(id: &str, text: &str) -> Post {
    Post {
        id: PostId::from(id),
        media_type: Some(MediaType::TextPost),
        text: Some(text.to_owned()),
        topic_tag: None,
        is_reply: false,
        replied_to: None,
        is_quote_post: false,
        quoted_post: None,
        children: None,
    }
}

fn text_content(text: &str) -> TextPostContent {
    TextPostContent {
        text: text.to_owned(),
        link_attachment: None,
        reply_to_id: None,
        topic_tag: None,
        allowlisted_country_codes: None,
        location_id: None,
        auto_publish_text: false,
        quoted_post_id: None,
        is_ghost_post: false,
        enable_reply_approvals: false,
    }
}

fn false_failure(message: &str) -> Error {
    let mut err = new_api_error(10, message, "", "");
    set_error_metadata(&mut err, false, 500, 0);
    err
}

fn start() -> UtcInstant {
    UtcInstant {
        secs: 1_700_000_000,
        nanos: 250_000_000,
    }
}

fn message(err: &Error) -> &str {
    match extract_base_fields(err) {
        Some(fields) => fields.message.as_str(),
        None => "",
    }
}

/// Scripted replies, and what was asked for.
struct Server {
    statuses: VecDeque<Result<&'static str, Error>>,
    user_id: &'static str,
    listings: VecDeque<Result<Vec<Post>, Error>>,
    status_requests: usize,
    user_requests: usize,
    list_requests: usize,
    delays: Vec<u64>,
}

impl Server {
    fn new(
        statuses: Vec<Result<&'static str, Error>>,
        user_id: &'static str,
        listings: Vec<Result<Vec<Post>, Error>>,
    ) -> Self {
        Server {
            statuses: statuses.into(),
            user_id,
            listings: listings.into(),
            status_requests: 0,
            user_requests: 0,
            list_requests: 0,
            delays: Vec::new(),
        }
    }

    fn recover(&mut self, err: Error, matches: impl Fn(&Post) -> bool) -> Result<Post, Error> {
        let mut step = recover_or_original("container-1", start(), err);
        loop {
            step = match step {
                RecoveryStep::FetchStatus(poll) => {
                    self.status_requests += 1;
                    self.delays.push(poll.delay_secs());
                    assert_eq!(poll.container_id, ContainerId::from("container-1"));
                    let reply = self.statuses.pop_front().unwrap();
                    poll.wait_for_container_published(reply.map(|status| ContainerStatus {
                        id: ContainerId::from("container-1"),
                        status: status.to_owned(),
                        error_message: None,
                    }))
                }
                RecoveryStep::ReadUserId(lookup) => {
                    self.user_requests += 1;
                    lookup.begin_search(self.user_id.to_owned())
                }
                RecoveryStep::ListPosts(search) => {
                    self.list_requests += 1;
                    self.delays.push(search.delay_secs());
                    assert_eq!(search.user_id.0, self.user_id);
                    assert_eq!(search.options.limit, Some(25));
                    assert_eq!(search.options.since, Some(1_699_999_995));
                    assert_eq!(search.options.until, None);
                    assert_eq!(search.options.before, None);
                    assert_eq!(search.options.after, None);
                    let reply = self.listings.pop_front().unwrap();
                    search.try_recover_published_post(
                        reply.map(|data| PostsResponse { data }),
                        &matches,
                    )
                }
                RecoveryStep::Done(result) => return result,
            };
        }
    }
}

#[test]
fn create_text_post_recovers_from_code_10_false_failure() {
    let mut server = Server::new(
        vec![Ok("PUBLISHED")],
        "user-1",
        vec![Ok(vec![
            published_text_post("other-post", "unrelated text"),
            published_text_post("recovered-post", "hello recovery"),
        ])],
    );
    let content = text_content("hello recovery");
    let post = server
        .recover(false_failure(PERMISSION), text_matcher(&content))
        .expect("publish should be recovered");
    assert_eq!(post.id, PostId::from("recovered-post"));
    assert_eq!(post.text.as_deref(), Some("hello recovery"));
    assert_eq!(server.status_requests, 1);
    assert_eq!(server.user_requests, 1);
    assert_eq!(server.list_requests, 1);
    assert_eq!(server.delays, vec![0, 0]);
}

#[test]
fn create_text_post_surfaces_original_error_when_container_errored() {
    let mut server = Server::new(vec![Ok("ERROR")], "user-1", vec![]);
    let content = text_content("hello");
    let err = server
        .recover(false_failure(PERMISSION), text_matcher(&content))
        .expect_err("terminal container state must surface the publish error");
    assert!(message(&err).contains("permission"), "unexpected error: {err:?}");
    assert_eq!(server.user_requests, 0);
    assert_eq!(server.list_requests, 0);
}

#[test]
fn create_text_post_does_not_attempt_recovery_for_other_errors() {
    let mut server = Server::new(vec![Ok("PUBLISHED")], "user-1", vec![]);
    let content = text_content("hello");
    let mut publish_err = new_api_error(100, "Invalid parameter", "", "");
    set_error_metadata(&mut publish_err, false, 400, 0);
    let err = server
        .recover(publish_err, text_matcher(&content))
        .expect_err("genuine failure must propagate");
    assert!(message(&err).contains("Invalid parameter"));
    assert_eq!(server.status_requests, 0);
}

#[test]
fn recovery_fails_closed_on_ambiguous_match() {
    let mut server = Server::new(
        vec![Ok("PUBLISHED")],
        "user-1",
        vec![Ok(vec![
            published_text_post("post-a", "same text"),
            published_text_post("post-b", "same text"),
        ])],
    );
    let content = text_content("same text");
    let err = server
        .recover(
            false_failure("GraphMethodException"),
            text_matcher(&content),
        )
        .expect_err("ambiguous match must fail closed");
    assert!(message(&err).contains("GraphMethodException"));
    assert_eq!(server.list_requests, 1);
}

#[test]
fn late_status_and_late_listing_are_waited_for() {
    let mut server = Server::new(
        vec![
            Ok("FINISHED"),
            Ok("IN_PROGRESS"),
            Ok("FINISHED"),
            Ok("FINISHED"),
            Ok("PUBLISHED"),
        ],
        "user-1",
        vec![
            Ok(vec![]),
            Ok(vec![published_text_post("other-post", "unrelated text")]),
            Ok(vec![published_text_post("late-post", "hello")]),
        ],
    );
    let content = text_content("hello");
    let post = server
        .recover(false_failure(PERMISSION), text_matcher(&content))
        .unwrap();
    assert_eq!(post.id, PostId::from("late-post"));
    assert_eq!(server.status_requests, 5);
    assert_eq!(server.list_requests, 3);
    assert_eq!(server.delays, vec![0, 1, 1, 1, 1, 0, 1, 1]);
    assert_eq!(server.delays.iter().sum::<u64>(), 6);
}

#[test]
fn status_polls_are_bounded() {
    let mut server = Server::new(
        vec![
            Ok("FINISHED"),
            Ok("FINISHED"),
            Ok("FINISHED"),
            Ok("FINISHED"),
            Ok("FINISHED"),
            Ok("PUBLISHED"),
        ],
        "user-1",
        vec![],
    );
    let content = text_content("hello");
    let err = server
        .recover(false_failure(PERMISSION), text_matcher(&content))
        .unwrap_err();
    assert_eq!(message(&err), PERMISSION);
    assert_eq!(server.status_requests, 5);
    assert_eq!(server.user_requests, 0);
    assert_eq!(server.delays, vec![0, 1, 1, 1, 1]);
}

#[test]
fn listings_are_bounded() {
    let mut server = Server::new(
        vec![Ok("PUBLISHED")],
        "user-1",
        vec![
            Ok(vec![]),
            Ok(vec![]),
            Ok(vec![]),
            Ok(vec![published_text_post("too-late", "hello")]),
        ],
    );
    let content = text_content("hello");
    let err = server
        .recover(false_failure(PERMISSION), text_matcher(&content))
        .unwrap_err();
    assert_eq!(message(&err), PERMISSION);
    assert_eq!(server.list_requests, 3);
    assert_eq!(server.delays, vec![0, 0, 1, 1]);
}

#[test]
fn expired_container_ends_the_recovery() {
    let mut server = Server::new(
        vec![Ok("FINISHED"), Ok("EXPIRED"), Ok("PUBLISHED")],
        "user-1",
        vec![],
    );
    let content = text_content("hello");
    let err = server
        .recover(false_failure(PERMISSION), text_matcher(&content))
        .unwrap_err();
    assert_eq!(message(&err), PERMISSION);
    assert_eq!(server.status_requests, 2);
}

#[test]
fn status_is_compared_exactly() {
    let mut server = Server::new(
        vec![
            Ok("published"),
            Ok("PUBLISHED "),
            Ok(""),
            Ok("ERRORS"),
            Ok("EXPIRE"),
        ],
        "user-1",
        vec![],
    );
    let content = text_content("hello");
    assert!(server
        .recover(false_failure(PERMISSION), text_matcher(&content))
        .is_err());
    assert_eq!(server.status_requests, 5);
    assert_eq!(server.user_requests, 0);
}

#[test]
fn failed_requests_surface_the_publish_error_not_their_own() {
    let content = text_content("hello");

    let mut server = Server::new(
        vec![Err(new_authentication_error(190, "Invalid token", ""))],
        "user-1",
        vec![],
    );
    let err = server
        .recover(false_failure(PERMISSION), text_matcher(&content))
        .unwrap_err();
    assert_eq!(message(&err), PERMISSION);
    assert_eq!(server.status_requests, 1);

    let mut server = Server::new(
        vec![Ok("PUBLISHED")],
        "user-1",
        vec![Err(Error::Other("connection reset".to_owned()))],
    );
    let err = server
        .recover(false_failure(PERMISSION), text_matcher(&content))
        .unwrap_err();
    assert_eq!(message(&err), PERMISSION);
    assert_eq!(server.list_requests, 1);
}

#[test]
fn missing_user_ends_the_recovery() {
    let mut server = Server::new(vec![Ok("PUBLISHED")], "", vec![]);
    let content = text_content("hello");
    let err = server
        .recover(false_failure(PERMISSION), text_matcher(&content))
        .unwrap_err();
    assert_eq!(message(&err), PERMISSION);
    assert_eq!(server.user_requests, 1);
    assert_eq!(server.list_requests, 0);
}

#[test]
fn indistinguishable_image_is_not_recovered() {
    let content = ImagePostContent {
        text: None,
        image_url: "https://example.com/img.jpg".to_owned(),
        alt_text: None,
        reply_to_id: None,
        topic_tag: None,
        allowlisted_country_codes: None,
        location_id: None,
        quoted_post_id: None,
        is_spoiler_media: false,
        enable_reply_approvals: false,
    };
    let image = || {
        let mut post = published_text_post("image-1", "");
        post.media_type = Some(MediaType::Image);
        post.text = None;
        post
    };
    let mut server = Server::new(
        vec![Ok("PUBLISHED")],
        "user-1",
        vec![Ok(vec![image()]), Ok(vec![image()]), Ok(vec![image()])],
    );
    let err = server
        .recover(false_failure(PERMISSION), image_matcher(&content))
        .unwrap_err();
    assert_eq!(message(&err), PERMISSION);
    assert_eq!(server.list_requests, 3);
}

#[test]
fn original_error_keeps_its_metadata() {
    let mut server = Server::new(vec![Ok("ERROR")], "user-1", vec![]);
    let content = text_content("hello");
    let mut publish_err = new_api_error(10, PERMISSION, "details", "request-7");
    set_error_metadata(&mut publish_err, true, 503, 42);
    let err = server
        .recover(publish_err, text_matcher(&content))
        .unwrap_err();
    let fields = extract_base_fields(&err).unwrap();
    assert_eq!(fields.code, 10);
    assert_eq!(fields.message, PERMISSION);
    assert_eq!(fields.details, "details");
    assert_eq!(fields.request_id, "request-7");
    assert!(fields.is_transient);
    assert_eq!(fields.http_status_code, 503);
    assert_eq!(fields.error_subcode, 42);
}

#[test]
fn search_tells_none_one_and_several_apart() {
    let posts = vec![
        published_text_post("a", "x"),
        published_text_post("b", "y"),
        published_text_post("c", "x"),
    ];
    let text_is = |want: &'static str| move |post: &Post| post.text.as_deref() == Some(want);
    assert!(matches!(
        find_unique_match(&posts, &text_is("z")),
        SearchOutcome::NoMatch
    ));
    assert!(matches!(
        find_unique_match(&posts, &text_is("y")),
        SearchOutcome::Unique(1)
    ));
    assert!(matches!(
        find_unique_match(&posts, &text_is("x")),
        SearchOutcome::Ambiguous
    ));
    assert!(matches!(
        find_unique_match(&Vec::new(), &text_is("x")),
        SearchOutcome::NoMatch
    ));
}

#[test]
fn search_stops_at_the_second_match() {
    let posts = vec![
        published_text_post("a", "x"),
        published_text_post("b", "x"),
        published_text_post("c", "x"),
    ];
    let asked = Cell::new(0);
    let outcome = find_unique_match(&posts, &|_: &Post| {
        asked.set(asked.get() + 1);
        true
    });
    assert!(matches!(outcome, SearchOutcome::Ambiguous));
    assert_eq!(asked.get(), 2);
}

#[test]
fn only_code_10_is_permanent() {
    assert!(is_non_retryable_permanent_error_code(10));
    for code in [-10, 0, 1, 2, 9, 11, 100, 102, 190] {
        assert!(!is_non_retryable_permanent_error_code(code));
    }
}

#[test]
fn error_without_an_answer_is_not_recovered_from() {
    let mut server = Server::new(vec![Ok("PUBLISHED")], "user-1", vec![]);
    let mut publish_err = Error::Other("connection reset".to_owned());
    set_error_metadata(&mut publish_err, true, 500, 10);
    assert!(extract_base_fields(&publish_err).is_none());
    let content = text_content("hello");
    let err = server
        .recover(publish_err, text_matcher(&content))
        .unwrap_err();
    assert!(matches!(err, Error::Other(text) if text == "connection reset"));
    assert_eq!(server.status_requests, 0);
}
