/// Laws of the matchers.
pub mod matcher_laws;
/// Deciding whether a post is the one that a request published.
pub mod post_matchers;
/// Recovery from `/threads_publish` false failures.
pub mod posts_publish_recovery;
/// Laws of whole recoveries.
pub mod recovery_laws;
/// Laws of the single steps of a recovery.
pub mod step_laws;
/// The start of the window in which a recovered post is looked for.
pub mod recovery_window;
