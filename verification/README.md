# threads_rs: publish recovery

The Threads endpoint `/threads_publish` sometimes answers with an error (HTTP 5xx
with code 10) although the container was published. This crate decides what to do
then: whether the error is worth a second look, which requests to make, and which
of the user's recent posts is the published one. Its answer is the post, or the
original error.

- `src/` is the library. It performs no I/O: each step names a request and takes
  the reply. Every function has a contract, and Verus proves it.
  - `api::post_matchers` compares posts with the content of a publish request;
    `api::matcher_laws` holds what is true of these comparisons.
  - `api::posts_publish_recovery` is the flow; `api::recovery_laws` holds what is
    true of it after any sequence of replies.
  - `api::recovery_window` is the only place that calls another crate, `chrono`.
- `app/` makes the requests, waits between them and logs.
- `tests/` runs the library on concrete values.
