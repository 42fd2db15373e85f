//! The request handler's decisions.
//!
//! The handler is thin: it resolves the user's fresh count from the
//! per-key store — onboarding the user once when the store does not know
//! them — renders the badge for that count, and translates the outcome to
//! an HTTP reply. Everything it decides is fixed here; the HTTP server
//! around it only carries the values.

use vstd::prelude::*;

use crate::badge::ShieldsIoFetcher;
use crate::badge::ShieldsIoParams;
use crate::datastore::DatastoreError;
use crate::datastore::DatastoreOperations;
use crate::fetcher::RenderFailure;

verus! {

/// The path parameters of a profile views request: the user whose counter
/// is read.
pub struct PathParams {
    user_name: String,
}

impl View for PathParams {
    type V = Seq<char>;

    closed spec fn view(&self) -> Seq<char> {
        self.user_name@
    }
}

impl PathParams {
    /// Path parameters naming a user.
    pub fn new(user_name: String) -> (p: PathParams)
        ensures
            p@ == user_name@,
    {
        PathParams { user_name }
    }

    /// The user whose counter is read.
    pub fn user_name(&self) -> (s: &str)
        ensures
            s@ == self@,
    {
        self.user_name.as_str()
    }
}

/// An HTTP reply as the handler decides it: status, headers and body.
pub struct HttpReply {
    pub status: u16,
    pub headers: Vec<(String, String)>,
    pub body: String,
}

/// A successful badge reply: the SVG body under no-cache headers.
pub open spec fn badge_reply_ok(r: HttpReply, badge: Seq<char>) -> bool {
    &&& r.status == 200
    &&& r.body@ == badge
    &&& r.headers@.len() == 2
    &&& r.headers@[0].0@ == "Cache-Control"@
    &&& r.headers@[0].1@ == "max-age=0, no-cache, no-store, must-revalidate"@
    &&& r.headers@[1].0@ == "Content-Type"@
    &&& r.headers@[1].1@ == "image/svg+xml"@
}

/// A bare server failure reply.
pub open spec fn is_server_error_reply(r: HttpReply) -> bool {
    &&& r.status == 500
    &&& r.body@ == Seq::<char>::empty()
    &&& r.headers@.len() == 0
}

/// The reply for any failed request: a bare server error.
pub fn server_error_reply() -> (r: HttpReply)
    ensures
        is_server_error_reply(r),
{
    HttpReply { status: 500, headers: Vec::new(), body: String::new() }
}

/// The reply for a badge rendering outcome: the SVG under no-cache headers
/// when rendering succeeded, a bare server error when it failed.
pub fn badge_reply(badge_result: Result<String, RenderFailure>) -> (r: HttpReply)
    ensures
        (match badge_result {
            Ok(b) => badge_reply_ok(r, b@),
            Err(_) => is_server_error_reply(r),
        }),
{
    match badge_result {
        Ok(b) => {
            let mut headers: Vec<(String, String)> = Vec::new();
            headers.push(
                (
                    "Cache-Control".to_owned(),
                    "max-age=0, no-cache, no-store, must-revalidate".to_owned(),
                ),
            );
            headers.push(("Content-Type".to_owned(), "image/svg+xml".to_owned()));
            HttpReply { status: 200, headers, body: b }
        },
        Err(_) => server_error_reply(),
    }
}

/// The handler's decision after the first counter read: serve the count,
/// onboard the unknown user once, or fail with the store's error.
pub enum RetryDecision {
    Serve(u64),
    Onboard(String),
    Fail(DatastoreError),
}

/// Decide what follows the first counter read: a count is served; a
/// missing user is onboarded, once, under the name the store reported;
/// any other failure is surfaced unchanged.
pub fn onboard_retry(first: Result<u64, DatastoreError>) -> (d: RetryDecision)
    ensures
        (match first {
            Ok(v) => (match d {
                RetryDecision::Serve(c) => c == v,
                _ => false,
            }),
            Err(e) => (match e {
                DatastoreError::UserNotFound(u) => (match d {
                    RetryDecision::Onboard(u2) => u2@ == u@,
                    _ => false,
                }),
                _ => (match d {
                    RetryDecision::Fail(e2) => e2 == e,
                    _ => false,
                }),
            }),
        }),
{
    match first {
        Ok(v) => RetryDecision::Serve(v),
        Err(e) => match e {
            DatastoreError::UserNotFound(u) => RetryDecision::Onboard(u),
            other => RetryDecision::Fail(other),
        },
    }
}

/// Resolve the user's fresh count: read it from the store, and when the
/// store does not know the user yet, onboard them once and use the count
/// the onboarding returns. What comes back is decided by the store; the
/// retry policy is `onboard_retry`'s.
pub fn resolve_latest_views<T: DatastoreOperations>(db: &T, user_name: &str) -> (r: Result<
    u64,
    DatastoreError,
>) {
    match onboard_retry(db.get_latest_views(user_name)) {
        RetryDecision::Serve(v) => Ok(v),
        RetryDecision::Onboard(user) => db.onboard_user(user.as_str()),
        RetryDecision::Fail(e) => Err(e),
    }
}

/// Serve one profile views request: resolve the user's fresh count,
/// render the badge for it, and reply with the SVG under no-cache headers,
/// or with a bare server error when the store or the renderer failed.
pub fn profile_views_reply<T: DatastoreOperations, F: ShieldsIoFetcher>(
    db: &T,
    badge: &mut F,
    user_name: &str,
    params: &ShieldsIoParams,
) -> (r: HttpReply)
    requires
        old(badge).fetch_wf(),
    ensures
        final(badge).fetch_wf(),
        r.status == 200 || r.status == 500,
        r.status == 200 ==> badge_reply_ok(r, r.body@),
        r.status == 500 ==> is_server_error_reply(r),
{
    let views = match resolve_latest_views(db, user_name) {
        Ok(v) => v,
        Err(_e) => {
            return server_error_reply();
        },
    };
    badge_reply(badge.fetch(params, views))
}

} // verus!
