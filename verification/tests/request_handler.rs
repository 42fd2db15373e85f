use std::cell::RefCell;
use std::rc::Rc;

use profile_views::badge::Shields;
use profile_views::badge::ShieldsIoParams;
use profile_views::datastore::operations::Error;
use profile_views::datastore::operations::Operations;
use profile_views::fetcher::RenderFailure;
use profile_views::fetcher::SheildsIO;
use profile_views::handler::badge_reply;
use profile_views::handler::onboard_retry;
use profile_views::handler::profile_views_reply;
use profile_views::handler::resolve_latest_views;
use profile_views::handler::PathParams;
use profile_views::handler::RetryDecision;
use profile_views::state::AppState;
use profile_views::state::ViewCounter;

struct TemplateRenderer {
    calls: Rc<RefCell<Vec<String>>>,
}

impl SheildsIO for TemplateRenderer {
    fn get_badge(&self, query_params: String) -> Result<String, RenderFailure> {
        self.calls.borrow_mut().push(query_params.clone());
        let message = query_params.rsplit('=').next().unwrap_or("").to_string();
        Ok(format!("<svg>views: {}</svg>", message))
    }
}

struct FailingRenderer;

impl SheildsIO for FailingRenderer {
    fn get_badge(&self, _query_params: String) -> Result<String, RenderFailure> {
        Err(RenderFailure::new("request timed out".to_string()))
    }
}

/// A per-key store that serves a fixed count for onboarded users.
struct HappyStore {
    count: u64,
}

impl Operations for HappyStore {
    fn get_latest_views(&self, _user_name: &str) -> Result<u64, Error> {
        Ok(self.count)
    }

    fn onboard_user(&self, _user_name: &str) -> Result<u64, Error> {
        Ok(1)
    }
}

/// A per-key store that knows no user yet and counts onboarding calls.
struct UnknownUserStore {
    onboard_calls: Rc<RefCell<u32>>,
}

impl Operations for UnknownUserStore {
    fn get_latest_views(&self, user_name: &str) -> Result<u64, Error> {
        Err(Error::UserNotFound(user_name.to_string()))
    }

    fn onboard_user(&self, _user_name: &str) -> Result<u64, Error> {
        *self.onboard_calls.borrow_mut() += 1;
        Ok(1)
    }
}

struct BrokenStore;

impl Operations for BrokenStore {
    fn get_latest_views(&self, _user_name: &str) -> Result<u64, Error> {
        Err(Error::Unexpected("store is down".to_string()))
    }

    fn onboard_user(&self, _user_name: &str) -> Result<u64, Error> {
        Err(Error::Unexpected("store is down".to_string()))
    }
}

fn params() -> ShieldsIoParams {
    ShieldsIoParams::new(
        "Profile views".to_string(),
        "blue".to_string(),
        "flat".to_string(),
    )
}

#[test]
fn path_params_name_the_user() {
    let p = PathParams::new("octocat".to_string());
    assert_eq!(p.user_name(), "octocat");
}

#[test]
fn onboard_retry_serves_onboards_or_fails() {
    assert!(matches!(onboard_retry(Ok(5)), RetryDecision::Serve(5)));

    match onboard_retry(Err(Error::UserNotFound("octocat".to_string()))) {
        RetryDecision::Onboard(user) => assert_eq!(user, "octocat"),
        _ => panic!("a missing user must be onboarded"),
    }

    match onboard_retry(Err(Error::Unexpected("store is down".to_string()))) {
        RetryDecision::Fail(e) => assert_eq!(e.message(), "unexpected error: store is down"),
        _ => panic!("other failures must surface"),
    }
}

#[test]
fn an_unknown_user_is_onboarded_exactly_once() {
    let onboard_calls = Rc::new(RefCell::new(0));
    let store = UnknownUserStore { onboard_calls: onboard_calls.clone() };

    let views = resolve_latest_views(&store, "octocat");

    assert_eq!(views.unwrap(), 1);
    assert_eq!(*onboard_calls.borrow(), 1);
}

#[test]
fn badge_reply_carries_the_svg_under_no_cache_headers() {
    let reply = badge_reply(Ok("<svg/>".to_string()));
    assert_eq!(reply.status, 200);
    assert_eq!(reply.body, "<svg/>");
    assert_eq!(reply.headers.len(), 2);
    assert_eq!(reply.headers[0].0, "Cache-Control");
    assert_eq!(reply.headers[0].1, "max-age=0, no-cache, no-store, must-revalidate");
    assert_eq!(reply.headers[1].0, "Content-Type");
    assert_eq!(reply.headers[1].1, "image/svg+xml");

    let failed = badge_reply(Err(RenderFailure::new("request timed out".to_string())));
    assert_eq!(failed.status, 500);
    assert_eq!(failed.body, "");
    assert!(failed.headers.is_empty());
}

#[test]
fn a_served_request_returns_the_badge() {
    let calls = Rc::new(RefCell::new(Vec::new()));
    let store = HappyStore { count: 998 };
    let mut badge = Shields::new(TemplateRenderer { calls });

    let reply = profile_views_reply(&store, &mut badge, "octocat", &params());

    assert_eq!(reply.status, 200);
    assert_eq!(reply.body, "<svg>views: 998</svg>");
}

#[test]
fn a_store_failure_returns_a_server_error() {
    let calls = Rc::new(RefCell::new(Vec::new()));
    let mut badge = Shields::new(TemplateRenderer { calls: calls.clone() });

    let reply = profile_views_reply(&BrokenStore, &mut badge, "octocat", &params());

    assert_eq!(reply.status, 500);
    assert_eq!(reply.body, "");
    assert!(calls.borrow().is_empty());
}

#[test]
fn a_renderer_failure_returns_a_server_error() {
    let store = HappyStore { count: 998 };
    let mut badge = Shields::new(FailingRenderer);

    let reply = profile_views_reply(&store, &mut badge, "octocat", &params());

    assert_eq!(reply.status, 500);
}

#[test]
fn app_state_holds_its_collaborators() {
    let store = HappyStore { count: 7 };
    let badge = Shields::new(TemplateRenderer { calls: Rc::new(RefCell::new(Vec::new())) });
    let state = AppState::new(store, badge);

    let mut cached_badge = state.badge;
    let reply = profile_views_reply(&state.db, &mut cached_badge, "octocat", &params());
    assert_eq!(reply.body, "<svg>views: 7</svg>");
}

#[test]
fn counted_requests_serve_fresh_badges_across_the_width_change() {
    let calls = Rc::new(RefCell::new(Vec::new()));
    let mut badge = Shields::new(TemplateRenderer { calls: calls.clone() });
    let p = params();

    // The store holds 41 at startup.
    let mut counter = ViewCounter::from_initial_read(Ok(41)).unwrap();

    // First request: increment to 42, cache miss, renderer asked with the
    // two-asterisk message, response shows 42.
    let views = counter.increment();
    assert_eq!(views, 42);
    let body = badge.fetch(&p, views).unwrap();
    assert_eq!(body, "<svg>views: 42</svg>");
    assert_eq!(calls.borrow().len(), 1);
    assert!(calls.borrow()[0].ends_with("message=**"));

    // Second request: increment to 43, cache hit, no renderer call.
    let views = counter.increment();
    assert_eq!(views, 43);
    let body = badge.fetch(&p, views).unwrap();
    assert_eq!(body, "<svg>views: 43</svg>");
    assert_eq!(calls.borrow().len(), 1);

    // Requests continue until the count reaches 100: the width changes
    // from two to three, the width-two entry is evicted, and the response
    // shows 100.
    let mut views = 43;
    while views < 100 {
        views = counter.increment();
        let body = badge.fetch(&p, views).unwrap();
        assert_eq!(body, format!("<svg>views: {}</svg>", views));
    }
    assert_eq!(views, 100);
    assert_eq!(calls.borrow().len(), 2);
    assert!(calls.borrow()[1].ends_with("message=***"));

    let (key_width_two, _) = p.to_query_string_template(43);
    assert!(badge.cached_template(&key_width_two).is_none());
}

#[test]
fn a_render_failure_still_counts_the_view() {
    let mut counter = ViewCounter::from_initial_read(Ok(41)).unwrap();
    let mut badge = Shields::new(FailingRenderer);

    let views = counter.increment();
    let outcome = badge.fetch(&params(), views);

    assert_eq!(outcome.unwrap_err().message(), "request timed out");
    assert_eq!(counter.count(), 42);

    let (key, _) = params().to_query_string_template(42);
    assert!(badge.cached_template(&key).is_none());
}
