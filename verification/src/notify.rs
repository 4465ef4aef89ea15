//! The per-request outbound notification and the middleware's decisions.
//!
//! On each intercepted request the middleware makes exactly one decision: it
//! clones one [`OutboundNotification`] from the prepared configuration and
//! schedules it, and it passes the inner handler's response through untouched.
//! The host's task scheduler runs the delivery; nothing of its outcome flows
//! back to the request path.

use vstd::prelude::*;
use crate::config::PreparedMiddlewareConfig;
use crate::headers::{header_map_clone, header_map_entries, no_entries};
use crate::task::DeliveryOutcome;

verus! {

/// What one notification carries, as plain values: the target URL, the header
/// map contents (and whether a map is present at all), and the optional body.
pub ghost struct NotificationView {
    pub url: Seq<char>,
    pub has_headers: bool,
    pub entries: Map<Seq<u8>, Seq<u8>>,
    pub body: Option<Seq<char>>,
}

/// One notification, cloned from the static configuration for a single
/// request and discarded after its delivery attempt.
pub struct OutboundNotification {
    pub url: String,
    pub headers: Option<http::HeaderMap>,
    pub body: Option<String>,
}

impl View for OutboundNotification {
    type V = NotificationView;

    open spec fn view(&self) -> NotificationView {
        NotificationView {
            url: self.url@,
            has_headers: self.headers is Some,
            entries: match self.headers {
                Option::Some(m) => header_map_entries(m),
                Option::None => no_entries(),
            },
            body: self.body.deep_view(),
        }
    }
}

impl PreparedMiddlewareConfig {
    /// The notification content this configuration dispatches, the same for
    /// every request.
    pub open spec fn notification_view(self) -> NotificationView {
        NotificationView {
            url: self.url@,
            has_headers: self.headers is Some,
            entries: self.entries(),
            body: self.body.deep_view(),
        }
    }
}

/// Clone one notification from the prepared configuration: the URL, header
/// map and body exactly as configured.
pub fn prepare_notification(cfg: &PreparedMiddlewareConfig) -> (n: OutboundNotification)
    ensures
        n@ == cfg.notification_view(),
{
    OutboundNotification {
        url: cfg.url.clone(),
        headers: match &cfg.headers {
            Option::Some(m) => Some(header_map_clone(m)),
            Option::None => None,
        },
        body: match &cfg.body {
            Option::Some(b) => Some(b.clone()),
            Option::None => None,
        },
    }
}

/// The body the POST carries: the configured body, or empty when none.
pub open spec fn effective_body_view(body: Option<Seq<char>>) -> Seq<char> {
    match body {
        Option::Some(b) => b,
        Option::None => Seq::empty(),
    }
}

/// The body bytes to put on the wire for one notification.
pub fn effective_body(n: &OutboundNotification) -> (b: &str)
    ensures
        b@ == effective_body_view(n@.body),
{
    match &n.body {
        Option::Some(s) => s.as_str(),
        Option::None => {
            let empty = "";
            proof {
                reveal_strlit("");
                assert(empty@ =~= Seq::<char>::empty());
            }
            empty
        },
    }
}

/// One middleware step, as a decision: the inner handler's response passes
/// through untouched, and beside it one notification, built from the static
/// configuration alone, is scheduled.
pub open spec fn middleware_step<R>(cfg: PreparedMiddlewareConfig, inner_response: R) -> (
    R,
    NotificationView,
) {
    (inner_response, cfg.notification_view())
}

/// The response the caller receives for a request whose notification attempt
/// ended in the given outcome.
pub open spec fn request_response<R>(
    cfg: PreparedMiddlewareConfig,
    inner_response: R,
    outcome: DeliveryOutcome,
) -> R {
    middleware_step(cfg, inner_response).0
}

/// The notifications scheduled over a run of any number of requests: one per
/// request, each built from the configuration alone.
pub open spec fn scheduled_notifications(cfg: PreparedMiddlewareConfig, n_requests: nat) -> Seq<
    NotificationView,
> {
    Seq::new(n_requests, |i: int| cfg.notification_view())
}

/// The response a caller sees is exactly what the inner handler produced:
/// the middleware mutates neither status nor headers nor body.
pub proof fn lemma_response_unchanged<R>(cfg: PreparedMiddlewareConfig, inner_response: R)
    ensures
        middleware_step(cfg, inner_response).0 == inner_response,
{
}

/// Exactly one notification is scheduled per request that reaches the
/// middleware, whatever the inner handler does with the request.
pub proof fn lemma_one_notification_per_request(cfg: PreparedMiddlewareConfig, n_requests: nat)
    ensures
        scheduled_notifications(cfg, n_requests).len() == n_requests,
        forall|i: int| 0 <= i < n_requests ==> #[trigger] scheduled_notifications(
            cfg,
            n_requests,
        )[i] == cfg.notification_view(),
{
}

/// Notifications of concurrent requests are independent: each carries the
/// configuration's own URL, headers and body, so none can mix with another's.
pub proof fn lemma_notifications_do_not_mix(
    cfg: PreparedMiddlewareConfig,
    n_requests: nat,
    i: int,
    j: int,
)
    requires
        0 <= i < n_requests,
        0 <= j < n_requests,
    ensures
        scheduled_notifications(cfg, n_requests)[i] == scheduled_notifications(cfg, n_requests)[j],
        scheduled_notifications(cfg, n_requests)[i].entries == cfg.entries(),
{
}

/// The response of a request does not depend on how its notification fared:
/// delivery succeeded, was refused or never connected — the caller sees the
/// same response.
pub proof fn lemma_response_independent_of_outcome<R>(
    cfg: PreparedMiddlewareConfig,
    inner_response: R,
    first: DeliveryOutcome,
    second: DeliveryOutcome,
)
    ensures
        request_response(cfg, inner_response, first) == request_response(
            cfg,
            inner_response,
            second,
        ),
        request_response(cfg, inner_response, first) == inner_response,
{
}

} // verus!
