//! A fire-and-forget webhook notifier for an HTTP middleware.
//!
//! A static configuration names a webhook URL, an optional body and optional
//! headers. Validated once at setup ([`config::build`]), it yields a prepared
//! configuration from which each intercepted request clones one outbound
//! notification ([`notify::prepare_notification`]), delivered by a background
//! task ([`task`]) that never reports back to the request path.

pub mod config;
pub mod headers;
pub mod notify;
pub mod task;
pub mod url;
