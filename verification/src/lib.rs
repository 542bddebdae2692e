//! Admission control for outbound calls to third-party HTTP APIs.
//!
//! Two cooperating gates decide, before every outbound call, whether the call
//! may be sent:
//!
//! - fixed-window rate limits ([`ratelimit::RateLimit`]), composable into an
//!   all-or-nothing chain with rollback ([`ratelimit::LimitChain`]); and
//! - a per-endpoint backoff gate ([`retry_after::BackerOff`]) that blocks
//!   calls until a deadline learned from a `Retry-After` header (or a fixed
//!   default) has passed.
//!
//! All state lives in plain values. The caller supplies every clock reading:
//! instants are milliseconds of the caller's monotonic clock (`now_ms`), and
//! HTTP dates are compared against seconds of Unix wall time
//! (`wall_now_secs`). This keeps every decision here pure, so it can be
//! verified and tested without a runtime; the surrounding program owns the
//! timers that drive window resets.

pub mod ratelimit;
pub mod requester;
pub mod retry_after;
