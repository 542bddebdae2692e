//! Admission-control configuration for the outbound API client.
//!
//! The surrounding program wires HTTP clients to the gates of this crate;
//! what is decided here is only which fixed-window limits guard the Photon
//! geocoding endpoints when the caller configures none: parity with the
//! OpenRouteService quotas, one per-minute and one per-day limit.

use vstd::prelude::*;

use crate::ratelimit::{LimitChain, RateLimit, sat_add_u64};

verus! {

/// Default per-minute capacity for Photon requests.
pub const PHOTON_MINUTELY_LIMIT: u32 = 40;

/// One minute, in milliseconds.
pub const PHOTON_MINUTELY_WINDOW_MS: u64 = 60000;

/// Default per-day capacity for Photon requests.
pub const PHOTON_DAILY_LIMIT: u32 = 2000;

/// One day, in milliseconds.
pub const PHOTON_DAILY_WINDOW_MS: u64 = 86400000;

/// One requested limit: capacity, window length in milliseconds, and a
/// diagnostic name.
pub type LimitParams = (u32, u64, String);

/// Builds the chain of fixed-window limits that guards the Photon
/// endpoints, every window starting at `now_ms`.
///
/// Each requested `(capacity, window, name)` triple becomes one limit, in
/// order; when none is requested, the two default limits (per-minute and
/// per-day) are used instead.
pub fn photon_limit_chain(params: Vec<LimitParams>, now_ms: u64) -> (r: LimitChain)
    ensures
        r.wf(),
        params@.len() > 0 ==> {
            &&& r.spec_limits().len() == params@.len()
            &&& forall|i: int|
                0 <= i < params@.len() ==> {
                    &&& (#[trigger] r.spec_limits()[i]).spec_limit() == params@[i].0
                    &&& r.spec_limits()[i].spec_window_ms() == params@[i].1
                    &&& r.spec_limits()[i].spec_name() == params@[i].2
                    &&& r.spec_limits()[i].spec_counter() == 0
                    &&& r.spec_limits()[i].spec_next_reset_ms() == sat_add_u64(
                        now_ms,
                        params@[i].1,
                    )
                }
        },
        params@.len() == 0 ==> {
            &&& r.spec_limits().len() == 2
            &&& r.spec_limits()[0].spec_limit() == PHOTON_MINUTELY_LIMIT
            &&& r.spec_limits()[0].spec_window_ms() == PHOTON_MINUTELY_WINDOW_MS
            &&& r.spec_limits()[1].spec_limit() == PHOTON_DAILY_LIMIT
            &&& r.spec_limits()[1].spec_window_ms() == PHOTON_DAILY_WINDOW_MS
            &&& forall|i: int|
                0 <= i < 2 ==> (#[trigger] r.spec_limits()[i]).spec_counter() == 0
                    && r.spec_limits()[i].spec_next_reset_ms() == sat_add_u64(
                    now_ms,
                    r.spec_limits()[i].spec_window_ms(),
                )
        },
{
    let mut params = params;
    if params.len() == 0 {
        params.push((PHOTON_MINUTELY_LIMIT, PHOTON_MINUTELY_WINDOW_MS, minutely_name()));
        params.push((PHOTON_DAILY_LIMIT, PHOTON_DAILY_WINDOW_MS, daily_name()));
    }
    let ghost requested = params@;
    let mut limits: Vec<RateLimit> = Vec::new();
    while params.len() > 0
        invariant
            limits@.len() + params@.len() == requested.len(),
            params@ =~= requested.subrange(limits@.len() as int, requested.len() as int),
            forall|i: int|
                0 <= i < limits@.len() ==> {
                    &&& (#[trigger] limits@[i]).spec_limit() == requested[i].0
                    &&& limits@[i].spec_window_ms() == requested[i].1
                    &&& limits@[i].spec_name() == requested[i].2
                    &&& limits@[i].spec_counter() == 0
                    &&& limits@[i].spec_next_reset_ms() == sat_add_u64(now_ms, requested[i].1)
                    &&& limits@[i].wf()
                },
        decreases params@.len(),
    {
        let (limit, window_ms, name) = params.remove(0);
        limits.push(RateLimit::new(limit, window_ms, name, now_ms));
        proof {
            assert(params@ =~= requested.subrange(limits@.len() as int, requested.len() as int));
        }
    }
    LimitChain::new_from(limits)
}

/// The diagnostic name of the default per-minute Photon limit.
fn minutely_name() -> (r: String)
    ensures
        r@ == "Photon Minutely"@,
    {
    "Photon Minutely".to_owned()
}

/// The diagnostic name of the default per-day Photon limit.
fn daily_name() -> (r: String)
    ensures
        r@ == "Photon Daily"@,
    {
    "Photon Daily".to_owned()
}

} // verus!
