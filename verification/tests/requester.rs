//! Tests for the admission-control configuration of the outbound client.

use hello_osm::requester::{
    photon_limit_chain, PHOTON_DAILY_LIMIT, PHOTON_DAILY_WINDOW_MS, PHOTON_MINUTELY_LIMIT,
    PHOTON_MINUTELY_WINDOW_MS,
};

/// With no requested limits, the default per-minute and per-day Photon
/// limits are installed, windows starting now.
#[test]
fn default_photon_limits() {
    let chain = photon_limit_chain(vec![], 1_000);
    let limits = chain.limits();
    assert_eq!(limits.len(), 2);

    assert_eq!(limits[0].limit(), PHOTON_MINUTELY_LIMIT);
    assert_eq!(limits[0].counter(), 0);
    assert_eq!(limits[0].next_reset_ms(), 1_000 + PHOTON_MINUTELY_WINDOW_MS);
    assert_eq!(limits[0].name(), "Photon Minutely");

    assert_eq!(limits[1].limit(), PHOTON_DAILY_LIMIT);
    assert_eq!(limits[1].counter(), 0);
    assert_eq!(limits[1].next_reset_ms(), 1_000 + PHOTON_DAILY_WINDOW_MS);
    assert_eq!(limits[1].name(), "Photon Daily");
}

/// Requested limits are installed as given, in order.
#[test]
fn configured_photon_limits() {
    let chain = photon_limit_chain(
        vec![
            (2, 1_000, "short boy".to_string()),
            (4, 3_000, "long boy".to_string()),
        ],
        0,
    );
    let limits = chain.limits();
    assert_eq!(limits.len(), 2);
    assert_eq!(limits[0].limit(), 2);
    assert_eq!(limits[0].next_reset_ms(), 1_000);
    assert_eq!(limits[0].name(), "short boy");
    assert_eq!(limits[1].limit(), 4);
    assert_eq!(limits[1].next_reset_ms(), 3_000);
    assert_eq!(limits[1].name(), "long boy");
}

/// The configured chain enforces its strictest member, as the self-imposed
/// Photon politeness limit does.
#[test]
fn configured_chain_enforces() {
    let mut chain = photon_limit_chain(vec![(2, 1_000, "short boy".to_string())], 0);
    assert!(chain.try_consume(1).is_ok());
    assert!(chain.try_consume(1).is_ok());
    assert_eq!(chain.try_consume(1), Err(1_000));
    chain.reset_limit(0, 1_000);
    assert!(chain.try_consume(1).is_ok());
}
