//! Tests for the backoff gate and the `Retry-After` value parser.

use std::time::{Duration, SystemTime};

use hello_osm::retry_after::{
    parse_retry_value, BackerOff, Error, HEADERLESS_BACKOFF_MS, STATUS_SERVICE_UNAVAILABLE,
    STATUS_TOO_MANY_REQUESTS,
};
use httpdate::fmt_http_date;

/// Unix seconds of `Sun, 06 Nov 1994 08:49:37 GMT`.
const DATE_SECS: u64 = 784111777;

#[test]
fn block_without_header() {
    let mut backer = BackerOff::new();
    backer.set_without_header(0);
    assert!(backer.can_request(0).is_err());
    assert!(backer.can_request(HEADERLESS_BACKOFF_MS + 100).is_ok());
}

#[test]
fn block_with_int_header() {
    let mut backer = BackerOff::new();
    assert!(backer.parse_maybe_set("60", 0, DATE_SECS).is_ok());
    assert!(backer.can_request(59_999).is_err());
    assert!(backer.can_request(60_000).is_ok());
}

#[test]
fn block_with_httpdate_header() {
    let until = SystemTime::UNIX_EPOCH + Duration::from_secs(DATE_SECS + 20);
    let str_until = fmt_http_date(until);

    let mut backer = BackerOff::new();
    assert!(backer
        .parse_maybe_set(str_until.as_str(), 0, DATE_SECS)
        .is_ok());
    assert!(backer.can_request(19_999).is_err());
    assert!(backer.can_request(20_000).is_ok());
}

/// A blocked gate reports the exact deadline, blocks strictly before it and
/// unblocks exactly at it; the first successful check clears the slot.
#[test]
fn backoff_lifecycle() {
    let mut backer = BackerOff::new().with_name("upstream".to_string());
    assert!(backer.can_request(0).is_ok());
    assert_eq!(backer.get_retry_until(), None);

    assert!(backer.parse_maybe_set("60", 1_000, DATE_SECS).is_ok());
    assert_eq!(backer.get_retry_until(), Some(61_000));
    assert_eq!(backer.can_request(1_000), Err(61_000));
    assert_eq!(backer.can_request(60_999), Err(61_000));
    assert_eq!(backer.can_request(61_000), Ok(()));
    // The expired deadline was cleared by the successful check.
    assert_eq!(backer.get_retry_until(), None);
    assert!(backer.can_request(0).is_ok());
}

/// Each of the three HTTP-date grammars for "now + 1 hour" parses to a
/// 3600-second delay; the same timestamp at or before now is FromPast, not
/// a parse failure.
#[test]
fn http_date_round_trip() {
    let imf = "Sun, 06 Nov 1994 08:49:37 GMT";
    let rfc850 = "Sunday, 06-Nov-94 08:49:37 GMT";
    let asctime = "Sun Nov  6 08:49:37 1994";
    for value in [imf, rfc850, asctime] {
        assert_eq!(
            parse_retry_value(value, DATE_SECS - 3600).unwrap(),
            3600,
            "one hour ahead should give a 3600 s delay: {value}"
        );
        assert!(
            matches!(parse_retry_value(value, DATE_SECS), Err(Error::FromPast)),
            "a date exactly at now is from the past: {value}"
        );
        assert!(
            matches!(
                parse_retry_value(value, DATE_SECS + 3600),
                Err(Error::FromPast)
            ),
            "one hour behind is from the past: {value}"
        );
    }
    // The formatter produces the IMF-fixdate grammar; it round-trips too.
    let formatted = fmt_http_date(SystemTime::UNIX_EPOCH + Duration::from_secs(DATE_SECS));
    assert_eq!(formatted, imf);
    assert_eq!(parse_retry_value(&formatted, DATE_SECS - 3600).unwrap(), 3600);
}

/// Negative numbers and arbitrary text are parse failures, never FromPast.
#[test]
fn malformed_header() {
    for value in ["-60", "whenever", "", "17.5", "60 s", " 60"] {
        match parse_retry_value(value, DATE_SECS) {
            Err(Error::ParseFail(s)) => assert_eq!(s, value),
            other => panic!("{value:?} should be a parse failure, got {other:?}"),
        }
    }
}

/// Delay-seconds accepts exactly what unsigned 64-bit integer parsing does.
#[test]
fn delay_seconds_grammar() {
    assert_eq!(parse_retry_value("0", DATE_SECS).unwrap(), 0);
    assert_eq!(parse_retry_value("60", DATE_SECS).unwrap(), 60);
    assert_eq!(parse_retry_value("+60", DATE_SECS).unwrap(), 60);
    assert_eq!(parse_retry_value("007", DATE_SECS).unwrap(), 7);
    assert_eq!(
        parse_retry_value("18446744073709551615", DATE_SECS).unwrap(),
        u64::MAX
    );
    assert!(matches!(
        parse_retry_value("18446744073709551616", DATE_SECS),
        Err(Error::ParseFail(_))
    ));
    assert!(matches!(
        parse_retry_value("++60", DATE_SECS),
        Err(Error::ParseFail(_))
    ));
    assert!(matches!(
        parse_retry_value("+", DATE_SECS),
        Err(Error::ParseFail(_))
    ));
}

/// FromPast leaves the stored state untouched; ParseFail does too.
#[test]
fn failed_parse_leaves_state() {
    let mut backer = BackerOff::new();
    let past = fmt_http_date(SystemTime::UNIX_EPOCH + Duration::from_secs(DATE_SECS - 60));
    assert!(matches!(
        backer.parse_maybe_set(&past, 0, DATE_SECS),
        Err(Error::FromPast)
    ));
    assert_eq!(backer.get_retry_until(), None);
    assert!(matches!(
        backer.parse_maybe_set("junk", 0, DATE_SECS),
        Err(Error::ParseFail(_))
    ));
    assert_eq!(backer.get_retry_until(), None);
    assert!(backer.can_request(0).is_ok());
}

/// Overload statuses set a backoff from the header value; other statuses
/// pass through untouched.
#[test]
fn limiting_status_with_header() {
    let mut backer = BackerOff::new();
    assert_eq!(backer.check_limiting_status(200, Some("60"), 0, DATE_SECS), Ok(()));
    assert_eq!(backer.get_retry_until(), None);

    assert_eq!(
        backer.check_limiting_status(STATUS_TOO_MANY_REQUESTS, Some("60"), 0, DATE_SECS),
        Err(60_000)
    );
    assert_eq!(backer.get_retry_until(), Some(60_000));
    assert_eq!(backer.can_request(59_999), Err(60_000));
}

/// An overload status without a header, or with an unparsable one, falls
/// back to the fixed default pause.
#[test]
fn limiting_status_default_backoff() {
    let mut backer = BackerOff::new();
    assert_eq!(
        backer.check_limiting_status(STATUS_SERVICE_UNAVAILABLE, None, 1_000, DATE_SECS),
        Err(1_000 + HEADERLESS_BACKOFF_MS)
    );
    assert_eq!(backer.get_retry_until(), Some(1_000 + HEADERLESS_BACKOFF_MS));

    let mut backer = BackerOff::new();
    assert_eq!(
        backer.check_limiting_status(STATUS_TOO_MANY_REQUESTS, Some("junk"), 2_000, DATE_SECS),
        Err(2_000 + HEADERLESS_BACKOFF_MS)
    );
    assert_eq!(backer.get_retry_until(), Some(2_000 + HEADERLESS_BACKOFF_MS));
}

/// A `Retry-After` date from the past on an overload response is ignored:
/// the response is passed along and no backoff is set.
#[test]
fn limiting_status_from_past() {
    let mut backer = BackerOff::new();
    let past = fmt_http_date(SystemTime::UNIX_EPOCH + Duration::from_secs(DATE_SECS - 60));
    assert_eq!(
        backer.check_limiting_status(STATUS_TOO_MANY_REQUESTS, Some(&past), 0, DATE_SECS),
        Ok(())
    );
    assert_eq!(backer.get_retry_until(), None);
}

/// A fresh deadline overwrites an older one, whichever is longer.
#[test]
fn overwrite_on_set() {
    let mut backer = BackerOff::new();
    assert!(backer.parse_maybe_set("3600", 0, DATE_SECS).is_ok());
    assert_eq!(backer.get_retry_until(), Some(3_600_000));
    assert!(backer.parse_maybe_set("1", 0, DATE_SECS).is_ok());
    assert_eq!(backer.get_retry_until(), Some(1_000));
}
