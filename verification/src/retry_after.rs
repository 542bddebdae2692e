//! A backoff gate per upstream endpoint, fed by `Retry-After` header values.
//!
//! [`parse_retry_value`] turns the literal header value into a delay from
//! now, per RFC 9110: either delay-seconds (a non-negative decimal integer)
//! or one of the three HTTP-date grammars, compared against the supplied
//! wall-clock reading. [`BackerOff`] stores at most one "blocked until"
//! instant and refuses requests until it has passed.

use vstd::prelude::*;
use vstd::string::StringSliceAdditionalSpecFns;

use crate::ratelimit::sat_add_u64;

verus! {

/// Fallback block length when an upstream signals overload without a usable
/// `Retry-After` value: a fixed pause, in milliseconds.
pub const HEADERLESS_BACKOFF_MS: u64 = 30000;

/// HTTP status code Too Many Requests.
pub const STATUS_TOO_MANY_REQUESTS: u16 = 429;

/// HTTP status code Service Unavailable.
pub const STATUS_SERVICE_UNAVAILABLE: u16 = 503;

/// Why a `Retry-After` value produced no future deadline.
#[derive(Debug)]
pub enum Error {
    /// The value is neither delay-seconds nor a recognized HTTP-date; it
    /// carries the offending input.
    ParseFail(String),
    /// The value parsed to a timestamp at or before the current wall time.
    /// Distinct from a parse failure: no blocking was intended.
    FromPast,
}

/// The byte of an ASCII decimal digit (`'0'` to `'9'`).
pub open spec fn is_digit_byte(b: u8) -> bool {
    48 <= b <= 57
}

/// The numeric value of an ASCII digit byte.
pub open spec fn digit_val(b: u8) -> int {
    b - 48
}

/// Every byte is an ASCII digit.
pub open spec fn all_digits(s: Seq<u8>) -> bool {
    forall|i: int| 0 <= i < s.len() ==> is_digit_byte(s[i])
}

/// The value of a digit string read in base 10.
pub open spec fn dec_val(s: Seq<u8>) -> int
    decreases s.len(),
{
    if s.len() == 0 {
        0
    } else {
        dec_val(s.drop_last()) * 10 + digit_val(s.last())
    }
}

/// The digits of a delay-seconds value: integer parsing accepts one optional
/// leading `'+'` (byte 43) before the digits.
pub open spec fn delay_digits(s: Seq<u8>) -> Seq<u8> {
    if s.len() > 0 && s[0] == 43 {
        s.subrange(1, s.len() as int)
    } else {
        s
    }
}

/// Whether the bytes form a delay-seconds value that fits in a `u64`.
pub open spec fn is_delay_seconds(s: Seq<u8>) -> bool {
    let d = delay_digits(s);
    d.len() > 0 && all_digits(d) && dec_val(d) <= u64::MAX
}

proof fn lemma_dec_val_nonneg(s: Seq<u8>)
    requires
        all_digits(s),
    ensures
        dec_val(s) >= 0,
    decreases s.len(),
{
    if s.len() > 0 {
        assert forall|i: int| 0 <= i < s.drop_last().len() implies is_digit_byte(
            s.drop_last()[i],
        ) by {
            assert(s.drop_last()[i] == s[i]);
        }
        lemma_dec_val_nonneg(s.drop_last());
    }
}

proof fn lemma_dec_val_prefix(s: Seq<u8>, k: int)
    requires
        all_digits(s),
        0 <= k <= s.len(),
    ensures
        dec_val(s) >= dec_val(s.subrange(0, k)),
    decreases s.len(),
{
    if k == s.len() {
        assert(s.subrange(0, k) =~= s);
    } else {
        let t = s.drop_last();
        assert forall|i: int| 0 <= i < t.len() implies is_digit_byte(t[i]) by {
            assert(t[i] == s[i]);
        }
        lemma_dec_val_nonneg(t);
        lemma_dec_val_prefix(t, k);
        assert(t.subrange(0, k) =~= s.subrange(0, k));
    }
}

/// Parses a delay-seconds value, exactly as integer parsing of an unsigned
/// 64-bit number does: an optional leading `'+'`, then one or more decimal
/// digits, rejecting values that do not fit.
fn parse_delay_seconds(bytes: &[u8]) -> (r: Option<u64>)
    ensures
        r is Some <==> is_delay_seconds(bytes@),
        r matches Some(v) ==> v == dec_val(delay_digits(bytes@)),
{
    let n = bytes.len();
    if n == 0 {
        return None;
    }
    let start: usize = if bytes[0] == 43 {
        1
    } else {
        0
    };
    if start == n {
        return None;
    }
    let ghost d = delay_digits(bytes@);
    assert(forall|j: int| 0 <= j < d.len() ==> d[j] == bytes@[j + start]);
    let mut acc: u64 = 0;
    let mut i: usize = start;
    while i < n
        invariant
            start <= i <= n,
            n == bytes@.len(),
            start == 1 ==> n >= 1 && bytes@[0] == 43,
            start == 0 || start == 1,
            d == delay_digits(bytes@),
            d.len() == n - start,
            forall|j: int| 0 <= j < d.len() ==> d[j] == bytes@[j + start],
            forall|j: int| start <= j < i ==> is_digit_byte(bytes@[j]),
            acc == dec_val(d.subrange(0, i - start)),
        decreases n - i,
    {
        let b = bytes[i];
        if b < 48 || b > 57 {
            assert(!is_digit_byte(d[i - start]));
            return None;
        }
        let dv: u64 = (b - 48) as u64;
        let ghost m = i - start;
        proof {
            let sub1 = d.subrange(0, m + 1);
            assert(sub1.drop_last() =~= d.subrange(0, m));
            assert(sub1.last() == d[m]);
        }
        let shifted = match acc.checked_mul(10) {
            Some(s) => s,
            None => {
                proof {
                    overflow_means_not_delay(d, m, acc, dv as int);
                }
                return None;
            },
        };
        acc = match shifted.checked_add(dv) {
            Some(s) => s,
            None => {
                proof {
                    overflow_means_not_delay(d, m, acc, dv as int);
                }
                return None;
            },
        };
        i = i + 1;
    }
    proof {
        assert(d.subrange(0, n - start) =~= d);
        assert forall|j: int| 0 <= j < d.len() implies is_digit_byte(d[j]) by {
            assert(d[j] == bytes@[j + start]);
        }
    }
    Some(acc)
}

proof fn overflow_means_not_delay(d: Seq<u8>, m: int, acc: u64, dv: int)
    requires
        0 <= m < d.len(),
        0 <= dv,
        acc == dec_val(d.subrange(0, m)),
        acc * 10 + dv > u64::MAX,
        dec_val(d.subrange(0, m + 1)) == acc * 10 + dv,
    ensures
        !(all_digits(d) && dec_val(d) <= u64::MAX),
{
    if all_digits(d) {
        lemma_dec_val_prefix(d, m + 1);
    }
}

/// What `Retry-After` bytes denote: the timestamp (Unix seconds) of a parsed
/// HTTP-date, or nothing when no date grammar matches.
pub uninterp spec fn http_date_value(s: Seq<u8>) -> Option<u64>;

/// Relies on httpdate::parse_http_date: parses the three RFC 9110 HTTP-date
/// grammars (IMF-fixdate, obsolete RFC 850, asctime) and accepts only years
/// 1970 to 9999, so the timestamp is never before the Unix epoch; the result
/// is a function of the string alone.
#[verifier::external_body]
fn parse_http_date_secs(value: &str) -> (r: Option<u64>)
    ensures
        r == http_date_value(value.spec_bytes()),
{
    match httpdate::parse_http_date(value) {
        Ok(t) => match t.duration_since(std::time::UNIX_EPOCH) {
            Ok(d) => Some(d.as_secs()),
            Err(_) => None,
        },
        Err(_) => None,
    }
}

/// The delay from now, in seconds, that the header bytes denote at wall time
/// `wall_now_secs`: the delay-seconds value itself, or the time until a
/// parsed HTTP-date that is still in the future. Nothing when the value is
/// malformed or denotes a past timestamp.
pub open spec fn spec_delay_of(bytes: Seq<u8>, wall_now_secs: u64) -> Option<u64> {
    if is_delay_seconds(bytes) {
        Some(dec_val(delay_digits(bytes)) as u64)
    } else {
        match http_date_value(bytes) {
            Some(t) => if t > wall_now_secs {
                Some((t - wall_now_secs) as u64)
            } else {
                None
            },
            None => None,
        }
    }
}

/// The header bytes parsed to a timestamp at or before `wall_now_secs`.
pub open spec fn spec_is_from_past(bytes: Seq<u8>, wall_now_secs: u64) -> bool {
    &&& !is_delay_seconds(bytes)
    &&& match http_date_value(bytes) {
        Some(t) => t <= wall_now_secs,
        None => false,
    }
}

/// Converts a raw `Retry-After` value into a delay from now, in seconds.
///
/// Tries delay-seconds first, then the three HTTP-date grammars; a parsed
/// date is compared against `wall_now_secs`, the current Unix wall time in
/// seconds. A date at or before now is [`Error::FromPast`], which is not a
/// parse failure; anything matching neither grammar is [`Error::ParseFail`].
pub fn parse_retry_value(value: &str, wall_now_secs: u64) -> (r: Result<u64, Error>)
    ensures
        spec_delay_of(value.spec_bytes(), wall_now_secs) matches Some(d) ==> r == Ok::<
            u64,
            Error,
        >(d),
        spec_is_from_past(value.spec_bytes(), wall_now_secs) ==> r == Err::<u64, Error>(
            Error::FromPast,
        ),
        (spec_delay_of(value.spec_bytes(), wall_now_secs) is None && !spec_is_from_past(
            value.spec_bytes(),
            wall_now_secs,
        )) ==> (r matches Err(Error::ParseFail(s)) && s@ == value@),
{
    match parse_delay_seconds(value.as_bytes()) {
        Some(secs) => Ok(secs),
        None => match parse_http_date_secs(value) {
            Some(t) => if t > wall_now_secs {
                Ok(t - wall_now_secs)
            } else {
                Err(Error::FromPast)
            },
            None => Err(Error::ParseFail(value.to_owned())),
        },
    }
}

/// The blocking deadline published for a delay of `delay_secs` seconds
/// learned at instant `now_ms`, saturating instead of overflowing.
pub open spec fn spec_deadline_ms(now_ms: u64, delay_secs: u64) -> u64 {
    sat_add_u64(
        now_ms,
        if delay_secs * 1000 > u64::MAX {
            u64::MAX
        } else {
            (delay_secs * 1000) as u64
        },
    )
}

/// Whether a response status signals overload: Too Many Requests or Service
/// Unavailable. Any other status is out of scope for backoff.
pub open spec fn spec_is_limited_status(status: u16) -> bool {
    status == STATUS_TOO_MANY_REQUESTS || status == STATUS_SERVICE_UNAVAILABLE
}

/// A single-slot backoff gate for one upstream endpoint: holds at most one
/// "blocked until" instant, overwritten on every set and cleared lazily by
/// the first check after it expires.
#[derive(Debug)]
pub struct BackerOff {
    /// Solely for diagnostics.
    name: Option<String>,
    /// Instant (milliseconds) until which requests are refused; `None` means
    /// not currently blocked.
    until_ms: Option<u64>,
}

impl BackerOff {
    /// The stored blocking deadline, if any.
    pub closed spec fn spec_until_ms(&self) -> Option<u64> {
        self.until_ms
    }

    /// The diagnostic label, if any.
    pub closed spec fn spec_name(&self) -> Option<Seq<char>> {
        self.name.deep_view()
    }

    /// Creates a gate with no name and no blocking deadline.
    pub fn new() -> (r: BackerOff)
        ensures
            r.spec_until_ms() is None,
            r.spec_name() is None,
    {
        BackerOff { name: None, until_ms: None }
    }

    /// Sets an optional name for this gate, for diagnostics.
    pub fn with_name(self, name: String) -> (r: BackerOff)
        ensures
            r.spec_until_ms() == self.spec_until_ms(),
            r.spec_name() == Some(name@),
    {
        BackerOff { name: Some(name), until_ms: self.until_ms }
    }

    /// Stores the instant until which requests are blocked, unconditionally
    /// overwriting any earlier deadline.
    fn set_retry_until(&mut self, deadline_ms: u64)
        ensures
            final(self).spec_until_ms() == Some(deadline_ms),
            final(self).spec_name() == old(self).spec_name(),
    {
        self.until_ms = Some(deadline_ms);
    }

    /// Parses a `Retry-After` value and, when it denotes a delay, blocks
    /// further requests until `now_ms` plus that delay.
    ///
    /// On [`Error::FromPast`] and [`Error::ParseFail`] the stored state is
    /// left untouched and the error is surfaced: the caller decides whether
    /// to fall back to a default backoff.
    pub fn parse_maybe_set(&mut self, value: &str, now_ms: u64, wall_now_secs: u64) -> (r: Result<
        (),
        Error,
    >)
        ensures
            final(self).spec_name() == old(self).spec_name(),
            spec_delay_of(value.spec_bytes(), wall_now_secs) matches Some(d) ==> r is Ok
                && final(self).spec_until_ms() == Some(spec_deadline_ms(now_ms, d)),
            spec_is_from_past(value.spec_bytes(), wall_now_secs) ==> r == Err::<(), Error>(
                Error::FromPast,
            ) && *final(self) == *old(self),
            (spec_delay_of(value.spec_bytes(), wall_now_secs) is None && !spec_is_from_past(
                value.spec_bytes(),
                wall_now_secs,
            )) ==> (r matches Err(Error::ParseFail(s)) && s@ == value@
                && *final(self) == *old(self)),
    {
        match parse_retry_value(value, wall_now_secs) {
            Ok(delay_secs) => {
                let delay_ms = match delay_secs.checked_mul(1000) {
                    Some(ms) => ms,
                    None => u64::MAX,
                };
                self.set_retry_until(now_ms.saturating_add(delay_ms));
                Ok(())
            },
            Err(e) => Err(e),
        }
    }

    /// Blocks requests for the fixed default pause, for responses that
    /// signal overload without a usable `Retry-After` value.
    pub fn set_without_header(&mut self, now_ms: u64)
        ensures
            final(self).spec_until_ms() == Some(sat_add_u64(now_ms, HEADERLESS_BACKOFF_MS)),
            final(self).spec_name() == old(self).spec_name(),
    {
        self.set_retry_until(now_ms.saturating_add(HEADERLESS_BACKOFF_MS));
    }

    /// Checks whether a request is allowed at instant `now_ms`.
    ///
    /// Succeeds when no deadline is stored; succeeds and clears the slot
    /// when the stored deadline has passed; otherwise fails with the instant
    /// at which requests become allowed again.
    pub fn can_request(&mut self, now_ms: u64) -> (r: Result<(), u64>)
        ensures
            final(self).spec_name() == old(self).spec_name(),
            match old(self).spec_until_ms() {
                None => r is Ok && *final(self) == *old(self),
                Some(t) => if now_ms >= t {
                    r is Ok && final(self).spec_until_ms() is None
                } else {
                    r == Err::<(), u64>(t) && *final(self) == *old(self)
                },
            },
    {
        match self.until_ms {
            None => Ok(()),
            Some(t) => {
                if now_ms >= t {
                    self.until_ms = None;
                    Ok(())
                } else {
                    Err(t)
                }
            },
        }
    }

    /// A copy of the stored blocking deadline, if any.
    pub fn get_retry_until(&self) -> (r: Option<u64>)
        ensures
            r == self.spec_until_ms(),
    {
        self.until_ms
    }

    /// Inspects an upstream response and updates the stored deadline: on an overload
    /// status the deadline is set from the `Retry-After` value when it
    /// denotes a delay, from the fixed default when the value is absent or
    /// unparsable, and not at all when the value denotes a past timestamp
    /// (the response is passed along). Returns the blocking deadline when
    /// one was set, `Ok` when the response may be used as it is.
    pub fn check_limiting_status(
        &mut self,
        status: u16,
        retry_after: Option<&str>,
        now_ms: u64,
        wall_now_secs: u64,
    ) -> (r: Result<(), u64>)
        ensures
            final(self).spec_name() == old(self).spec_name(),
            !spec_is_limited_status(status) ==> r is Ok && *final(self) == *old(self),
            spec_is_limited_status(status) ==> match retry_after {
                None => {
                    &&& final(self).spec_until_ms() == Some(
                        sat_add_u64(now_ms, HEADERLESS_BACKOFF_MS),
                    )
                    &&& r == Err::<(), u64>(sat_add_u64(now_ms, HEADERLESS_BACKOFF_MS))
                },
                Some(value) => match spec_delay_of(value.spec_bytes(), wall_now_secs) {
                    Some(d) => {
                        &&& final(self).spec_until_ms() == Some(spec_deadline_ms(now_ms, d))
                        &&& r == Err::<(), u64>(spec_deadline_ms(now_ms, d))
                    },
                    None => if spec_is_from_past(value.spec_bytes(), wall_now_secs) {
                        r is Ok && *final(self) == *old(self)
                    } else {
                        &&& final(self).spec_until_ms() == Some(
                            sat_add_u64(now_ms, HEADERLESS_BACKOFF_MS),
                        )
                        &&& r == Err::<(), u64>(sat_add_u64(now_ms, HEADERLESS_BACKOFF_MS))
                    },
                },
            },
    {
        if status != STATUS_TOO_MANY_REQUESTS && status != STATUS_SERVICE_UNAVAILABLE {
            return Ok(());
        }
        match retry_after {
            Some(value) => match self.parse_maybe_set(value, now_ms, wall_now_secs) {
                Ok(()) => match self.get_retry_until() {
                    Some(deadline) => Err(deadline),
                    // Unreachable: a successful set always stores a deadline.
                    None => Ok(()),
                },
                Err(Error::ParseFail(_)) => {
                    self.set_without_header(now_ms);
                    match self.get_retry_until() {
                        Some(deadline) => Err(deadline),
                        // Unreachable: the default set always stores a deadline.
                        None => Ok(()),
                    }
                },
                // A deadline from the past implies no blocking was intended:
                // pass the response along.
                Err(Error::FromPast) => Ok(()),
            },
            None => {
                self.set_without_header(now_ms);
                match self.get_retry_until() {
                    Some(deadline) => Err(deadline),
                    // Unreachable: the default set always stores a deadline.
                    None => Ok(()),
                }
            },
        }
    }
}

} // verus!
