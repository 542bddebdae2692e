//! A simple fixed-window rate limiter and an all-or-nothing chain of them.
//!
//! A [`RateLimit`] owns one window's usage counter and the advisory instant of
//! the next window boundary. The periodic reset that a background timer would
//! perform is exposed as [`RateLimit::reset`]: the owner calls it on every
//! tick of its own timer, so each limit keeps its own, independent cadence.

use vstd::prelude::*;

verus! {

/// Saturating addition on window counters, as a spec-level value.
pub open spec fn sat_add_u32(a: u32, b: u32) -> u32 {
    if a + b > u32::MAX {
        u32::MAX
    } else {
        (a + b) as u32
    }
}

/// Saturating subtraction on window counters, as a spec-level value.
pub open spec fn sat_sub_u32(a: u32, b: u32) -> u32 {
    if a - b < 0 {
        0u32
    } else {
        (a - b) as u32
    }
}

/// Saturating addition on millisecond instants, as a spec-level value.
pub open spec fn sat_add_u64(a: u64, b: u64) -> u64 {
    if a + b > u64::MAX {
        u64::MAX
    } else {
        (a + b) as u64
    }
}

/// A fixed-window rate limit: at most `limit` units per window of
/// `window_ms` milliseconds, reset on a cadence owned by the caller.
#[verifier::ext_equal]
#[derive(Debug)]
pub struct RateLimit {
    /// Solely for diagnostics.
    name: String,
    /// Length of one fixed window, in milliseconds.
    window_ms: u64,
    /// How many units may be consumed in one window.
    limit: u32,
    /// How many units have been consumed in the active window.
    counter: u32,
    /// Advisory instant (milliseconds) at which the window is expected to
    /// reset next; reported to rejected callers as "try again after".
    next_reset_ms: u64,
}

impl RateLimit {
    /// The configured per-window capacity.
    pub closed spec fn spec_limit(&self) -> u32 {
        self.limit
    }

    /// The configured window length in milliseconds.
    pub closed spec fn spec_window_ms(&self) -> u64 {
        self.window_ms
    }

    /// Units consumed so far in the active window.
    pub closed spec fn spec_counter(&self) -> u32 {
        self.counter
    }

    /// The advisory next-reset instant in milliseconds.
    pub closed spec fn spec_next_reset_ms(&self) -> u64 {
        self.next_reset_ms
    }

    /// The diagnostic label.
    pub closed spec fn spec_name(&self) -> String {
        self.name
    }

    /// The counter never exceeds the capacity.
    pub open spec fn wf(&self) -> bool {
        self.spec_counter() <= self.spec_limit()
    }

    /// Two limits agree on everything but their usage counter.
    pub open spec fn same_config(&self, other: &RateLimit) -> bool {
        &&& self.spec_limit() == other.spec_limit()
        &&& self.spec_window_ms() == other.spec_window_ms()
        &&& self.spec_next_reset_ms() == other.spec_next_reset_ms()
        &&& self.spec_name() == other.spec_name()
    }

    /// Whether a request for `n` units fits into the current window: zero is
    /// always free, and otherwise the (saturating) new counter value must not
    /// exceed the capacity.
    pub open spec fn spec_can_admit(&self, n: u32) -> bool {
        ||| n == 0
        ||| (n <= self.spec_limit() && sat_add_u32(self.spec_counter(), n) <= self.spec_limit())
    }

    /// The counter value after a successful consumption of `n` units.
    pub open spec fn spec_counter_after_consume(&self, n: u32) -> u32 {
        if n == 0 {
            self.spec_counter()
        } else {
            sat_add_u32(self.spec_counter(), n)
        }
    }

    /// The whole limit as it stands after a successful consumption of `n`
    /// units: the same configuration around the new counter value.
    pub closed spec fn spec_after_consume(self, n: u32) -> RateLimit {
        RateLimit {
            name: self.name,
            window_ms: self.window_ms,
            limit: self.limit,
            counter: self.spec_counter_after_consume(n),
            next_reset_ms: self.next_reset_ms,
        }
    }

    /// Creates a limit with an empty window; the first window boundary is one
    /// window length after `now_ms`.
    pub fn new(limit: u32, window_ms: u64, name: String, now_ms: u64) -> (r: RateLimit)
        ensures
            r.spec_limit() == limit,
            r.spec_window_ms() == window_ms,
            r.spec_counter() == 0,
            r.spec_next_reset_ms() == sat_add_u64(now_ms, window_ms),
            r.spec_name() == name,
            r.wf(),
    {
        RateLimit {
            name,
            window_ms,
            limit,
            counter: 0,
            next_reset_ms: now_ms.saturating_add(window_ms),
        }
    }

    /// Attempts to consume `n` units from the current window.
    ///
    /// Returns `Ok(())` and adds `n` to the counter exactly when the window
    /// has room ([`Self::spec_can_admit`]); otherwise leaves the counter
    /// untouched and returns the advisory next-reset instant. Consuming zero
    /// always succeeds without mutating anything, and a request larger than
    /// the capacity always fails, whatever the counter holds.
    pub fn try_consume(&mut self, n: u32) -> (r: Result<(), u64>)
        ensures
            final(self).same_config(old(self)),
            r is Ok <==> old(self).spec_can_admit(n),
            r is Ok ==> final(self).spec_counter() == old(self).spec_counter_after_consume(n),
            r is Ok ==> *final(self) == old(self).spec_after_consume(n),
            r is Err ==> *final(self) == *old(self) && r == Err::<(), u64>(old(self).spec_next_reset_ms()),
            n == 0 ==> r is Ok && *final(self) == *old(self),
            n > old(self).spec_limit() ==> r == Err::<(), u64>(old(self).spec_next_reset_ms()),
            old(self).wf() ==> final(self).wf(),
    {
        if n == 0 {
            return Ok(());
        }
        if n > self.limit {
            return Err(self.next_reset_ms);
        }
        let new = self.counter.saturating_add(n);
        if new > self.limit {
            return Err(self.next_reset_ms);
        }
        self.counter = new;
        Ok(())
    }

    /// Takes `n` units back out of the counter, saturating at zero. Used by
    /// [`LimitChain`] to roll back a partial consumption; if the window was
    /// reset in between, the subtraction lands in the new window and may
    /// under-count usage there, which is accepted behavior.
    pub fn undo(&mut self, n: u32)
        ensures
            final(self).same_config(old(self)),
            final(self).spec_counter() == sat_sub_u32(old(self).spec_counter(), n),
            old(self).wf() ==> final(self).wf(),
    {
        self.counter = self.counter.saturating_sub(n);
    }

    /// Starts a fresh window at `now_ms`: zeroes the counter and publishes
    /// the next expected window boundary. The owner calls this on each tick
    /// of the periodic timer it runs for this limit.
    pub fn reset(&mut self, now_ms: u64)
        ensures
            final(self).spec_limit() == old(self).spec_limit(),
            final(self).spec_window_ms() == old(self).spec_window_ms(),
            final(self).spec_name() == old(self).spec_name(),
            final(self).spec_counter() == 0,
            final(self).spec_next_reset_ms() == sat_add_u64(now_ms, old(self).spec_window_ms()),
            final(self).wf(),
    {
        self.counter = 0;
        self.next_reset_ms = now_ms.saturating_add(self.window_ms);
    }

    /// The configured per-window capacity.
    pub fn limit(&self) -> (r: u32)
        ensures
            r == self.spec_limit(),
    {
        self.limit
    }

    /// Units consumed so far in the active window.
    pub fn counter(&self) -> (r: u32)
        ensures
            r == self.spec_counter(),
    {
        self.counter
    }

    /// The configured window length in milliseconds.
    pub fn window_ms(&self) -> (r: u64)
        ensures
            r == self.spec_window_ms(),
    {
        self.window_ms
    }

    /// The advisory next-reset instant in milliseconds.
    pub fn next_reset_ms(&self) -> (r: u64)
        ensures
            r == self.spec_next_reset_ms(),
    {
        self.next_reset_ms
    }

    /// The diagnostic label.
    pub fn name(&self) -> (r: &String)
        ensures
            r == self.spec_name(),
    {
        &self.name
    }
}

/// The limit as it stands after `k` successful single-unit consumptions.
pub open spec fn spec_consume_ones(lim: RateLimit, k: nat) -> RateLimit
    decreases k,
{
    if k == 0 {
        lim
    } else {
        spec_consume_ones(lim, (k - 1) as nat).spec_after_consume(1)
    }
}

/// Law (window exhaustion): starting from a freshly reset window, a limit
/// admits exactly its capacity in single units. For any `k` up to the
/// capacity, each of the first `k` single-unit consumptions is admitted and
/// the counter then reads `k`; once a capacity below `u32::MAX` is reached,
/// the next unit is rejected (a capacity of `u32::MAX` saturates instead of
/// rejecting); and a fresh window (counter zero, as after a reset) admits a
/// unit again whenever the capacity is at least one.
pub proof fn lemma_window_exhaustion(lim: RateLimit, k: nat)
    requires
        lim.spec_counter() == 0,
        k <= lim.spec_limit(),
    ensures
        spec_consume_ones(lim, k).same_config(&lim),
        spec_consume_ones(lim, k).spec_counter() == k,
        forall|j: nat| j < k ==> #[trigger] spec_consume_ones(lim, j).spec_can_admit(1),
        k == lim.spec_limit() && lim.spec_limit() < u32::MAX ==> !spec_consume_ones(
            lim,
            k,
        ).spec_can_admit(1),
        lim.spec_limit() >= 1 ==> lim.spec_can_admit(1),
    decreases k,
{
    if k > 0 {
        lemma_window_exhaustion(lim, (k - 1) as nat);
        assert(spec_consume_ones(lim, (k - 1) as nat).spec_can_admit(1));
    }
}

/// Law (independent reset cadence): two limits with the same window length
/// whose windows started at different instants publish different next-reset
/// instants, provided neither deadline saturates the clock range.
pub proof fn lemma_independent_reset_cadence(
    a: RateLimit,
    b: RateLimit,
    started_a_ms: u64,
    started_b_ms: u64,
)
    requires
        a.spec_window_ms() == b.spec_window_ms(),
        a.spec_next_reset_ms() == sat_add_u64(started_a_ms, a.spec_window_ms()),
        b.spec_next_reset_ms() == sat_add_u64(started_b_ms, b.spec_window_ms()),
        started_a_ms != started_b_ms,
        started_a_ms + a.spec_window_ms() <= u64::MAX,
        started_b_ms + b.spec_window_ms() <= u64::MAX,
    ensures
        a.spec_next_reset_ms() != b.spec_next_reset_ms(),
{
}

/// The index of the first limit in the sequence that cannot admit `n` more
/// units, or the length of the sequence when every limit can.
pub open spec fn spec_first_reject(s: Seq<RateLimit>, n: u32) -> int
    decreases s.len(),
{
    if s.len() == 0 {
        0
    } else if !s[0].spec_can_admit(n) {
        0
    } else {
        1 + spec_first_reject(s.drop_first(), n)
    }
}

/// The first rejecting index is the unique position with only admitting
/// limits before it; callers use this to pin [`spec_first_reject`] down
/// once they know which member rejects.
pub proof fn lemma_first_reject_is(s: Seq<RateLimit>, n: u32, i: int)
    requires
        0 <= i <= s.len(),
        forall|j: int| 0 <= j < i ==> #[trigger] s[j].spec_can_admit(n),
        i < s.len() ==> !s[i].spec_can_admit(n),
    ensures
        spec_first_reject(s, n) == i,
    decreases s.len(),
{
    if s.len() > 0 && i != 0 {
        let t = s.drop_first();
        assert forall|j: int| 0 <= j < i - 1 implies #[trigger] t[j].spec_can_admit(n) by {
            assert(t[j] == s[j + 1]);
        }
        assert(i - 1 < t.len() ==> t[i - 1] == s[i]);
        lemma_first_reject_is(t, n, i - 1);
    }
}

/// An ordered chain of fixed-window limits with all-or-nothing consumption:
/// a request is admitted only when every member limit admits it, and a
/// rejection rolls the already-consumed members back.
///
/// The chain owns its limits; their reset cadences stay independent, each
/// driven through [`LimitChain::reset_limit`] by its own timer.
#[derive(Debug)]
pub struct LimitChain {
    limits: Vec<RateLimit>,
}

impl LimitChain {
    /// The member limits, in consumption order.
    pub closed spec fn spec_limits(&self) -> Seq<RateLimit> {
        self.limits@
    }

    /// Every member limit is well formed.
    pub open spec fn wf(&self) -> bool {
        forall|i: int| 0 <= i < self.spec_limits().len() ==> (#[trigger] self.spec_limits()[i]).wf()
    }

    /// Builds a chain over the given limits, in the given order.
    pub fn new_from(limits: Vec<RateLimit>) -> (r: LimitChain)
        ensures
            r.spec_limits() == limits@,
    {
        LimitChain { limits }
    }

    /// Attempts to consume `n` units from every member limit, in order.
    ///
    /// On the first rejection, every limit that had already consumed gets
    /// the same amount subtracted back out, and the rejecting limit's
    /// advisory next-reset instant is returned. As long as no counter
    /// saturates (always the case when each counter can still grow by `n`),
    /// a failed call leaves the whole chain exactly as it was.
    #[verifier::loop_isolation(false)]
    pub fn try_consume(&mut self, n: u32) -> (r: Result<(), u64>)
        ensures
            final(self).spec_limits().len() == old(self).spec_limits().len(),
            r is Ok <==> spec_first_reject(old(self).spec_limits(), n) == old(self).spec_limits().len(),
            r is Ok <==> (forall|j: int|
                0 <= j < old(self).spec_limits().len()
                    ==> (#[trigger] old(self).spec_limits()[j]).spec_can_admit(n)),
            r is Ok ==> forall|j: int|
                0 <= j < old(self).spec_limits().len() ==> final(self).spec_limits()[j] == (
                #[trigger] old(self).spec_limits()[j]).spec_after_consume(n),
            r is Ok ==> forall|j: int|
                0 <= j < old(self).spec_limits().len()
                    ==> ((#[trigger] final(self).spec_limits()[j]).same_config(
                    &old(self).spec_limits()[j],
                ) && final(self).spec_limits()[j].spec_counter()
                    == old(self).spec_limits()[j].spec_counter_after_consume(n)),
            r is Err ==> ({
                let k = spec_first_reject(old(self).spec_limits(), n);
                &&& 0 <= k < old(self).spec_limits().len()
                &&& r == Err::<(), u64>(old(self).spec_limits()[k].spec_next_reset_ms())
                &&& forall|j: int|
                    0 <= j < k ==> ((#[trigger] final(self).spec_limits()[j]).same_config(
                        &old(self).spec_limits()[j],
                    ) && final(self).spec_limits()[j].spec_counter() == sat_sub_u32(
                        old(self).spec_limits()[j].spec_counter_after_consume(n),
                        n,
                    ))
                &&& forall|j: int|
                    k <= j < old(self).spec_limits().len() ==> final(self).spec_limits()[j] == (
                    #[trigger] old(self).spec_limits()[j])
            }),
            (r is Err && forall|j: int|
                0 <= j < old(self).spec_limits().len()
                    ==> (#[trigger] old(self).spec_limits()[j]).spec_counter() + n <= u32::MAX)
                ==> final(self).spec_limits() == old(self).spec_limits(),
            old(self).wf() ==> final(self).wf(),
    {
        let ghost orig = self.limits@;
        let mut i: usize = 0;
        while i < self.limits.len()
            invariant
                i <= self.limits@.len(),
                self.limits@.len() == orig.len(),
                forall|j: int|
                    0 <= j < i ==> (#[trigger] orig[j]).spec_can_admit(n)
                        && self.limits@[j] == orig[j].spec_after_consume(n),
                forall|j: int| i <= j < orig.len() ==> self.limits@[j] == #[trigger] orig[j],
            decreases orig.len() - i,
        {
            let res = self.limits[i].try_consume(n);
            match res {
                Ok(()) => {
                    i = i + 1;
                },
                Err(reset_ms) => {
                    proof {
                        lemma_first_reject_is(orig, n, i as int);
                        assert(!(old(self).spec_limits()[i as int].spec_can_admit(n)));
                    }
                    let mut j: usize = 0;
                    while j < i
                        invariant
                            j <= i <= self.limits@.len(),
                            self.limits@.len() == orig.len(),
                            forall|j2: int|
                                0 <= j2 < j ==> ((#[trigger] self.limits@[j2]).same_config(
                                    &orig[j2],
                                ) && self.limits@[j2].spec_counter() == sat_sub_u32(
                                    orig[j2].spec_counter_after_consume(n),
                                    n,
                                )),
                            forall|j2: int|
                                j <= j2 < i ==> self.limits@[j2] == (
                                #[trigger] orig[j2]).spec_after_consume(n),
                            forall|j2: int|
                                i <= j2 < orig.len() ==> self.limits@[j2] == #[trigger] orig[j2],
                        decreases i - j,
                    {
                        self.limits[j].undo(n);
                        j = j + 1;
                    }
                    proof {
                        if forall|j2: int|
                            0 <= j2 < orig.len() ==> (#[trigger] orig[j2]).spec_counter() + n
                                <= u32::MAX {
                            assert forall|j2: int| 0 <= j2 < orig.len() implies self.limits@[j2]
                                == #[trigger] orig[j2] by {
                                if j2 < i as int {
                                    assert(orig[j2].spec_counter() + n <= u32::MAX);
                                    assert(self.limits@[j2] =~= orig[j2]);
                                }
                            }
                            assert(self.limits@ =~= orig);
                        }
                        if old(self).wf() {
                            assert forall|j2: int|
                                0 <= j2 < self.limits@.len() implies (
                            #[trigger] self.limits@[j2]).wf() by {
                                assert(orig[j2].wf());
                                if j2 < i as int {
                                    assert(orig[j2].spec_can_admit(n));
                                }
                            }
                        }
                    }
                    return Err(reset_ms);
                },
            }
        }
        proof {
            lemma_first_reject_is(orig, n, orig.len() as int);
            if old(self).wf() {
                assert forall|j: int| 0 <= j < self.limits@.len() implies (
                #[trigger] self.limits@[j]).wf() by {
                    assert(orig[j].wf());
                    assert(orig[j].spec_can_admit(n));
                }
            }
        }
        Ok(())
    }

    /// Starts a fresh window on the member limit at `i`; the owner calls
    /// this on each tick of the timer it runs for that limit.
    pub fn reset_limit(&mut self, i: usize, now_ms: u64)
        requires
            i < old(self).spec_limits().len(),
        ensures
            final(self).spec_limits().len() == old(self).spec_limits().len(),
            final(self).spec_limits()[i as int].spec_limit() == old(self).spec_limits()[i as int].spec_limit(),
            final(self).spec_limits()[i as int].spec_window_ms() == old(self).spec_limits()[i as int].spec_window_ms(),
            final(self).spec_limits()[i as int].spec_name() == old(self).spec_limits()[i as int].spec_name(),
            final(self).spec_limits()[i as int].spec_counter() == 0,
            final(self).spec_limits()[i as int].spec_next_reset_ms() == sat_add_u64(
                now_ms,
                old(self).spec_limits()[i as int].spec_window_ms(),
            ),
            forall|j: int|
                0 <= j < old(self).spec_limits().len() && j != i ==> final(self).spec_limits()[j]
                    == old(self).spec_limits()[j],
            old(self).wf() ==> final(self).wf(),
    {
        self.limits[i].reset(now_ms);
    }

    /// The member limits, for inspection.
    pub fn limits(&self) -> (r: &Vec<RateLimit>)
        ensures
            r@ == self.spec_limits(),
    {
        &self.limits
    }
}

} // verus!
