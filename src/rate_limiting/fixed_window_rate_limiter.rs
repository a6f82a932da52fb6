use vstd::prelude::*;

verus! {

/// Declares `std::time::Instant`, which the limiter keeps as the origin of its clock.
#[verifier::external_type_specification]
#[verifier::external_body]
pub struct ExInstant(std::time::Instant);

/// Relies on `Instant::now`: reads the monotonic clock. Nothing is promised of the value.
pub assume_specification[ std::time::Instant::now ]() -> std::time::Instant;

/// Relies on `Instant::elapsed`: the time since the instant, saturating at zero.
/// Nothing is promised of the value.
pub assume_specification[ std::time::Instant::elapsed ](i: &std::time::Instant) -> std::time::Duration;

/// Relies on `Duration::as_nanos`: the whole number of nanoseconds in the duration.
pub assume_specification[ core::time::Duration::as_nanos ](d: &core::time::Duration) -> u128;

/// Why a limiter could not be built.
#[derive(Debug, Clone, Copy, PartialEq, Eq, Structural)]
pub enum LimiterConfigError {
    /// The window duration was zero, which leaves no window to count in.
    ZeroWindow,
}

/// The abstract state of a limiter. Times are nanoseconds since the limiter was built.
pub struct WindowState {
    pub window_start: u64,
    pub window_duration: u64,
    pub limit: usize,
    pub request_count: usize,
}

impl WindowState {
    /// A state that an operation can leave behind.
    pub open spec fn wf(self) -> bool {
        &&& self.window_duration > 0
        &&& self.request_count <= self.limit
    }
}

/// Time from `start` to `now`, zero when the reading lies before the start.
pub open spec fn elapsed(now: u64, start: u64) -> int {
    if now >= start {
        now - start
    } else {
        0
    }
}

/// Whether the current window has run out at `now` (the boundary instant belongs to the new
/// window).
pub open spec fn is_stale(s: WindowState, now: u64) -> bool {
    elapsed(now, s.window_start) >= s.window_duration
}

/// The state once a stale window has been replaced by a fresh one starting at `now`.
pub open spec fn resolve(s: WindowState, now: u64) -> WindowState {
    if is_stale(s, now) {
        WindowState { window_start: now, request_count: 0, ..s }
    } else {
        s
    }
}

/// Whether a request at `now` is admitted.
pub open spec fn admits(s: WindowState, now: u64) -> bool {
    resolve(s, now).request_count < s.limit
}

/// The state after a request at `now`, and whether it was admitted.
pub open spec fn request_outcome(s: WindowState, now: u64) -> (WindowState, bool) {
    let r = resolve(s, now);
    if admits(s, now) {
        (WindowState { request_count: (r.request_count + 1) as usize, ..r }, true)
    } else {
        (r, false)
    }
}

/// The state after a count query at `now`, and the count it returns.
pub open spec fn count_outcome(s: WindowState, now: u64) -> (WindowState, usize) {
    let r = resolve(s, now);
    (r, r.request_count)
}

/// The states and decisions of requests made one after another at the times in `times`.
pub open spec fn run_requests(s: WindowState, times: Seq<u64>) -> (WindowState, Seq<bool>)
    decreases times.len(),
{
    if times.len() == 0 {
        (s, seq![])
    } else {
        let (next, first) = request_outcome(s, times[0]);
        let (last, rest) = run_requests(next, times.drop_first());
        (last, seq![first].add(rest))
    }
}

/// The number of admitted requests among `decisions`.
pub open spec fn admitted_count(decisions: Seq<bool>) -> nat
    decreases decisions.len(),
{
    if decisions.len() == 0 {
        0
    } else {
        (if decisions[0] { 1nat } else { 0nat }) + admitted_count(decisions.drop_first())
    }
}

/// The smaller of two naturals.
pub open spec fn min_nat(a: nat, b: nat) -> nat {
    if a <= b {
        a
    } else {
        b
    }
}

/// Within one window (no request time reaches the end of the current window), requests are
/// admitted exactly while the count stays under the limit: the `i`-th is admitted iff
/// `request_count + i < limit`, so a fresh window admits `min(limit, n)` of `n` requests and
/// rejects every request after the `limit`-th.
pub proof fn lemma_bound_within_window(s: WindowState, times: Seq<u64>)
    requires
        s.wf(),
        forall|i: int| 0 <= i < times.len() ==> !is_stale(s, #[trigger] times[i]),
    ensures
        run_requests(s, times).1.len() == times.len(),
        forall|i: int|
            0 <= i < times.len() ==> #[trigger] run_requests(s, times).1[i] == (s.request_count
                + i < s.limit),
        admitted_count(run_requests(s, times).1) == min_nat(
            (s.limit - s.request_count) as nat,
            times.len(),
        ),
        run_requests(s, times).0.window_start == s.window_start,
        run_requests(s, times).0.request_count == s.request_count + min_nat(
            (s.limit - s.request_count) as nat,
            times.len(),
        ),
    decreases times.len(),
{
    if times.len() > 0 {
        let (next, first) = request_outcome(s, times[0]);
        let rest = times.drop_first();
        assert forall|i: int| 0 <= i < rest.len() implies !is_stale(next, #[trigger] rest[i]) by {
            assert(rest[i] == times[i + 1]);
        }
        lemma_bound_within_window(next, rest);
        let decisions = run_requests(s, times).1;
        assert forall|i: int| 0 <= i < times.len() implies #[trigger] decisions[i] == (
        s.request_count + i < s.limit) by {
            if i > 0 {
                assert(decisions[i] == run_requests(next, rest).1[i - 1]);
            }
        }
        assert(decisions.drop_first() =~= run_requests(next, rest).1);
    }
}

/// Once a window has run out at `now`, a request or a count query at `now` starts from a
/// fresh window at `now` with a count of zero, however many requests the old window saw.
pub proof fn lemma_reset_after_window(s: WindowState, now: u64)
    requires
        s.wf(),
        elapsed(now, s.window_start) >= s.window_duration,
    ensures
        resolve(s, now).window_start == now,
        resolve(s, now).request_count == 0,
        count_outcome(s, now).1 == 0,
        request_outcome(s, now).1 == (s.limit > 0),
        request_outcome(s, now).0.request_count == (if s.limit > 0 { 1usize } else { 0usize }),
{
}

/// A rejected request leaves the count as it was.
pub proof fn lemma_rejection_keeps_count(s: WindowState, now: u64)
    requires
        s.wf(),
        !request_outcome(s, now).1,
    ensures
        request_outcome(s, now).0.request_count == s.request_count,
{
}

/// Two count queries at the same instant return the same value; the second changes nothing,
/// and neither raises the count.
pub proof fn lemma_count_query_idempotent(s: WindowState, now: u64)
    requires
        s.wf(),
    ensures
        count_outcome(count_outcome(s, now).0, now) == count_outcome(s, now),
        count_outcome(s, now).1 <= s.request_count,
        count_outcome(s, now).0.wf(),
{
}

/// A request at exactly `window_start + window_duration` belongs to the new window.
pub proof fn lemma_boundary_starts_new_window(s: WindowState, now: u64)
    requires
        s.wf(),
        now == s.window_start + s.window_duration,
    ensures
        is_stale(s, now),
        resolve(s, now).window_start == now,
        resolve(s, now).request_count == 0,
        request_outcome(s, now).1 == (s.limit > 0),
{
}

/// Admits at most `limit` requests in each fixed window of `window_duration` nanoseconds.
pub struct FixedWindowRateLimiter {
    origin: std::time::Instant,
    window_start: u64,
    window_duration: u64,
    limit: usize,
    request_count: usize,
}

impl View for FixedWindowRateLimiter {
    type V = WindowState;

    closed spec fn view(&self) -> WindowState {
        WindowState {
            window_start: self.window_start,
            window_duration: self.window_duration,
            limit: self.limit,
            request_count: self.request_count,
        }
    }
}

impl FixedWindowRateLimiter {
    /// Holds of every limiter that `new` built, and is kept by every operation.
    pub open spec fn wf(&self) -> bool {
        self@.wf()
    }

    /// Builds a limiter whose first window starts now. A zero window duration is refused.
    pub fn new(window_duration: u64, limit: usize) -> (r: Result<Self, LimiterConfigError>)
        ensures
            window_duration == 0 <==> r is Err,
            r is Err ==> r->Err_0 == LimiterConfigError::ZeroWindow,
            r matches Ok(l) ==> l.wf() && l@ == (WindowState {
                window_start: 0,
                window_duration,
                limit,
                request_count: 0,
            }),
    {
        if window_duration == 0 {
            return Err(LimiterConfigError::ZeroWindow);
        }
        Ok(FixedWindowRateLimiter {
            origin: std::time::Instant::now(),
            window_start: 0,
            window_duration,
            limit,
            request_count: 0,
        })
    }

    /// Reads the clock: nanoseconds since the limiter was built, saturating at `u64::MAX`.
    fn now(&self) -> u64 {
        let nanos: u128 = self.origin.elapsed().as_nanos();
        if nanos > u64::MAX as u128 {
            u64::MAX
        } else {
            nanos as u64
        }
    }

    /// Starts a new window at `now` when the current one has run out.
    fn reset_window(&mut self, now: u64)
        requires
            old(self).wf(),
        ensures
            final(self)@ == resolve(old(self)@, now),
    {
        let elapsed: u64 = if now >= self.window_start {
            now - self.window_start
        } else {
            0
        };
        if elapsed >= self.window_duration {
            self.window_start = now;
            self.request_count = 0;
        }
    }

    /// Decides a request made at `now` (nanoseconds since the limiter was built).
    pub fn request_allowed_at(&mut self, now: u64) -> (r: bool)
        requires
            old(self).wf(),
        ensures
            final(self).wf(),
            (final(self)@, r) == request_outcome(old(self)@, now),
    {
        self.reset_window(now);
        if self.request_count < self.limit {
            self.request_count = self.request_count + 1;
            true
        } else {
            false
        }
    }

    /// Decides a request made now, by the limiter's clock.
    pub fn request_allowed(&mut self) -> (r: bool)
        requires
            old(self).wf(),
        ensures
            final(self).wf(),
            exists|now: u64| #[trigger] request_outcome(old(self)@, now) == (final(self)@, r),
    {
        let now: u64 = self.now();
        self.request_allowed_at(now)
    }

    /// The number of requests admitted in the window current at `now`; a stale window is
    /// reset first, and the reset is kept.
    pub fn get_count_at(&mut self, now: u64) -> (r: usize)
        requires
            old(self).wf(),
        ensures
            final(self).wf(),
            (final(self)@, r) == count_outcome(old(self)@, now),
    {
        self.reset_window(now);
        self.request_count
    }

    /// The number of requests admitted in the window current now, by the limiter's clock.
    pub fn get_count(&mut self) -> (r: usize)
        requires
            old(self).wf(),
        ensures
            final(self).wf(),
            exists|now: u64| #[trigger] count_outcome(old(self)@, now) == (final(self)@, r),
    {
        let now: u64 = self.now();
        self.get_count_at(now)
    }
}

} // verus!
