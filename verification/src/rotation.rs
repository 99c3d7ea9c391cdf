//! Progress of the current rotation window, as a whole percentage.

use vstd::prelude::*;
use vstd::arithmetic::div_mod::{
    lemma_div_is_ordered, lemma_div_pos_is_pos, lemma_fundamental_div_mod, lemma_mod_pos_bound,
};

verus! {

/// Elapsed share of the window `[activated_at, deadline]` at `now`, in percent.
///
/// A window that ends no later than it starts is already due: it is at 100
/// whatever `now` is. Otherwise the value is 0 up to the start, 100 from the
/// deadline on, and the rounded-down share of elapsed time in between.
pub open spec fn percent_at(now: int, activated_at: int, deadline: int) -> int {
    if deadline <= activated_at {
        100
    } else if now <= activated_at {
        0
    } else if now >= deadline {
        100
    } else {
        (100 * (now - activated_at)) / (deadline - activated_at)
    }
}

/// Inside a proper window the quotient stays below 100.
proof fn lemma_share_below_full(elapsed: int, span: int)
    requires
        0 < elapsed < span,
    ensures
        0 <= (100 * elapsed) / span < 100,
{
    lemma_div_pos_is_pos(100 * elapsed, span);
    lemma_fundamental_div_mod(100 * elapsed, span);
    let q = (100 * elapsed) / span;
    if q >= 100 {
        assert(span * q >= span * 100) by (nonlinear_arith)
            requires
                q >= 100,
                span > 0,
        ;
    }
}

/// The percentage never leaves `[0, 100]`.
pub proof fn lemma_percent_in_range(now: int, activated_at: int, deadline: int)
    ensures
        0 <= percent_at(now, activated_at, deadline) <= 100,
{
    if activated_at < now && now < deadline {
        lemma_share_below_full(now - activated_at, deadline - activated_at);
    }
}

/// For a fixed window the percentage never decreases as time advances.
pub proof fn lemma_percent_monotonic(earlier: int, later: int, activated_at: int, deadline: int)
    requires
        earlier <= later,
    ensures
        percent_at(earlier, activated_at, deadline) <= percent_at(later, activated_at, deadline),
{
    lemma_percent_in_range(earlier, activated_at, deadline);
    lemma_percent_in_range(later, activated_at, deadline);
    if activated_at < earlier && later < deadline {
        lemma_div_is_ordered(
            100 * (earlier - activated_at),
            100 * (later - activated_at),
            deadline - activated_at,
        );
    }
}

/// Computes [`percent_at`] on epoch-millisecond timestamps.
pub fn percent(now: i64, activated_at: i64, deadline: i64) -> (p: u8)
    ensures
        p == percent_at(now as int, activated_at as int, deadline as int),
        p <= 100,
{
    if deadline <= activated_at {
        100
    } else if now <= activated_at {
        0
    } else if now >= deadline {
        100
    } else {
        let elapsed: u128 = (now as i128 - activated_at as i128) as u128;
        let span: u128 = (deadline as i128 - activated_at as i128) as u128;
        proof {
            lemma_share_below_full(elapsed as int, span as int);
        }
        let share: u128 = (100 * elapsed) / span;
        share as u8
    }
}

/// What a poller remembers between two polls, as a mathematical value.
pub struct PollerState {
    /// When the poller last saw the deadline change.
    pub activation_time: int,
    /// The deadline it saw at its last poll.
    pub last_deadline: int,
}

impl PollerState {
    /// A poller that starts at `now` and has just fetched `deadline`.
    pub open spec fn started(now: int, deadline: int) -> PollerState {
        PollerState { activation_time: now, last_deadline: deadline }
    }

    /// The poller after a poll at `now` that fetched `deadline`: a deadline
    /// other than the last one seen restarts the window at `now`.
    pub open spec fn polled(self, now: int, deadline: int) -> PollerState {
        if deadline != self.last_deadline {
            PollerState { activation_time: now, last_deadline: deadline }
        } else {
            self
        }
    }

    /// The progress the poller shows at `now`.
    pub open spec fn progress(self, now: int) -> int {
        percent_at(now, self.activation_time, self.last_deadline)
    }
}

/// The poll loop's memory. A renderer that cannot be pushed to polls the
/// rotation deadline at its own pace and keeps one of these; an activation
/// that lands between two polls shows up as a changed deadline.
pub struct ProgressPoller {
    activation_time: i64,
    last_deadline: i64,
}

impl View for ProgressPoller {
    type V = PollerState;

    closed spec fn view(&self) -> PollerState {
        PollerState {
            activation_time: self.activation_time as int,
            last_deadline: self.last_deadline as int,
        }
    }
}

impl ProgressPoller {
    /// A poller that starts at `now`, having fetched `deadline`.
    pub fn new(now: i64, deadline: i64) -> (poller: ProgressPoller)
        ensures
            poller@ == PollerState::started(now as int, deadline as int),
    {
        ProgressPoller { activation_time: now, last_deadline: deadline }
    }

    /// One poll at `now`, with the deadline just fetched. Returns the
    /// progress to show.
    pub fn poll(&mut self, now: i64, deadline: i64) -> (shown: u8)
        ensures
            final(self)@ == old(self)@.polled(now as int, deadline as int),
            shown == final(self)@.progress(now as int),
            shown <= 100,
    {
        if deadline != self.last_deadline {
            self.last_deadline = deadline;
            self.activation_time = now;
        }
        percent(now, self.activation_time, self.last_deadline)
    }
}

/// A poll that meets a new deadline never shows what was left of the old
/// window: it shows 0 where the new deadline is still ahead and 100 where
/// it has passed. Whatever it meets, what it shows is within 0 and 100.
pub proof fn lemma_poll_is_never_stale(poller: PollerState, now: int, deadline: int)
    ensures
        0 <= poller.polled(now, deadline).progress(now) <= 100,
        deadline != poller.last_deadline ==> poller.polled(now, deadline).progress(now) == if now
            < deadline {
            0int
        } else {
            100int
        },
        deadline == poller.last_deadline ==> poller.polled(now, deadline) == poller,
{
    let after = poller.polled(now, deadline);
    lemma_percent_in_range(now, after.activation_time, after.last_deadline);
}

/// A poller that noticed an activation late shows no more progress than
/// the window really has: starting the count later never raises it.
pub proof fn lemma_late_start_shows_less(now: int, activated_at: int, noticed_at: int, deadline: int)
    requires
        activated_at <= noticed_at,
    ensures
        noticed_at < deadline ==> percent_at(now, noticed_at, deadline) <= percent_at(
            now,
            activated_at,
            deadline,
        ),
{
    lemma_percent_in_range(now, activated_at, deadline);
    lemma_percent_in_range(now, noticed_at, deadline);
    if noticed_at < now && now < deadline {
        let late = now - noticed_at;
        let late_span = deadline - noticed_at;
        let early = now - activated_at;
        let early_span = deadline - activated_at;
        let q = (100 * late) / late_span;
        let r = (100 * early) / early_span;
        lemma_fundamental_div_mod(100 * late, late_span);
        lemma_fundamental_div_mod(100 * early, early_span);
        lemma_mod_pos_bound(100 * late, late_span);
        lemma_mod_pos_bound(100 * early, early_span);
        if r < q {
            // The late window holds q full hundredths, the early one fewer
            // than r + 1 <= q, yet the early share is the larger one.
            assert(late_span * q * early_span <= 100 * late * early_span) by (nonlinear_arith)
                requires
                    late_span * q <= 100 * late,
                    0 < early_span,
            ;
            assert(100 * early * late_span < early_span * (r + 1) * late_span) by (nonlinear_arith)
                requires
                    100 * early < early_span * r + early_span,
                    0 < late_span,
            ;
            assert(early_span * (r + 1) * late_span <= late_span * q * early_span)
                by (nonlinear_arith)
                requires
                    r + 1 <= q,
                    0 < late_span,
                    0 < early_span,
            ;
            assert(100 * late * early_span <= 100 * early * late_span) by (nonlinear_arith)
                requires
                    0 < late < late_span,
                    early - late == early_span - late_span,
                    early >= late,
            ;
            assert(false);
        }
    }
}

} // verus!
