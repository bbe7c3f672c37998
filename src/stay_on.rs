use vstd::prelude::*;
use crate::args::ChangeStateArgs;
use crate::state_change::{StateChange, state_change_of};

verus! {

/// The transition time, in deciseconds, that sets the cadence when none is given.
pub const DEFAULT_TRANSITION_TIME: u16 = 100;

/// Nanoseconds in a second.
pub const NANOS_PER_SEC: u64 = 1_000_000_000;

/// Seconds between two reassertions: the transition time in whole seconds, or
/// the default cadence.
pub open spec fn spec_loop_interval(transition_time: Option<u16>) -> u64 {
    match transition_time {
        Some(t) => (t / 10) as u64,
        None => (DEFAULT_TRANSITION_TIME / 10) as u64,
    }
}

/// A time span of whole seconds and the nanoseconds beyond them, in nanoseconds.
pub open spec fn span_nanos(secs: u64, nanos: u32) -> int {
    secs * NANOS_PER_SEC + nanos
}

/// Whether the loop applies the state once more after `elapsed` nanoseconds
/// of a window of `stay_on_for` seconds: until the window is exceeded.
pub open spec fn keeps_applying(elapsed: int, stay_on_for: u64) -> bool {
    elapsed <= stay_on_for * NANOS_PER_SEC
}

/// Seconds between two reassertions for the given transition time.
pub fn loop_interval(transition_time: Option<u16>) -> (r: u64)
    ensures
        r == spec_loop_interval(transition_time),
{
    (match transition_time {
        Some(t) => t,
        None => DEFAULT_TRANSITION_TIME,
    } / 10) as u64
}

/// What the reassertion loop does next.
#[derive(Clone, Copy, Debug, PartialEq, Eq, Structural)]
pub enum StayOnAction {
    /// Send the state, then sleep for the interval.
    Apply,
    /// The window is over.
    Stop,
}

/// The fixed parameters of one reassertion loop.
#[derive(Clone, Copy, Debug)]
pub struct StayOnPlan {
    /// The state sent at each round; it always turns the light on.
    pub change: StateChange,
    /// Seconds slept after each round.
    pub interval_secs: u64,
    /// The length of the window in seconds.
    pub stay_on_for: u64,
}

impl StayOnPlan {
    /// The loop for `stay-on`: the supplied fields plus `on`, resent every
    /// transition time (or the default cadence) for `stay_on_for` seconds.
    pub fn new(args: ChangeStateArgs, stay_on_for: u64) -> (r: StayOnPlan)
        ensures
            r.change == (StateChange { on: Some(true), ..state_change_of(args) }),
            r.interval_secs == spec_loop_interval(args.transition_time),
            r.stay_on_for == stay_on_for,
    {
        let interval_secs = loop_interval(args.transition_time);
        let change = StateChange::from(args).on(true);
        StayOnPlan { change, interval_secs, stay_on_for }
    }

    /// The next step, given the time elapsed since the loop started as whole
    /// seconds and the nanoseconds beyond them: apply while the window is not
    /// exceeded, then stop.
    pub fn next_action(&self, elapsed_secs: u64, elapsed_nanos: u32) -> (r: StayOnAction)
        requires
            elapsed_nanos < NANOS_PER_SEC,
        ensures
            r == (if keeps_applying(span_nanos(elapsed_secs, elapsed_nanos), self.stay_on_for) {
                StayOnAction::Apply
            } else {
                StayOnAction::Stop
            }),
    {
        let exceeded = elapsed_secs > self.stay_on_for || (elapsed_secs == self.stay_on_for
            && elapsed_nanos > 0);
        proof {
            let e = span_nanos(elapsed_secs, elapsed_nanos);
            let w = self.stay_on_for * NANOS_PER_SEC;
            if elapsed_secs > self.stay_on_for {
                assert(elapsed_secs * NANOS_PER_SEC >= (self.stay_on_for + 1) * NANOS_PER_SEC)
                    by (nonlinear_arith)
                    requires
                        elapsed_secs >= self.stay_on_for + 1,
                ;
            } else if elapsed_secs < self.stay_on_for {
                assert(elapsed_secs * NANOS_PER_SEC + NANOS_PER_SEC <= self.stay_on_for
                    * NANOS_PER_SEC) by (nonlinear_arith)
                    requires
                        elapsed_secs + 1 <= self.stay_on_for,
                ;
            }
        }
        if exceeded {
            StayOnAction::Stop
        } else {
            StayOnAction::Apply
        }
    }
}

/// The number of rounds of a window of `stay_on_for` seconds at an interval
/// of `interval` seconds, when each round takes no time and each sleep exactly
/// the interval.
pub open spec fn ideal_rounds(stay_on_for: nat, interval: nat) -> nat {
    stay_on_for / interval + 1
}

/// With rounds that take no time and sleeps of exactly the interval, the
/// checks at `0, i, 2i, ...` seconds apply the state `ideal_rounds` times and
/// then stop; that count is the window divided by the interval, rounded up,
/// or one more; and the loop ends after more than the window and at most one
/// interval beyond it.
pub proof fn lemma_stay_on_rounds(stay_on_for: u64, interval: u64)
    requires
        interval > 0,
    ensures
        forall|k: nat|
            k < ideal_rounds(stay_on_for as nat, interval as nat) ==> #[trigger] keeps_applying(
                (k * interval) * NANOS_PER_SEC,
                stay_on_for,
            ),
        !keeps_applying(
            (ideal_rounds(stay_on_for as nat, interval as nat) * interval) * NANOS_PER_SEC,
            stay_on_for,
        ),
        (stay_on_for + interval - 1) / (interval as int) <= ideal_rounds(
            stay_on_for as nat,
            interval as nat,
        ) <= (stay_on_for + interval - 1) / (interval as int) + 1,
        stay_on_for < ideal_rounds(stay_on_for as nat, interval as nat) * interval
            <= stay_on_for + interval,
{
    let d = stay_on_for as int;
    let i = interval as int;
    let q = d / i;
    let n = ideal_rounds(stay_on_for as nat, interval as nat);
    assert(n == q + 1);
    assert(q * i <= d && d < q * i + i) by (nonlinear_arith)
        requires
            i > 0,
            q == d / i,
            d >= 0,
    ;
    assert forall|k: nat| k < n implies #[trigger] keeps_applying(
        (k * interval) * NANOS_PER_SEC,
        stay_on_for,
    ) by {
        assert(k * i <= q * i) by (nonlinear_arith)
            requires
                k <= q,
                i > 0,
        ;
        assert((k * i) * NANOS_PER_SEC <= d * NANOS_PER_SEC) by (nonlinear_arith)
            requires
                k * i <= d,
        ;
    }
    assert(n * i == q * i + i) by (nonlinear_arith)
        requires
            n == q + 1,
    ;
    assert((n * i) * NANOS_PER_SEC > d * NANOS_PER_SEC) by (nonlinear_arith)
        requires
            n * i > d,
    ;
    let c = (d + i - 1) / i;
    assert(q <= c && c <= q + 1) by (nonlinear_arith)
        requires
            i > 0,
            d >= 0,
            q == d / i,
            c == (d + i - 1) / i,
            q * i <= d,
            d < q * i + i,
    ;
}

} // verus!
