//! The debounce decision: whether a button-down event arriving at a given
//! instant is a spurious repeat of the last accepted click.
//!
//! Instants are counted in microseconds from an arbitrary origin that is
//! fixed for the lifetime of one hook; elapsed time is compared in whole,
//! floored milliseconds.
use vstd::prelude::*;

verus! {

/// The class of an input event as the platform hook reports it.
#[derive(Clone, Copy, Debug, PartialEq, Eq, Structural)]
pub enum EventClass {
    LeftDown,
    RightDown,
    OtherDown,
    /// Any event that does not take part in debouncing.
    Other,
}

impl EventClass {
    /// Only the three button-down classes are evaluated; everything else
    /// passes through untouched.
    pub open spec fn is_button_down(self) -> bool {
        !(self is Other)
    }

    pub fn participates(&self) -> (r: bool)
        ensures
            r == self.is_button_down(),
    {
        !matches!(self, EventClass::Other)
    }
}

/// Whole milliseconds from `prev_us` to `now_us`, floored; an instant that
/// lies before `prev_us` counts as no time at all.
pub open spec fn elapsed_ms(now_us: u64, prev_us: u64) -> nat {
    if now_us >= prev_us {
        ((now_us - prev_us) / 1000) as nat
    } else {
        0
    }
}

/// A click at `now_us` is blocked when an accepted click is on record and
/// strictly less than `threshold_ms` has elapsed since it.
pub open spec fn blocks(threshold_ms: u64, last_click: Option<u64>, now_us: u64) -> bool {
    match last_click {
        Some(prev) => elapsed_ms(now_us, prev) < threshold_ms,
        None => false,
    }
}

/// The blocked-click counter after one more blocked click: it never wraps.
pub open spec fn bumped(n: u64) -> u64 {
    if n < u64::MAX {
        (n + 1) as u64
    } else {
        n
    }
}

/// State shared by the control side and the delivery callback of one hook.
#[derive(Clone, Copy, Debug)]
pub struct HookState {
    pub threshold_ms: u64,
    pub blocked: u64,
    /// The instant of the most recent accepted click, if any.
    pub last_click: Option<u64>,
}

impl HookState {
    /// The state of a freshly created hook.
    pub open spec fn initial(threshold_ms: u64) -> HookState {
        HookState { threshold_ms, blocked: 0, last_click: None }
    }

    /// One evaluated event: the state after it, and the elapsed milliseconds
    /// when the event is blocked.
    pub open spec fn step(self, class: EventClass, now_us: u64) -> (HookState, Option<u64>) {
        if !class.is_button_down() {
            (self, None)
        } else if blocks(self.threshold_ms, self.last_click, now_us) {
            (
                HookState { blocked: bumped(self.blocked), ..self },
                Some(elapsed_ms(now_us, self.last_click.unwrap()) as u64),
            )
        } else {
            (HookState { last_click: Some(now_us), ..self }, None)
        }
    }

    pub fn new(threshold_ms: u64) -> (r: HookState)
        ensures
            r == HookState::initial(threshold_ms),
    {
        HookState { threshold_ms, blocked: 0, last_click: None }
    }

    /// Evaluates one event arriving at `now_us`. Returns the elapsed
    /// milliseconds since the last accepted click when the event is to be
    /// suppressed, and `None` when it is to be delivered.
    pub fn should_block(&mut self, class: EventClass, now_us: u64) -> (r: Option<u64>)
        ensures
            (*final(self), r) == old(self).step(class, now_us),
    {
        if !class.participates() {
            return None;
        }
        match self.last_click {
            Some(prev) => {
                let delta_ms: u64 = if now_us >= prev {
                    (now_us - prev) / 1000
                } else {
                    0
                };
                if delta_ms < self.threshold_ms {
                    self.blocked = self.blocked.saturating_add(1);
                    return Some(delta_ms);
                }
            },
            None => {},
        }
        self.last_click = Some(now_us);
        None
    }
}

/// The state after the first `i` events of `times`, all of class `class`,
/// starting from a fresh hook with threshold `threshold_ms`.
pub open spec fn state_at(threshold_ms: u64, class: EventClass, times: Seq<u64>, i: nat) -> HookState
    decreases i,
{
    if i == 0 {
        HookState::initial(threshold_ms)
    } else {
        state_at(threshold_ms, class, times, (i - 1) as nat).step(class, times[i - 1]).0
    }
}

/// Whether the `i`-th event of `times` is blocked.
pub open spec fn blocked_at(threshold_ms: u64, class: EventClass, times: Seq<u64>, i: nat) -> bool {
    state_at(threshold_ms, class, times, i).step(class, times[i as int]).1 is Some
}

/// Event `j` is the most recent accepted event before event `i`.
pub open spec fn latest_accepted(
    threshold_ms: u64,
    class: EventClass,
    times: Seq<u64>,
    j: nat,
    i: nat,
) -> bool {
    &&& j < i
    &&& !blocked_at(threshold_ms, class, times, j)
    &&& forall|k: nat| j < k < i ==> #[trigger] blocked_at(threshold_ms, class, times, k)
}

proof fn lemma_reference(threshold_ms: u64, class: EventClass, times: Seq<u64>, i: nat)
    requires
        class.is_button_down(),
        i <= times.len(),
    ensures
        state_at(threshold_ms, class, times, i).threshold_ms == threshold_ms,
        match state_at(threshold_ms, class, times, i).last_click {
            None => i == 0,
            Some(v) => exists|j: nat|
                latest_accepted(threshold_ms, class, times, j, i) && v == times[j as int],
        },
    decreases i,
{
    if i > 0 {
        let p = (i - 1) as nat;
        lemma_reference(threshold_ms, class, times, p);
        if blocked_at(threshold_ms, class, times, p) {
            let v = state_at(threshold_ms, class, times, p).last_click.unwrap();
            let j = choose|j: nat| latest_accepted(threshold_ms, class, times, j, p) && v == times[j as int];
            assert(latest_accepted(threshold_ms, class, times, j, i));
        } else {
            assert(latest_accepted(threshold_ms, class, times, p, i));
        }
    }
}

/// In a stream of button-down events of one class under a fixed threshold,
/// an event is blocked exactly when the most recent accepted event before it
/// lies strictly less than the threshold (in floored milliseconds) before it.
pub proof fn blocked_iff_close_to_latest_accepted(
    threshold_ms: u64,
    class: EventClass,
    times: Seq<u64>,
    i: nat,
)
    requires
        class.is_button_down(),
        i < times.len(),
    ensures
        blocked_at(threshold_ms, class, times, i) <==> exists|j: nat|
            latest_accepted(threshold_ms, class, times, j, i)
                && elapsed_ms(times[i as int], times[j as int]) < threshold_ms,
{
    lemma_reference(threshold_ms, class, times, i);
    let s = state_at(threshold_ms, class, times, i);
    match s.last_click {
        None => {},
        Some(v) => {
            let j0 = choose|j: nat| latest_accepted(threshold_ms, class, times, j, i) && v == times[j as int];
            assert forall|j: nat| latest_accepted(threshold_ms, class, times, j, i) implies j == j0 by {
                if j < j0 {
                    assert(blocked_at(threshold_ms, class, times, j0));
                } else if j0 < j {
                    assert(blocked_at(threshold_ms, class, times, j));
                }
            }
        },
    }
}

/// A blocked click does not move the reference instant: with a threshold of
/// 100 ms, clicks at t, t + 50 ms and t + 51 ms give one accepted click and
/// two blocked ones, the last measured from the first click (51 ms), not from
/// the blocked one.
pub proof fn blocked_click_keeps_reference(class: EventClass, t: u64)
    requires
        class.is_button_down(),
        t + 51_000 <= u64::MAX,
    ensures
        ({
            let s0 = HookState::initial(100);
            let (s1, r1) = s0.step(class, t);
            let (s2, r2) = s1.step(class, (t + 50_000) as u64);
            let (s3, r3) = s2.step(class, (t + 51_000) as u64);
            &&& r1 is None
            &&& r2 == Some(50u64)
            &&& r3 == Some(51u64)
            &&& s3.last_click == Some(t)
            &&& s3.blocked == 2
        }),
{
}

/// A click exactly `threshold_ms` after the last accepted click is accepted,
/// and becomes the new reference.
pub proof fn click_at_threshold_is_accepted(s: HookState, class: EventClass, now_us: u64)
    requires
        class.is_button_down(),
        s.last_click is Some,
        elapsed_ms(now_us, s.last_click.unwrap()) == s.threshold_ms,
    ensures
        s.step(class, now_us).1 is None,
        s.step(class, now_us).0.last_click == Some(now_us),
{
}

/// A blocked event leaves the threshold and the reference click as they were
/// and adds one to the counter (which stops at its maximum).
pub proof fn blocked_event_keeps_reference(s: HookState, class: EventClass, now_us: u64)
    ensures
        s.step(class, now_us).1 is Some ==> s.step(class, now_us).0 == (HookState {
            blocked: bumped(s.blocked),
            ..s
        }),
        s.step(class, now_us).1 is Some && s.blocked < u64::MAX ==> s.step(class, now_us).0.blocked
            == s.blocked + 1,
{
}

/// How many of the first `i` events of `times` are blocked.
pub open spec fn blocked_before(threshold_ms: u64, class: EventClass, times: Seq<u64>, i: nat) -> nat
    decreases i,
{
    if i == 0 {
        0
    } else {
        blocked_before(threshold_ms, class, times, (i - 1) as nat) + if blocked_at(
            threshold_ms,
            class,
            times,
            (i - 1) as nat,
        ) {
            1nat
        } else {
            0nat
        }
    }
}

/// The counter of a fresh hook equals the number of events it has blocked,
/// as long as that number stays below the counter's maximum.
pub proof fn counter_counts_blocked_events(
    threshold_ms: u64,
    class: EventClass,
    times: Seq<u64>,
    i: nat,
)
    requires
        i < u64::MAX,
    ensures
        state_at(threshold_ms, class, times, i).blocked == blocked_before(threshold_ms, class, times, i),
        blocked_before(threshold_ms, class, times, i) <= i,
    decreases i,
{
    if i > 0 {
        counter_counts_blocked_events(threshold_ms, class, times, (i - 1) as nat);
    }
}

} // verus!
