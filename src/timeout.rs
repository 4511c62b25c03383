use vstd::prelude::*;

verus! {

/// Per-phase tick counter; reset to zero on entry to a phase.
#[derive(Debug, Clone, Copy, PartialEq, Eq, Structural)]
pub struct Timeout {
    pub current: u32,
}

/// What one tick of a phase timer means for the phase.
#[derive(Debug, Clone, Copy, PartialEq, Eq, Structural)]
pub enum Lifecycle {
    /// First tick of the phase: run its entry action.
    Started(Timeout),
    /// A dwell tick inside the budget.
    Updated(Timeout),
    /// The budget is spent: the phase must be left.
    Ended,
}

impl Timeout {
    /// A timer at the start of a phase.
    pub fn new() -> (r: Timeout)
        ensures
            r.current == 0,
    {
        Timeout { current: 0 }
    }
}

/// The lifecycle event of one tick of `timeout` against the budget `max`.
pub open spec fn lifecycle_of(timeout: Timeout, max: u32) -> Lifecycle {
    if timeout.current == 0 {
        Lifecycle::Started(Timeout { current: 1 })
    } else if timeout.current >= max {
        Lifecycle::Ended
    } else {
        Lifecycle::Updated(Timeout { current: (timeout.current + 1) as u32 })
    }
}

/// Advances `timeout` by one tick against the budget `max`.
pub fn next_timeout_lifecycle(timeout: Timeout, max: u32) -> (r: Lifecycle)
    ensures
        r == lifecycle_of(timeout, max),
{
    if timeout.current == 0 {
        Lifecycle::Started(Timeout { current: 1 })
    } else if timeout.current >= max {
        Lifecycle::Ended
    } else {
        Lifecycle::Updated(Timeout { current: timeout.current + 1 })
    }
}

/// The events of `n` successive ticks from `timeout`, each tick fed the timer
/// that the previous one produced; the sequence stops at the first `Ended`.
pub open spec fn lifecycles_from(timeout: Timeout, max: u32, n: nat) -> Seq<Lifecycle>
    decreases n,
{
    if n == 0 {
        Seq::empty()
    } else {
        match lifecycle_of(timeout, max) {
            Lifecycle::Started(t) => seq![lifecycle_of(timeout, max)] + lifecycles_from(t, max, (n - 1) as nat),
            Lifecycle::Updated(t) => seq![lifecycle_of(timeout, max)] + lifecycles_from(t, max, (n - 1) as nat),
            Lifecycle::Ended => seq![Lifecycle::Ended],
        }
    }
}

proof fn lemma_lifecycles_after_start(k: u32, max: u32)
    requires
        1 <= k <= max,
    ensures
        ({
            let s = lifecycles_from(Timeout { current: k }, max, (max - k + 1) as nat);
            &&& s.len() == max - k + 1
            &&& forall|j: int| 0 <= j < max - k
                ==> #[trigger] s[j] == Lifecycle::Updated(Timeout { current: (k + j + 1) as u32 })
            &&& s[max - k] == Lifecycle::Ended
        }),
    decreases max - k,
{
    let s = lifecycles_from(Timeout { current: k }, max, (max - k + 1) as nat);
    if k < max {
        let k1 = (k + 1) as u32;
        lemma_lifecycles_after_start(k1, max);
        let rest = lifecycles_from(Timeout { current: k1 }, max, (max - k1 + 1) as nat);
        assert(s == seq![Lifecycle::Updated(Timeout { current: k1 })] + rest);
        assert forall|j: int| 0 <= j < max - k
            implies #[trigger] s[j] == Lifecycle::Updated(Timeout { current: (k + j + 1) as u32 }) by {
            if j > 0 {
                assert(s[j] == rest[j - 1]);
            }
        }
    }
}

/// From a fresh timer with budget `max ≥ 1`, repeated ticks give exactly one
/// `Started`, then `max − 1` `Updated`, then `Ended` on tick `max + 1`: the
/// phase is active for exactly `max` ticks.
pub proof fn lemma_timer_lifecycle(max: u32)
    requires
        max >= 1,
    ensures
        ({
            let s = lifecycles_from(Timeout { current: 0 }, max, (max + 1) as nat);
            &&& s.len() == max + 1
            &&& s[0] == Lifecycle::Started(Timeout { current: 1 })
            &&& forall|j: int| 1 <= j < max
                ==> #[trigger] s[j] == Lifecycle::Updated(Timeout { current: (j + 1) as u32 })
            &&& s[max as int] == Lifecycle::Ended
        }),
{
    let s = lifecycles_from(Timeout { current: 0 }, max, (max + 1) as nat);
    lemma_lifecycles_after_start(1, max);
    let rest = lifecycles_from(Timeout { current: 1 }, max, max as nat);
    assert(s == seq![Lifecycle::Started(Timeout { current: 1 })] + rest);
    assert forall|j: int| 1 <= j < max
        implies #[trigger] s[j] == Lifecycle::Updated(Timeout { current: (j + 1) as u32 }) by {
        assert(s[j] == rest[j - 1]);
    }
    assert(s[max as int] == rest[max - 1]);
}

} // verus!
