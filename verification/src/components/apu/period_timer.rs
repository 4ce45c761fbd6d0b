use vstd::prelude::*;

verus! {

/// A down-counting timer shared by the tone and wave channels. It advances one
/// T-cycle per `tick` and, when the period elapses, reloads with the caller's
/// current period and signals the channel to step. Passing the period on each
/// tick lets a mid-period frequency change take effect at the next reload, as
/// on hardware. The reload is exact: a period of N signals every N ticks, with
/// no off-by-one.
pub struct PeriodTimer {
    counter: u16,
}

impl View for PeriodTimer {
    type V = u16;

    closed spec fn view(&self) -> u16 {
        self.counter
    }
}

/// One T-cycle: the counter after it, and whether the period elapsed.
pub open spec fn period_tick(counter: u16, period: u16) -> (u16, bool) {
    let down = if counter > 0 { (counter - 1) as u16 } else { 0u16 };
    if down == 0 {
        (period, true)
    } else {
        (down, false)
    }
}

/// `k` T-cycles at a fixed period: the counter after them, and how many
/// times the period elapsed.
pub open spec fn period_run(counter: u16, period: u16, k: nat) -> (u16, nat)
    decreases k,
{
    if k == 0 {
        (counter, 0)
    } else {
        let (c1, fired) = period_tick(counter, period);
        let (c2, n) = period_run(c1, period, (k - 1) as nat);
        (c2, n + if fired { 1nat } else { 0 })
    }
}

impl PeriodTimer {
    pub fn new() -> (r: Self)
        ensures
            r@ == 0,
    {
        Self { counter: 0 }
    }

    /// Load the counter directly. Used on trigger, where a channel may fold its
    /// own startup delay into the first period.
    pub fn set(&mut self, ticks: u16)
        ensures
            final(self)@ == ticks,
    {
        self.counter = ticks;
    }

    /// Advance one T-cycle, reloading with `period` and returning true when the
    /// period elapses.
    pub fn tick(&mut self, period: u16) -> (r: bool)
        ensures
            (final(self)@, r) == period_tick(old(self)@, period),
    {
        if self.counter > 0 {
            self.counter -= 1;
        }
        if self.counter == 0 {
            self.counter = period;
            true
        } else {
            false
        }
    }

    /// T-cycles left before the next reload.
    pub fn remaining(&self) -> (r: u16)
        ensures
            r == self@,
    {
        self.counter
    }
}

/// From a counter of `c` (at least 1), the first `c - 1` ticks are silent
/// and count down; the `c`-th signals and reloads the period.
pub proof fn lemma_period_countdown(c: u16, period: u16, k: nat)
    requires
        1 <= k <= c,
    ensures
        period_run(c, period, k) == (if k < c { ((c - k) as u16, 0nat) } else { (period, 1nat) }),
    decreases k,
{
    reveal_with_fuel(period_run, 2);
    if k > 1 {
        lemma_period_countdown((c - 1) as u16, period, (k - 1) as nat);
    }
}

/// The reload is exact: with a period of `n` ticks (at least 1), a timer
/// just reloaded signals exactly once in every `n` ticks and is back at `n`.
pub proof fn lemma_period_exact(n: u16)
    requires
        n >= 1,
    ensures
        period_run(n, n, n as nat) == (n, 1nat),
        forall|k: nat| 1 <= k < n ==> #[trigger] period_run(n, n, k).1 == 0,
{
    lemma_period_countdown(n, n, n as nat);
    assert forall|k: nat| 1 <= k < n implies #[trigger] period_run(n, n, k).1 == 0 by {
        lemma_period_countdown(n, n, k);
    }
}

} // verus!
