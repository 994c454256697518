use vstd::prelude::*;

verus! {

/// A down-counter that fires once every `target + 1` ticks.
#[derive(Copy, Clone, Debug)]
pub struct Divider {
    pub current: u16,
    pub target: u16,
}

impl Divider {
    pub open spec fn current(self) -> u16 {
        self.current
    }

    pub open spec fn target(self) -> u16 {
        self.target
    }

    /// Whether the next tick reaches the end of a period.
    pub open spec fn fires(self) -> bool {
        self.current == 0
    }

    /// The divider after one tick: reloaded from the target when it was at
    /// zero, one lower otherwise.
    pub open spec fn ticked(self) -> Divider {
        if self.current == 0 {
            Divider { current: self.target, ..self }
        } else {
            Divider { current: (self.current - 1) as u16, ..self }
        }
    }

    pub open spec fn with_period(self, target: u16) -> Divider {
        Divider { target, ..self }
    }

    /// The divider after `n` ticks.
    pub open spec fn ticks(self, n: nat) -> Divider
        decreases n,
    {
        if n == 0 { self } else { self.ticked().ticks((n - 1) as nat) }
    }

    pub open spec fn new_spec(target: u16) -> Divider {
        Divider { current: 0, target }
    }

    pub fn new(target: u16) -> (d: Divider)
        ensures
            d == Divider::new_spec(target),
            d.current() == 0,
            d.target() == target,
    {
        Divider { current: 0, target }
    }

    /// Tick the divider. Returns whether or not the target has been reached,
    /// and a period has elapsed.
    pub fn tick(&mut self) -> (r: bool)
        ensures
            r == old(self).fires(),
            *final(self) == old(self).ticked(),
    {
        if self.current == 0 {
            self.current = self.target;
            true
        } else {
            self.current = self.current - 1;
            false
        }
    }

    pub fn set_period(&mut self, target: u16)
        ensures
            *final(self) == old(self).with_period(target),
    {
        self.target = target
    }

    pub fn get_period(&self) -> (r: u16)
        ensures
            r == self.target(),
    {
        self.target
    }
}

pub broadcast proof fn lemma_divider_ticked_target(d: Divider)
    ensures
        #[trigger] d.ticked().target() == d.target(),
{
}

pub broadcast proof fn lemma_divider_with_period(d: Divider, t: u16)
    ensures
        #[trigger] d.with_period(t).target() == t,
{
}

pub broadcast group group_divider {
    lemma_divider_ticked_target,
    lemma_divider_with_period,
}

/// Period of the divider: from any count `c`, the next `c` ticks do not fire,
/// the one after fires, and it leaves the counter at the target, so that a
/// divider fires exactly once every `target + 1` ticks.
pub proof fn lemma_divider_period(d: Divider, k: nat)
    ensures
        k < d.current() ==> !d.ticks(k).fires(),
        d.ticks(d.current() as nat).fires(),
        d.ticks(d.current() as nat + 1).current() == d.target(),
    decreases d.current(),
{
    if d.current() > 0 {
        let t = d.ticked();
        assert(t.current() == d.current() - 1);
        if k > 0 {
            lemma_divider_period(t, (k - 1) as nat);
        } else {
            lemma_divider_period(t, 0);
        }
        assert(d.ticks(d.current() as nat) == t.ticks((d.current() - 1) as nat));
        assert(d.ticks(d.current() as nat + 1) == t.ticks(t.current() as nat + 1));
    } else {
        assert(d.ticks(1) == d.ticked().ticks(0));
    }
}

/// Ticking never changes the period.
pub proof fn lemma_divider_keeps_target(d: Divider, k: nat)
    ensures
        d.ticks(k).target() == d.target(),
    decreases k,
{
    if k > 0 {
        lemma_divider_keeps_target(d.ticked(), (k - 1) as nat);
    }
}

/// The divider after running `ops` in turn: `None` is a tick, `Some(t)` a
/// `set_period(t)`.
pub open spec fn run_ops(d: Divider, ops: Seq<Option<u16>>) -> Divider
    decreases ops.len(),
{
    if ops.len() == 0 {
        d
    } else {
        let p = run_ops(d, ops.drop_last());
        match ops.last() {
            Some(t) => p.with_period(t),
            None => p.ticked(),
        }
    }
}

/// The period a divider reports after any run of ticks and period changes:
/// the one last set, or the one it had when none was.
pub open spec fn last_period(d: Divider, ops: Seq<Option<u16>>) -> u16
    decreases ops.len(),
{
    if ops.len() == 0 {
        d.target
    } else {
        match ops.last() {
            Some(t) => t,
            None => last_period(d, ops.drop_last()),
        }
    }
}

/// Ticks never change the period: after any run of ticks and `set_period`
/// calls, `get_period` gives the period last set (or the one the divider was
/// made with).
pub proof fn lemma_divider_last_period(d: Divider, ops: Seq<Option<u16>>)
    ensures
        run_ops(d, ops).target() == last_period(d, ops),
    decreases ops.len(),
{
    if ops.len() > 0 {
        lemma_divider_last_period(d, ops.drop_last());
    }
}

} // verus!
