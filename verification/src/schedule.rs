//! When to detect, and when to stop.

use crate::digits::{decimal, decimal_u64};
use crate::text::joined;
use vstd::prelude::*;
use vstd::string::*;

verus! {

/// What ends a wait.
#[derive(Clone, Copy, Debug, PartialEq, Eq)]
pub enum Wakeup {
    /// The interval is over.
    Tick,
    /// The user asks for the end.
    Interrupt,
}

/// What to do after a wait.
#[derive(Clone, Copy, Debug, PartialEq, Eq)]
pub enum Next {
    Detect,
    Stop,
}

/// The loop of detections: how many were started, and after how many it ends.
#[derive(Clone, Copy, Debug, PartialEq, Eq)]
pub struct Schedule {
    pub limit: Option<u64>,
    pub iterations: u64,
}

impl Schedule {
    /// The start of the loop.
    pub fn new(limit: Option<u64>) -> (r: Schedule)
        ensures
            r.limit == limit,
            r.iterations == 0,
    {
        Schedule { limit, iterations: 0 }
    }

    /// The schedule after a wait: a tick counts as one more detection, an interrupt as none.
    pub open spec fn after(self, wakeup: Wakeup) -> Schedule {
        match wakeup {
            Wakeup::Tick => Schedule {
                limit: self.limit,
                iterations: (self.iterations + 1) as u64,
            },
            Wakeup::Interrupt => self,
        }
    }

    /// What follows a wait. A tick starts a detection, which is counted.
    pub fn woken(&mut self, wakeup: Wakeup) -> (r: Next)
        requires
            wakeup is Tick ==> old(self).iterations < u64::MAX,
        ensures
            *final(self) == old(self).after(wakeup),
            r is Detect <==> wakeup is Tick,
            final(self).limit == old(self).limit,
            wakeup is Tick ==> final(self).iterations == old(self).iterations + 1,
            wakeup is Interrupt ==> final(self).iterations == old(self).iterations,
    {
        match wakeup {
            Wakeup::Tick => {
                self.iterations = self.iterations + 1;
                Next::Detect
            },
            Wakeup::Interrupt => Next::Stop,
        }
    }

    /// Whether the limit is reached.
    pub open spec fn exhausted(self) -> bool {
        self.limit matches Some(max) && self.iterations >= max
    }

    /// What follows a detection, whatever came of it: the limit, where it is reached and the
    /// loop ends.
    pub fn detected(&self) -> (r: Option<u64>)
        ensures
            r is Some <==> self.exhausted(),
            r is Some ==> r == self.limit,
            self.limit is None ==> r is None,
            self.limit matches Some(max) ==> (r is Some <==> self.iterations >= max),
    {
        match self.limit {
            Some(max) => if self.iterations >= max {
                Some(max)
            } else {
                None
            },
            None => None,
        }
    }
}

/// What is said when the limit ends the loop.
pub fn limit_message(max: u64) -> (r: String)
    ensures
        r@ == "Reached MAX_ITERS ("@ + decimal(max as nat) + "). Exiting."@,
{
    let number = decimal_u64(max);
    joined("Reached MAX_ITERS (", number.as_str()).concat("). Exiting.")
}

impl Schedule {
    /// The schedule at the end of the loop, or once it has gone through `wakeups`: an interrupt
    /// ends the loop, and so does a detection that reaches the limit.
    pub open spec fn run(self, wakeups: Seq<Wakeup>) -> Schedule
        decreases wakeups.len(),
    {
        if wakeups.len() == 0 || wakeups[0] is Interrupt {
            self
        } else if self.after(wakeups[0]).exhausted() {
            self.after(wakeups[0])
        } else {
            self.after(wakeups[0]).run(wakeups.drop_first())
        }
    }
}

/// A loop with a limit never starts more detections than the limit allows, and starts exactly
/// that many where it is woken by as many ticks.
pub proof fn law_limit_is_kept(start: Schedule, max: u64, wakeups: Seq<Wakeup>)
    requires
        start.limit == Some(max),
        start.iterations < max,
    ensures
        start.run(wakeups).iterations <= max,
        wakeups.len() >= max - start.iterations && (forall|i: int|
            0 <= i < max - start.iterations ==> wakeups[i] is Tick) ==> start.run(
            wakeups,
        ).iterations == max,
    decreases wakeups.len(),
{
    if wakeups.len() > 0 && start.iterations + 1 < max {
        let next = start.after(Wakeup::Tick);
        law_limit_is_kept(next, max, wakeups.drop_first());
        if wakeups.len() >= max - start.iterations && (forall|i: int|
            0 <= i < max - start.iterations ==> wakeups[i] is Tick) {
            assert forall|i: int| 0 <= i < max - next.iterations implies wakeups.drop_first()[i]
                is Tick by {
                assert(wakeups[i + 1] is Tick);
            }
        }
    }
}

/// Without a limit every tick before the first interrupt starts a detection.
pub proof fn law_no_limit_runs_on(start: Schedule, ticks: Seq<Wakeup>, rest: Seq<Wakeup>)
    requires
        start.limit is None,
        start.iterations + ticks.len() <= u64::MAX,
        forall|i: int| 0 <= i < ticks.len() ==> ticks[i] is Tick,
        rest.len() > 0 ==> rest[0] is Interrupt,
    ensures
        start.run(ticks + rest).iterations == start.iterations + ticks.len(),
    decreases ticks.len(),
{
    if ticks.len() == 0 {
        assert(ticks + rest =~= rest);
    } else {
        assert((ticks + rest).drop_first() =~= ticks.drop_first() + rest);
        law_no_limit_runs_on(start.after(ticks[0]), ticks.drop_first(), rest);
    }
}

/// A tick counts one detection, whatever the limit; an interrupt counts none. Neither touches the
/// limit.
pub proof fn law_a_tick_counts_one(s: Schedule)
    requires
        s.iterations < u64::MAX,
    ensures
        s.after(Wakeup::Tick).iterations == s.iterations + 1,
        s.after(Wakeup::Tick).limit == s.limit,
        s.after(Wakeup::Interrupt).iterations == s.iterations,
        s.after(Wakeup::Interrupt).limit == s.limit,
{
}

/// The loop that starts with a limit and is woken by ticks alone counts its detections one by one
/// and is at its end after exactly as many as the limit says: not before, and not after.
pub proof fn law_loop_ends_at_its_limit(max: u64, states: Seq<Schedule>)
    requires
        states.len() > 0,
        states.len() <= u64::MAX,
        states[0].limit == Some(max),
        states[0].iterations == 0,
        forall|i: int|
            0 < i < states.len() ==> #[trigger] states[i] == states[i - 1].after(Wakeup::Tick),
    ensures
        forall|i: int|
            0 <= i < states.len() ==> (#[trigger] states[i]).iterations == i && states[i].limit
                == Some(max) && (states[i].exhausted() <==> i >= max),
    decreases states.len(),
{
    if states.len() > 1 {
        let before = states.drop_last();
        assert forall|i: int| 0 < i < before.len() implies #[trigger] before[i] == before[i
            - 1].after(Wakeup::Tick) by {
            assert(states[i] == states[i - 1].after(Wakeup::Tick));
        }
        law_loop_ends_at_its_limit(max, before);
        let last = states.len() - 1;
        assert(before[last - 1].iterations == last - 1);
        assert(states[last] == states[last - 1].after(Wakeup::Tick));
        assert forall|i: int| 0 <= i < states.len() implies (#[trigger] states[i]).iterations == i
            && states[i].limit == Some(max) && (states[i].exhausted() <==> i >= max) by {
            if i < last {
                assert(before[i].iterations == i);
            }
        }
    }
}

/// A loop without a limit is never at its end by itself.
pub proof fn law_no_limit_is_never_reached(s: Schedule)
    requires
        s.limit is None,
    ensures
        !s.exhausted(),
        s.after(Wakeup::Tick).limit is None,
{
}

/// An interrupt ends the loop where it stands, whatever would come after it.
pub proof fn law_an_interrupt_ends_the_loop(s: Schedule, rest: Seq<Wakeup>)
    ensures
        s.run(seq![Wakeup::Interrupt] + rest) == s,
{
    assert((seq![Wakeup::Interrupt] + rest)[0] is Interrupt);
}

} // verus!
