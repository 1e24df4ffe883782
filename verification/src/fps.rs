//! Counts the ticks of the host within a sliding window of time.

use std::collections::VecDeque;
use vstd::prelude::*;
use crate::clock::{Moment, Span};

verus! {

/// The ticks of the last window of time.
pub struct TickCounter {
    timestamps: VecDeque<Moment>,
    window: Span,
}

/// The number of moments at the front of `ticks`, from place `from`
/// on, that lie before `cutoff`.
pub open spec fn stale_from(ticks: Seq<Moment>, cutoff: int, from: int) -> int
    decreases ticks.len() - from,
{
    if from < 0 || from >= ticks.len() || ticks[from].nanos >= cutoff {
        0
    } else {
        1 + stale_from(ticks, cutoff, from + 1)
    }
}

/// The ticks without those at the front that lie before `cutoff`.
pub open spec fn pruned(ticks: Seq<Moment>, cutoff: int) -> Seq<Moment> {
    ticks.skip(stale_from(ticks, cutoff, 0))
}

/// The number of ticks that do not lie before `cutoff`.
pub open spec fn fresh_count(ticks: Seq<Moment>, cutoff: int) -> nat
    decreases ticks.len(),
{
    if ticks.len() == 0 {
        0
    } else {
        fresh_count(ticks.drop_last(), cutoff) + if ticks.last().nanos >= cutoff {
            1nat
        } else {
            0nat
        }
    }
}

impl TickCounter {
    /// The ticks that are kept, oldest first.
    pub closed spec fn ticks(&self) -> Seq<Moment> {
        self.timestamps@
    }

    /// The length of the window.
    pub closed spec fn window(&self) -> Span {
        self.window
    }

    /// A counter over a window of the given length.
    pub fn new(window: Span) -> (counter: TickCounter)
        ensures
            counter.ticks().len() == 0,
            counter.window() == window,
    {
        TickCounter { timestamps: VecDeque::new(), window }
    }

    /// Takes note of a tick at `now` and forgets the ticks that lie
    /// more than a window before it.
    pub fn tick(&mut self, now: Moment)
        requires
            now.nanos - old(self).window().nanos >= i64::MIN,
        ensures
            final(self).window() == old(self).window(),
            final(self).ticks() == pruned(
                old(self).ticks().push(now),
                now.nanos - old(self).window().nanos,
            ),
    {
        self.timestamps.push_back(now);
        self.prune(now);
    }

    /// Forgets the ticks at the front that lie more than a window
    /// before `now`.
    pub fn prune(&mut self, now: Moment)
        requires
            now.nanos - old(self).window().nanos >= i64::MIN,
        ensures
            final(self).window() == old(self).window(),
            final(self).ticks() == pruned(old(self).ticks(), now.nanos - old(self).window().nanos),
    {
        let cutoff: Moment = now.earlier(self.window);
        let ghost all = self.timestamps@;
        let ghost mut gone: int = 0;
        loop
            invariant
                self.window == old(self).window,
                all == old(self).timestamps@,
                0 <= gone <= all.len(),
                self.timestamps@ == all.skip(gone),
                stale_from(all, cutoff.nanos as int, 0) == gone + stale_from(
                    all,
                    cutoff.nanos as int,
                    gone,
                ),
            ensures
                self.timestamps@ == pruned(all, cutoff.nanos as int),
                self.window == old(self).window,
            decreases all.len() - gone,
        {
            let stale: bool = self.timestamps.len() > 0 && self.timestamps[0].nanos
                < cutoff.nanos;
            if !stale {
                break ;
            }
            self.timestamps.pop_front();
            proof {
                assert(self.timestamps@ =~= all.skip(gone + 1));
                gone = gone + 1;
            }
        }
    }

    /// The number of ticks that are kept.
    pub fn len(&self) -> (n: usize)
        ensures
            n == self.ticks().len(),
    {
        self.timestamps.len()
    }

    /// The number of ticks within a window before the last tick, the
    /// last tick included; none where fewer than two ticks are kept.
    /// Over the length of the window it is the rate of ticks.
    pub fn ticks_in_window(&self) -> (n: usize)
        ensures
            n == if self.ticks().len() < 2 {
                0
            } else {
                fresh_count(self.ticks(), self.ticks().last().nanos - self.window().nanos)
            },
    {
        let len: usize = self.timestamps.len();
        if len < 2 {
            return 0;
        }
        let last: Moment = self.timestamps[len - 1];
        let start: i128 = last.nanos as i128 - self.window.nanos as i128;
        let mut n: usize = 0;
        let mut i: usize = 0;
        while i < len
            invariant
                len == self.timestamps@.len(),
                i <= len,
                n <= i,
                n == fresh_count(self.timestamps@.take(i as int), start as int),
            decreases len - i,
        {
            proof {
                assert(self.timestamps@.take(i as int + 1).drop_last() =~= self.timestamps@.take(
                    i as int,
                ));
            }
            if self.timestamps[i].nanos as i128 >= start {
                n += 1;
            }
            i += 1;
        }
        proof {
            assert(self.timestamps@.take(len as int) =~= self.timestamps@);
        }
        n
    }
}

impl Default for TickCounter {
    /// A counter over a window of one second.
    fn default() -> (counter: TickCounter)
        ensures
            counter.ticks().len() == 0,
            counter.window().nanos == 1_000_000_000,
    {
        TickCounter::new(Span::from_secs(1))
    }
}

} // verus!
