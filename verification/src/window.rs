//! Bounded parallelism: how many hooks of one round are in flight at once.

use vstd::prelude::*;

verus! {

/// The flight window of one round over `total` hooks, numbered from 0 in the
/// order in which they start. At most `limit` of them are in flight at any
/// time; a limit of 0 stands for no limit.
#[derive(Clone, Copy, Debug, PartialEq, Eq, Structural)]
pub struct Window {
    pub limit: usize,
    pub total: usize,
    /// How many hooks were started.
    pub started: usize,
    /// How many hooks that were started have returned.
    pub finished: usize,
}

impl Window {
    /// How many hooks are in flight.
    pub open spec fn in_flight(&self) -> int {
        self.started - self.finished
    }

    /// The window's invariant: no hook returns before it starts, none starts
    /// twice, and the hooks in flight stay within the limit.
    pub open spec fn wf(&self) -> bool {
        &&& self.finished <= self.started <= self.total
        &&& self.limit > 0 ==> self.in_flight() <= self.limit
    }

    /// Whether one more hook may start now.
    pub open spec fn may_start(&self) -> bool {
        self.started < self.total && (self.limit == 0 || self.in_flight() < self.limit)
    }

    /// The window of a round over `total` hooks, before any has started.
    pub fn new(total: usize, limit: usize) -> (window: Window)
        ensures
            window.wf(),
            window == (Window { limit, total, started: 0, finished: 0 }),
    {
        Window { limit, total, started: 0, finished: 0 }
    }

    /// Starts the next hook, if one is left and the limit allows it, and
    /// tells which one it is.
    pub fn start(&mut self) -> (hook: Option<usize>)
        ensures
            old(self).wf() ==> final(self).wf(),
            hook is Some == old(self).may_start(),
            hook is Some ==> hook->Some_0 == old(self).started && *final(self) == (Window {
                started: (old(self).started + 1) as usize,
                ..*old(self)
            }),
            hook is None ==> *final(self) == *old(self),
    {
        if self.started < self.total && (self.limit == 0 || self.finished > self.started
            || self.started - self.finished < self.limit) {
            let hook = self.started;
            self.started = self.started + 1;
            Some(hook)
        } else {
            None
        }
    }

    /// Records that a hook in flight has returned. Where none is in flight
    /// nothing changes, and the answer is `false`.
    pub fn finish(&mut self) -> (landed: bool)
        ensures
            old(self).wf() ==> final(self).wf(),
            landed == (old(self).in_flight() > 0),
            landed ==> *final(self) == (Window {
                finished: (old(self).finished + 1) as usize,
                ..*old(self)
            }),
            !landed ==> *final(self) == *old(self),
    {
        if self.finished < self.started {
            self.finished = self.finished + 1;
            true
        } else {
            false
        }
    }

    /// Whether every hook of the round has started and returned.
    pub fn is_done(&self) -> (done: bool)
        ensures
            done == (self.finished == self.total),
    {
        self.finished == self.total
    }
}

/// A round never stalls: while a hook is left to return, either one is in
/// flight or the next may start.
pub proof fn law_window_progress(window: Window)
    requires
        window.wf(),
        window.finished < window.total,
    ensures
        window.in_flight() > 0 || window.may_start(),
{
}

} // verus!
