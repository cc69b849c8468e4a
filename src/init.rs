//! The decisions of module initialization: which module to initialize next,
//! how often to retry, and when to give up on the connection. The caller
//! runs each attempt (the module's initialize hook, its packets sent under a
//! timeout) and reports how it ended and whether the outgoing channel is
//! closed.

use vstd::prelude::*;

verus! {

/// Attempts per module before it is skipped.
pub const INIT_ATTEMPTS: u8 = 3;

/// How an initialization attempt ended.
#[derive(Debug, Clone, Copy, PartialEq, Eq, Structural)]
pub enum AttemptResult {
    Succeeded,
    Failed,
    TimedOut,
}

/// What the caller is to do next.
#[derive(Debug, Clone, Copy, PartialEq, Eq, Structural)]
pub enum InitAction {
    /// Run an attempt to initialize the module at this position.
    Attempt(usize),
    /// The connection was lost: report it and stop; no module is attempted
    /// any more.
    Abort,
    /// Every module was initialized or skipped: the connection is up.
    Done,
}

/// Where module initialization stands.
#[derive(Debug, Clone, Copy, PartialEq, Eq, Structural)]
pub struct InitSequencer {
    /// The number of modules.
    pub modules: usize,
    /// The module being initialized.
    pub current: usize,
    /// The attempts made on the current module, before the one running.
    pub attempt: u8,
    /// Whether the sequence has ended.
    pub finished: bool,
    /// Whether it ended because the connection was lost.
    pub aborted: bool,
}

/// The next module after the current one is done with, succeeded or skipped.
pub open spec fn advance(s: InitSequencer) -> (InitSequencer, InitAction) {
    if s.current + 1 >= s.modules {
        (InitSequencer { current: s.modules, attempt: 0, finished: true, ..s }, InitAction::Done)
    } else {
        (
            InitSequencer { current: (s.current + 1) as usize, attempt: 0, ..s },
            InitAction::Attempt((s.current + 1) as usize),
        )
    }
}

/// The step from a state and the outcome of the attempt that ran.
pub open spec fn init_step(s: InitSequencer, result: AttemptResult, closed: bool) -> (
    InitSequencer,
    InitAction,
) {
    if s.finished {
        (s, if s.aborted { InitAction::Abort } else { InitAction::Done })
    } else if closed {
        (InitSequencer { finished: true, aborted: true, ..s }, InitAction::Abort)
    } else if result == AttemptResult::Succeeded || s.attempt + 1 >= INIT_ATTEMPTS {
        advance(s)
    } else {
        (
            InitSequencer { attempt: (s.attempt + 1) as u8, ..s },
            InitAction::Attempt(s.current),
        )
    }
}

impl InitSequencer {
    /// The state of a sequence that is under way.
    pub open spec fn inv(&self) -> bool {
        &&& self.attempt < INIT_ATTEMPTS
        &&& !self.finished ==> self.current < self.modules
        &&& self.aborted ==> self.finished
    }

    /// Starts the sequence over `modules` modules, given whether the
    /// outgoing channel is already closed.
    pub fn start(modules: usize, closed: bool) -> (r: (Self, InitAction))
        ensures
            r.0.inv(),
            r.0.modules == modules,
            modules == 0 ==> r.1 == InitAction::Done && r.0.finished && !r.0.aborted,
            modules > 0 && closed ==> r.1 == InitAction::Abort && r.0.aborted,
            modules > 0 && !closed ==> r.1 == InitAction::Attempt(0) && !r.0.finished
                && r.0.current == 0 && r.0.attempt == 0,
    {
        if modules == 0 {
            (InitSequencer { modules, current: 0, attempt: 0, finished: true, aborted: false }, InitAction::Done)
        } else if closed {
            (InitSequencer { modules, current: 0, attempt: 0, finished: true, aborted: true }, InitAction::Abort)
        } else {
            (InitSequencer { modules, current: 0, attempt: 0, finished: false, aborted: false }, InitAction::Attempt(0))
        }
    }

    /// Records how the running attempt ended and whether the outgoing
    /// channel is closed now, and says what to do next: a closed channel
    /// aborts; a module that succeeded, or failed its last attempt, makes
    /// way for the next; a failed one is tried again.
    pub fn record(&mut self, result: AttemptResult, closed: bool) -> (r: InitAction)
        requires
            old(self).inv(),
        ensures
            final(self).inv(),
            (*final(self), r) == init_step(*old(self), result, closed),
    {
        if self.finished {
            return if self.aborted { InitAction::Abort } else { InitAction::Done };
        }
        if closed {
            self.finished = true;
            self.aborted = true;
            return InitAction::Abort;
        }
        if result == AttemptResult::Succeeded || self.attempt + 1 >= INIT_ATTEMPTS {
            if self.current + 1 >= self.modules {
                self.current = self.modules;
                self.attempt = 0;
                self.finished = true;
                InitAction::Done
            } else {
                self.current = self.current + 1;
                self.attempt = 0;
                InitAction::Attempt(self.current)
            }
        } else {
            self.attempt = self.attempt + 1;
            InitAction::Attempt(self.current)
        }
    }
}

/// A channel found closed when an attempt ends aborts the sequence, and no
/// module is attempted after that, whatever is reported next.
pub proof fn lemma_closed_channel_aborts(
    s: InitSequencer,
    result: AttemptResult,
    later: Seq<(AttemptResult, bool)>,
)
    requires
        s.inv(),
        !s.finished,
    ensures
        init_step(s, result, true).1 == InitAction::Abort,
        forall|i: int|
            0 <= i < later.len() ==> #[trigger] run_steps(init_step(s, result, true).0, later.take(i + 1)).1
                == InitAction::Abort,
{
    let a = init_step(s, result, true).0;
    assert forall|i: int| 0 <= i < later.len() implies #[trigger] run_steps(a, later.take(i + 1)).1
        == InitAction::Abort by {
        lemma_aborted_stays(a, later.take(i + 1));
    }
}

/// The state and the last action after a run of reported outcomes.
pub open spec fn run_steps(s: InitSequencer, events: Seq<(AttemptResult, bool)>) -> (
    InitSequencer,
    InitAction,
)
    decreases events.len(),
{
    if events.len() == 0 {
        (s, if s.aborted { InitAction::Abort } else if s.finished { InitAction::Done } else { InitAction::Attempt(s.current) })
    } else {
        let (t, _) = run_steps(s, events.drop_last());
        init_step(t, events.last().0, events.last().1)
    }
}

proof fn lemma_aborted_stays(s: InitSequencer, events: Seq<(AttemptResult, bool)>)
    requires
        s.aborted,
        s.finished,
    ensures
        run_steps(s, events).0 == s,
        run_steps(s, events).1 == InitAction::Abort,
    decreases events.len(),
{
    if events.len() > 0 {
        lemma_aborted_stays(s, events.drop_last());
    }
}

} // verus!
