//! A self-rescheduling callback driven by the host's frame ticks.
//!
//! The scheduler owns one callback slot. It never talks to the host itself:
//! every operation says which host calls it needs (a handle to cancel, a tick
//! to request) and the caller reports the host's answer back. All decisions
//! are taken here.

use vstd::prelude::*;

verus! {

/// Identifies one outstanding tick request with the host.
pub type Handle = i32;

/// A unit of work that is run once per tick.
///
/// The returned flag is `true` to ask for another tick and `false` to end the
/// loop. Nothing is assumed about an implementation: the scheduler reacts to
/// whatever flag comes back.
pub trait Step: Sized {
    /// What one run may do: turn the step `before` into the step `after` and
    /// hand back `go_on`. An implementation that makes no claim about itself
    /// keeps this default, which allows every run.
    open spec fn runs(before: Self, go_on: bool, after: Self) -> bool {
        true
    }

    /// Runs the step once.
    fn call(&mut self) -> (go_on: bool)
        ensures
            Self::runs(*old(self), go_on, *final(self)),
    ;
}

/// The installed step `before` ran exactly once, handed back `go_on`, and
/// `kept` is what stays installed: the step as the run left it if it asked for
/// another tick, nothing if it did not.
pub open spec fn ran_once<S: Step>(before: S, go_on: bool, kept: Option<S>) -> bool {
    exists|after: S| #[trigger]
        S::runs(before, go_on, after) && kept == (if go_on {
            Some(after)
        } else {
            None
        })
}

/// Why the loop could not be scheduled.
#[derive(Clone, Copy, Debug, PartialEq, Eq, Structural)]
pub enum SchedulingError {
    /// The host could not be reached, or refused, when the loop was started.
    SchedulingUnavailable,
    /// The host refused a further tick while the loop was running.
    RescheduleFailed,
}

/// What one tick did.
#[derive(Clone, Copy, Debug, PartialEq, Eq, Structural)]
pub enum Tick {
    /// No step was installed: nothing ran and nothing is requested.
    Stale,
    /// The step ran and ended the loop.
    Finished,
    /// The step ran and asks for another tick.
    Continue,
}

/// The observable state of a scheduler: its handle slot and whether a step is
/// installed.
pub struct State {
    pub handle: Option<Handle>,
    pub running: bool,
}

impl State {
    /// No handle, no step.
    pub open spec fn idle() -> State {
        State { handle: None, running: false }
    }

    /// A handle is only ever held for an installed step.
    pub open spec fn wf(self) -> bool {
        self.handle is Some ==> self.running
    }

    /// The state after a step was installed, before the host answered.
    pub open spec fn started(self) -> State {
        State { handle: None, running: true }
    }

    /// The state after the host answered a request: a refusal ends the loop,
    /// a granted handle is kept if there is a step to run.
    pub open spec fn answered(self, answer: Option<Handle>) -> State {
        match answer {
            None => State::idle(),
            Some(handle) => if self.running {
                State { handle: Some(handle), running: true }
            } else {
                self
            },
        }
    }

    /// The state after a tick with the given outcome.
    pub open spec fn ticked(self, outcome: Tick) -> State {
        match outcome {
            Tick::Stale => self,
            Tick::Finished => State::idle(),
            Tick::Continue => State { handle: None, running: true },
        }
    }
}

/// An installed step, with the handle of its outstanding tick request if the
/// host has granted one.
struct Loop<S> {
    handle: Option<Handle>,
    step: S,
}

/// Drives a step on every frame tick until the step ends the loop.
///
/// A handle is held only together with the step it was requested for, so a
/// scheduler without a step never has an outstanding request of its own.
pub struct Scheduler<S> {
    active: Option<Loop<S>>,
}

impl<S> View for Scheduler<S> {
    type V = State;

    closed spec fn view(&self) -> State {
        match self.active {
            Some(active) => State { handle: active.handle, running: true },
            None => State::idle(),
        }
    }
}

impl<S> Scheduler<S> {
    /// The installed step, if any.
    pub closed spec fn installed(&self) -> Option<S> {
        match self.active {
            Some(active) => Some(active.step),
            None => None,
        }
    }

    /// A handle is only ever held for an installed step, and a step is
    /// installed exactly when the state says so.
    pub proof fn lemma_well_formed(&self)
        ensures
            self@.wf(),
            self.installed() is Some <==> self@.running,
    {
    }
}

impl<S: Step> Scheduler<S> {
    /// A scheduler with no active loop.
    pub fn new() -> (scheduler: Self)
        ensures
            scheduler@ == State::idle(),
            scheduler.installed() is None,
    {
        Scheduler { active: None }
    }

    /// Installs `step`, replacing any loop that is in flight.
    ///
    /// Returns the handle that the host must be told to cancel, if one was
    /// outstanding. The caller then requests one tick from the host and
    /// reports the answer with [`Scheduler::complete_start`].
    pub fn start(&mut self, step: S) -> (cancel: Option<Handle>)
        ensures
            cancel == old(self)@.handle,
            final(self)@ == old(self)@.started(),
            final(self).installed() == Some(step),
    {
        let cancel = self.current_handle();
        self.active = Some(Loop { handle: None, step });
        cancel
    }

    /// Takes the host's answer to the tick that [`Scheduler::start`] asked
    /// for: the granted handle, or `None` if the host was unavailable or
    /// refused.
    ///
    /// A granted handle is stored while a step is installed. A refusal leaves
    /// the scheduler with no handle and no step, and is reported to the
    /// caller, who decides whether to start again.
    pub fn complete_start(&mut self, answer: Option<Handle>) -> (result: Result<
        (),
        SchedulingError,
    >)
        ensures
            final(self)@ == old(self)@.answered(answer),
            answer is Some ==> final(self).installed() == old(self).installed(),
            answer is None ==> final(self).installed() is None,
            answer is Some <==> result is Ok,
            answer is None <==> result == Err::<(), SchedulingError>(
                SchedulingError::SchedulingUnavailable,
            ),
    {
        if self.settle(answer) {
            Ok(())
        } else {
            Err(SchedulingError::SchedulingUnavailable)
        }
    }

    /// Takes the host's answer to the tick that a [`Tick::Continue`] asked
    /// for.
    ///
    /// A refusal ends the loop exactly as if the step had returned `false`;
    /// the error is handed back for diagnostics only.
    pub fn complete_reschedule(&mut self, answer: Option<Handle>) -> (result: Result<
        (),
        SchedulingError,
    >)
        ensures
            final(self)@ == old(self)@.answered(answer),
            answer is Some ==> final(self).installed() == old(self).installed(),
            answer is None ==> final(self).installed() is None,
            answer is Some <==> result is Ok,
            answer is None <==> result == Err::<(), SchedulingError>(
                SchedulingError::RescheduleFailed,
            ),
    {
        if self.settle(answer) {
            Ok(())
        } else {
            Err(SchedulingError::RescheduleFailed)
        }
    }

    /// Applies the host's answer to the state and says whether a tick was
    /// granted.
    fn settle(&mut self, answer: Option<Handle>) -> (granted: bool)
        ensures
            final(self)@ == old(self)@.answered(answer),
            answer is Some ==> final(self).installed() == old(self).installed(),
            answer is None ==> final(self).installed() is None,
            granted == answer is Some,
    {
        match answer {
            Some(handle) => {
                match self.active.take() {
                    Some(active) => {
                        self.active = Some(Loop { handle: Some(handle), step: active.step });
                    },
                    None => {},
                }
                true
            },
            None => {
                self.active = None;
                false
            },
        }
    }

    /// Runs one tick fired by the host.
    ///
    /// With no step installed the tick is stale: nothing runs and the state
    /// is left as it is. Otherwise the step runs once and the fired handle is
    /// spent. If the step asks to go on it stays installed, and the caller
    /// requests one tick and reports the answer with
    /// [`Scheduler::complete_reschedule`]; if not, the loop is over.
    pub fn tick(&mut self) -> (outcome: Tick)
        ensures
            outcome is Stale <==> !old(self)@.running,
            final(self)@ == old(self)@.ticked(outcome),
            match old(self).installed() {
                None => final(self).installed() is None,
                Some(before) => ran_once(before, outcome is Continue, final(self).installed()),
            },
    {
        match self.active.take() {
            None => Tick::Stale,
            Some(active) => {
                let ghost before = active.step;
                let mut step = active.step;
                let go_on = step.call();
                assert(S::runs(before, go_on, step));
                if go_on {
                    self.active = Some(Loop { handle: None, step });
                    Tick::Continue
                } else {
                    Tick::Finished
                }
            },
        }
    }

    /// Ends the loop.
    ///
    /// Returns the handle that the host must be told to cancel, if one was
    /// outstanding, and drops the step. Stopping a stopped scheduler changes
    /// nothing and returns `None`.
    pub fn stop(&mut self) -> (cancel: Option<Handle>)
        ensures
            cancel == old(self)@.handle,
            final(self)@ == State::idle(),
            final(self).installed() is None,
    {
        let cancel = self.current_handle();
        self.active = None;
        cancel
    }

    /// Gives the scheduler up, as its owner does when it is destroyed.
    ///
    /// Returns the handle that the host must be told to cancel before the
    /// scheduler's storage goes away; the step is dropped with the scheduler
    /// and can never run again.
    pub fn release(self) -> (cancel: Option<Handle>)
        ensures
            cancel == self@.handle,
    {
        self.current_handle()
    }

    /// The handle of the outstanding tick request, if any.
    pub fn current_handle(&self) -> (handle: Option<Handle>)
        ensures
            handle == self@.handle,
    {
        match &self.active {
            Some(active) => active.handle,
            None => None,
        }
    }

    /// Whether a step is installed.
    pub fn is_running(&self) -> (running: bool)
        ensures
            running == self@.running,
    {
        self.active.is_some()
    }
}

} // verus!
