//! The scheduler together with its host, as a model, and the laws that hold
//! of every run of the two.
//!
//! The scheduler never calls the host: its owner does, as the scheduler's
//! operations say. This module writes the owner's part down once, over the
//! states that the operations' contracts speak of, so that what the whole
//! arrangement guarantees can be stated and proved.

use vstd::prelude::*;

use crate::scheduler::{Handle, State, Tick};

verus! {

/// The host's side, as far as one scheduler is concerned.
pub struct Host {
    /// The tick requests that were granted and have neither fired nor been
    /// taken back.
    pub outstanding: Set<Handle>,
    /// Every handle that the host was told to cancel, in the order of the
    /// calls.
    pub cancelled: Seq<Handle>,
    /// How many ticks were requested.
    pub requested: nat,
}

/// A scheduler, its host, and how often the step has run.
pub struct World {
    pub scheduler: State,
    pub host: Host,
    pub runs: nat,
}

/// What can happen to a scheduler and its host.
pub enum Event {
    /// The owner starts a loop; `answer` is what the host says to the
    /// request.
    Start { answer: Option<Handle> },
    /// The owner stops the loop, or gives the scheduler up.
    Stop,
    /// The host fires the tick `handle`. If a step runs it hands back
    /// `go_on`, and `answer` is what the host says if another tick is
    /// requested.
    Fire { handle: Handle, go_on: bool, answer: Option<Handle> },
}

/// The set that holds the handle, if there is one.
pub open spec fn slot(handle: Option<Handle>) -> Set<Handle> {
    match handle {
        Some(handle) => set![handle],
        None => Set::empty(),
    }
}

/// What a tick does to a scheduler in `state` whose step, if it runs, hands
/// back `go_on`.
pub open spec fn outcome(state: State, go_on: bool) -> Tick {
    if !state.running {
        Tick::Stale
    } else if go_on {
        Tick::Continue
    } else {
        Tick::Finished
    }
}

impl World {
    /// A new scheduler and a host that has not been asked for anything.
    pub open spec fn init() -> World {
        World {
            scheduler: State::idle(),
            host: Host { outstanding: Set::empty(), cancelled: Seq::empty(), requested: 0 },
            runs: 0,
        }
    }

    /// The owner passes on a cancellation. A host that `revokes` takes the
    /// request back; one that does not will still fire it.
    pub open spec fn cancel(self, handle: Option<Handle>, revokes: bool) -> World {
        match handle {
            None => self,
            Some(handle) => World {
                host: Host {
                    outstanding: if revokes {
                        self.host.outstanding.remove(handle)
                    } else {
                        self.host.outstanding
                    },
                    cancelled: self.host.cancelled.push(handle),
                    ..self.host
                },
                ..self
            },
        }
    }

    /// The owner requests a tick and reports the host's answer.
    pub open spec fn request(self, answer: Option<Handle>) -> World {
        World {
            scheduler: self.scheduler.answered(answer),
            host: Host {
                outstanding: self.host.outstanding + slot(answer),
                requested: self.host.requested + 1,
                ..self.host
            },
            ..self
        }
    }

    /// A start: cancel what the scheduler says, then request one tick.
    pub open spec fn start(self, answer: Option<Handle>, revokes: bool) -> World {
        let cancelled = self.cancel(self.scheduler.handle, revokes);
        (World { scheduler: self.scheduler.started(), ..cancelled }).request(answer)
    }

    /// A stop: cancel what the scheduler says.
    pub open spec fn stop(self, revokes: bool) -> World {
        let cancelled = self.cancel(self.scheduler.handle, revokes);
        World { scheduler: State::idle(), ..cancelled }
    }

    /// The host fires a tick that it holds; it fires no other.
    pub open spec fn fire(self, handle: Handle, go_on: bool, answer: Option<Handle>) -> World {
        if !self.host.outstanding.contains(handle) {
            self
        } else {
            let tick = outcome(self.scheduler, go_on);
            let fired = World {
                scheduler: self.scheduler.ticked(tick),
                host: Host { outstanding: self.host.outstanding.remove(handle), ..self.host },
                runs: if tick is Stale {
                    self.runs
                } else {
                    self.runs + 1
                },
            };
            if tick is Continue {
                fired.request(answer)
            } else {
                fired
            }
        }
    }

    /// One event.
    pub open spec fn step(self, event: Event, revokes: bool) -> World {
        match event {
            Event::Start { answer } => self.start(answer, revokes),
            Event::Stop => self.stop(revokes),
            Event::Fire { handle, go_on, answer } => self.fire(handle, go_on, answer),
        }
    }

    /// The events one after the other.
    pub open spec fn run(self, events: Seq<Event>, revokes: bool) -> World
        decreases events.len(),
    {
        if events.len() == 0 {
            self
        } else {
            self.run(events.drop_last(), revokes).step(events.last(), revokes)
        }
    }

    /// The host holds exactly the request that the scheduler knows of.
    pub open spec fn in_step(self) -> bool {
        &&& self.scheduler.wf()
        &&& self.host.outstanding =~= slot(self.scheduler.handle)
    }
}

/// One event keeps scheduler and host in step, if the host takes cancelled
/// requests back.
pub proof fn lemma_step_keeps_in_step(world: World, event: Event)
    requires
        world.in_step(),
    ensures
        world.step(event, true).in_step(),
{
}

/// No double schedule: whatever is done to a new scheduler whose host takes
/// cancelled requests back, the host never holds more than one request of
/// it, and that one is the request whose handle the scheduler keeps.
pub proof fn law_at_most_one_outstanding(events: Seq<Event>)
    ensures
        World::init().run(events, true).in_step(),
        World::init().run(events, true).host.outstanding.len() <= 1,
    decreases events.len(),
{
    if events.len() > 0 {
        law_at_most_one_outstanding(events.drop_last());
        lemma_step_keeps_in_step(World::init().run(events.drop_last(), true), events.last());
    }
    let end = World::init().run(events, true);
    assert(end.host.outstanding.len() <= 1) by {
        match end.scheduler.handle {
            Some(handle) => {
                assert(end.host.outstanding =~= Set::empty().insert(handle));
            },
            None => {},
        }
    }
}

/// Stopping is idempotent: a stop leaves no handle and no step and cancels
/// at most one request; a second stop in a row, or a stop before any start,
/// changes nothing and cancels nothing.
pub proof fn law_stop_is_idempotent(world: World, revokes: bool)
    ensures
        world.stop(revokes).scheduler == State::idle(),
        world.stop(revokes).host.cancelled.len() <= world.host.cancelled.len() + 1,
        world.stop(revokes).stop(revokes) == world.stop(revokes),
        World::init().stop(revokes) == World::init(),
{
}

/// Only ticks follow: no event starts a loop.
pub open spec fn only_fires(events: Seq<Event>) -> bool {
    forall|i: int| 0 <= i < events.len() ==> (#[trigger] events[i]) is Fire
}

/// Once stopped, a scheduler that is not started again never runs a step
/// and asks the host for nothing, whichever ticks still fire.
pub proof fn lemma_stopped_stays_quiet(world: World, events: Seq<Event>, revokes: bool)
    requires
        world.scheduler == State::idle(),
        only_fires(events),
    ensures
        world.run(events, revokes).scheduler == State::idle(),
        world.run(events, revokes).runs == world.runs,
        world.run(events, revokes).host.requested == world.host.requested,
        world.run(events, revokes).host.cancelled == world.host.cancelled,
    decreases events.len(),
{
    if events.len() > 0 {
        lemma_stopped_stays_quiet(world, events.drop_last(), revokes);
        assert(events.last() is Fire);
    }
}

/// Cancel on drop: giving up a scheduler that holds a live handle tells the
/// host to cancel exactly that handle, exactly once, and the step never runs
/// afterwards, whether or not the host can take the request back.
pub proof fn law_release_cancels_once(
    world: World,
    handle: Handle,
    later: Seq<Event>,
    revokes: bool,
)
    requires
        world.scheduler.handle == Some(handle),
        only_fires(later),
    ensures
        world.stop(revokes).host.cancelled == world.host.cancelled.push(handle),
        world.stop(revokes).run(later, revokes).host.cancelled == world.host.cancelled.push(
            handle,
        ),
        world.stop(revokes).run(later, revokes).runs == world.runs,
{
    lemma_stopped_stays_quiet(world.stop(revokes), later, revokes);
}

/// A stale tick is a no-op: if the loop is stopped after a tick was
/// requested and the host fires that tick all the same, no step runs, no
/// further tick is requested, and the scheduler stays stopped.
pub proof fn law_stale_tick_is_noop(
    world: World,
    handle: Handle,
    go_on: bool,
    answer: Option<Handle>,
)
    requires
        world.scheduler.handle == Some(handle),
    ensures
        outcome(world.stop(false).scheduler, go_on) is Stale,
        world.stop(false).fire(handle, go_on, answer).scheduler == State::idle(),
        world.stop(false).fire(handle, go_on, answer).runs == world.runs,
        world.stop(false).fire(handle, go_on, answer).host.requested == world.host.requested,
{
}

/// A start followed by `count` ticks on which the step asks to go on. The
/// host grants every request: `handles[0]` to the start, `handles[i + 1]` to
/// the request after tick `i`.
pub open spec fn continuing(handles: Seq<Handle>, count: nat) -> Seq<Event>
    decreases count,
{
    if count == 0 {
        seq![Event::Start { answer: Some(handles[0]) }]
    } else {
        continuing(handles, (count - 1) as nat).push(
            Event::Fire {
                handle: handles[count - 1],
                go_on: true,
                answer: Some(handles[count as int]),
            },
        )
    }
}

/// After a start and `count` continuing ticks the step has run `count`
/// times, and the scheduler waits for the tick that was granted last.
pub proof fn lemma_continuing(handles: Seq<Handle>, count: nat, revokes: bool)
    requires
        count < handles.len(),
    ensures
        ({
            let world = World::init().run(continuing(handles, count), revokes);
            &&& world.runs == count
            &&& world.scheduler == State { handle: Some(handles[count as int]), running: true }
            &&& world.host.outstanding =~= set![handles[count as int]]
            &&& world.host.requested == count + 1
            &&& world.host.cancelled =~= Seq::empty()
        }),
    decreases count,
{
    let events = continuing(handles, count);
    if count == 0 {
        assert(events.drop_last() =~= Seq::empty());
        assert(World::init().run(events.drop_last(), revokes) == World::init());
    } else {
        lemma_continuing(handles, (count - 1) as nat, revokes);
        assert(events.drop_last() =~= continuing(handles, (count - 1) as nat));
    }
}

/// The continuation contract: a step that asks to go on exactly `count`
/// times and then ends the loop runs exactly `count + 1` times over
/// `count + 1` ticks, after which the scheduler has no step and no handle and
/// the host holds no request.
pub proof fn law_step_runs_once_more_than_it_continues(
    handles: Seq<Handle>,
    count: nat,
    answer: Option<Handle>,
    revokes: bool,
)
    requires
        handles.len() == count + 1,
    ensures
        ({
            let last = Event::Fire { handle: handles[count as int], go_on: false, answer };
            let world = World::init().run(continuing(handles, count).push(last), revokes);
            &&& world.runs == count + 1
            &&& world.scheduler == State::idle()
            &&& world.host.outstanding =~= Set::empty()
            &&& world.host.requested == count + 1
            &&& world.host.cancelled =~= Seq::empty()
        }),
{
    lemma_continuing(handles, count, revokes);
    let last = Event::Fire { handle: handles[count as int], go_on: false, answer };
    let events = continuing(handles, count).push(last);
    assert(events.drop_last() =~= continuing(handles, count));
}

/// A start asks the host for exactly one tick and cancels at most one. If
/// the host refuses, nothing is left behind: no handle and no step.
pub proof fn law_start_requests_one_tick(world: World, answer: Option<Handle>, revokes: bool)
    ensures
        world.start(answer, revokes).host.requested == world.host.requested + 1,
        world.start(answer, revokes).host.cancelled.len() <= world.host.cancelled.len() + 1,
        world.start(answer, revokes).runs == world.runs,
        world.start(answer, revokes).scheduler == (State {
            handle: answer,
            running: answer is Some,
        }),
        answer is None ==> world.start(answer, revokes).scheduler == State::idle(),
{
}

/// A restart replaces the loop: starting while a handle is live cancels
/// exactly that handle, requests exactly one tick, and leaves the scheduler
/// with the handle granted to the new loop, or stopped if the host refuses.
pub proof fn law_restart_replaces_loop(
    world: World,
    handle: Handle,
    answer: Option<Handle>,
    revokes: bool,
)
    requires
        world.scheduler.handle == Some(handle),
    ensures
        world.start(answer, revokes).host.cancelled == world.host.cancelled.push(handle),
        world.start(answer, revokes).host.requested == world.host.requested + 1,
        world.start(answer, revokes).scheduler == (State {
            handle: answer,
            running: answer is Some,
        }),
        world.start(answer, revokes).runs == world.runs,
        revokes && world.in_step() ==> world.start(answer, revokes).host.outstanding =~= slot(
            answer,
        ),
{
}

} // verus!
