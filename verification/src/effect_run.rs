//! Running the effects of a reserved change one after the other.
//!
//! A change of a conference or of a transfer is prepared as a list of effects
//! under a reservation. Another event may void the reservation at any time, so
//! it is asked for before and after every effect; the first refusal, and the
//! first effect that fails, end the run.

use vstd::prelude::*;

verus! {

/// Where a run stands.
#[derive(Clone, Copy, Debug, PartialEq, Eq, Structural)]
pub enum RunState {
    /// The reservation is asked for; effect `done` comes next.
    Before { done: usize },
    /// Effect `done` is being performed.
    Performing { done: usize },
    /// Effect `done - 1` succeeded and the reservation is asked for again.
    After { done: usize },
    /// All effects succeeded under a reservation that never lapsed.
    Complete,
    /// The reservation lapsed when `done` effects had succeeded.
    Stale { done: usize },
    /// Effect `done` failed.
    Failed { done: usize },
}

/// What the last request of a run came back with.
#[derive(Clone, Copy, Debug, PartialEq, Eq, Structural)]
pub enum RunEvent {
    /// Whether the reservation still holds.
    Active(bool),
    /// Whether the effect succeeded.
    Performed(bool),
}

/// What a run asks for next.
#[derive(Clone, Copy, Debug, PartialEq, Eq, Structural)]
pub enum RunRequest {
    CheckActive,
    /// Perform the effect with this index.
    Perform(usize),
    /// Nothing: the run has ended.
    Stop,
}

impl RunState {
    /// How many effects have succeeded out of `total`.
    pub open spec fn succeeded(self, total: nat) -> nat {
        match self {
            RunState::Before { done } => done as nat,
            RunState::Performing { done } => done as nat,
            RunState::After { done } => done as nat,
            RunState::Complete => total,
            RunState::Stale { done } => done as nat,
            RunState::Failed { done } => done as nat,
        }
    }

    pub open spec fn ended(self) -> bool {
        self is Complete || self is Stale || self is Failed
    }

    /// The state belongs to a run of `total` effects.
    pub open spec fn wf(self, total: nat) -> bool {
        match self {
            RunState::Before { done } => done < total,
            RunState::Performing { done } => done < total,
            RunState::After { done } => 0 < done <= total,
            RunState::Complete => true,
            RunState::Stale { done } => done <= total,
            RunState::Failed { done } => done < total,
        }
    }

    /// The request that a state stands for.
    pub open spec fn request_spec(self) -> RunRequest {
        match self {
            RunState::Before { .. } | RunState::After { .. } => RunRequest::CheckActive,
            RunState::Performing { done } => RunRequest::Perform(done),
            _ => RunRequest::Stop,
        }
    }

    pub fn request(self) -> (request: RunRequest)
        ensures
            request == self.request_spec(),
    {
        match self {
            RunState::Before { .. } | RunState::After { .. } => RunRequest::CheckActive,
            RunState::Performing { done } => RunRequest::Perform(done),
            _ => RunRequest::Stop,
        }
    }
}

/// Where a run of `total` effects starts: without effects it is complete.
pub open spec fn start_spec(total: usize) -> RunState {
    if total == 0 {
        RunState::Complete
    } else {
        RunState::Before { done: 0 }
    }
}

/// The state after an event. An event that was not asked for changes nothing.
pub open spec fn next_spec(total: usize, state: RunState, event: RunEvent) -> RunState {
    match (state, event) {
        (RunState::Before { done }, RunEvent::Active(true)) => RunState::Performing { done },
        (RunState::Before { done }, RunEvent::Active(false)) => RunState::Stale { done },
        (RunState::Performing { done }, RunEvent::Performed(true)) => RunState::After {
            done: (done + 1) as usize,
        },
        (RunState::Performing { done }, RunEvent::Performed(false)) => RunState::Failed { done },
        (RunState::After { done }, RunEvent::Active(false)) => RunState::Stale { done },
        (RunState::After { done }, RunEvent::Active(true)) => if done < total {
            RunState::Before { done }
        } else {
            RunState::Complete
        },
        _ => state,
    }
}

pub fn start_run(total: usize) -> (state: RunState)
    ensures
        state == start_spec(total),
        state.wf(total as nat),
        state.succeeded(total as nat) == 0,
{
    if total == 0 {
        RunState::Complete
    } else {
        RunState::Before { done: 0 }
    }
}

pub fn next_state(total: usize, state: RunState, event: RunEvent) -> (next: RunState)
    requires
        state.wf(total as nat),
    ensures
        next == next_spec(total, state, event),
        next.wf(total as nat),
{
    match (state, event) {
        (RunState::Before { done }, RunEvent::Active(true)) => RunState::Performing { done },
        (RunState::Before { done }, RunEvent::Active(false)) => RunState::Stale { done },
        (RunState::Performing { done }, RunEvent::Performed(true)) => RunState::After {
            done: done + 1,
        },
        (RunState::Performing { done }, RunEvent::Performed(false)) => RunState::Failed { done },
        (RunState::After { done }, RunEvent::Active(false)) => RunState::Stale { done },
        (RunState::After { done }, RunEvent::Active(true)) => if done < total {
            RunState::Before { done }
        } else {
            RunState::Complete
        },
        _ => state,
    }
}

/// The state after a sequence of events.
pub open spec fn replay(total: usize, state: RunState, events: Seq<RunEvent>) -> RunState
    decreases events.len(),
{
    if events.len() == 0 {
        state
    } else {
        replay(total, next_spec(total, state, events[0]), events.drop_first())
    }
}

/// The effects that a sequence of events reports as performed, by index and in
/// order.
pub open spec fn performed(total: usize, state: RunState, events: Seq<RunEvent>) -> Seq<usize>
    decreases events.len(),
{
    if events.len() == 0 {
        Seq::empty()
    } else {
        let here = match (state, events[0]) {
            (RunState::Performing { done }, RunEvent::Performed(_)) => seq![done],
            _ => Seq::empty(),
        };
        here + performed(total, next_spec(total, state, events[0]), events.drop_first())
    }
}

/// A run that has ended stays ended: no event revives it.
pub proof fn law_ended_runs_stay_ended(total: usize, state: RunState, event: RunEvent)
    requires
        state.ended(),
    ensures
        next_spec(total, state, event) == state,
{
}

/// Effects are performed in their order, each once, and none is left out:
/// whatever the answers, the indices performed from a fresh run are
/// `0, 1, 2, ...` up to how far the run came.
pub proof fn law_effects_run_once_and_in_order(total: usize, state: RunState, events: Seq<RunEvent>)
    requires
        state.wf(total as nat),
    ensures
        ({
            let indices = performed(total, state, events);
            let end = replay(total, state, events);
            &&& end.wf(total as nat)
            &&& forall|i: int|
                0 <= i < indices.len() ==> #[trigger] indices[i] == state.succeeded(total as nat) + i
            &&& state.succeeded(total as nat) + indices.len() == end.succeeded(total as nat) + (if end
                is Failed && !(state is Failed) {
                1int
            } else {
                0int
            })
        }),
    decreases events.len(),
{
    if events.len() > 0 {
        let next = next_spec(total, state, events[0]);
        law_effects_run_once_and_in_order(total, next, events.drop_first());
        let here: Seq<usize> = match (state, events[0]) {
            (RunState::Performing { done }, RunEvent::Performed(_)) => seq![done],
            _ => Seq::empty(),
        };
        let rest = performed(total, next, events.drop_first());
        assert(performed(total, state, events) == here + rest);
        if next is Failed {
            lemma_ended(total, next, events.drop_first());
        }
        assert forall|i: int| 0 <= i < (here + rest).len() implies #[trigger] (here + rest)[i]
            == state.succeeded(total as nat) + i by {
            if i >= here.len() {
                assert((here + rest)[i] == rest[i - here.len()]);
            }
        }
    }
}

proof fn lemma_ended(total: usize, state: RunState, events: Seq<RunEvent>)
    requires
        state.ended(),
    ensures
        replay(total, state, events) == state,
        performed(total, state, events).len() == 0,
    decreases events.len(),
{
    if events.len() > 0 {
        lemma_ended(total, state, events.drop_first());
    }
}

/// Effects are performed one at a time, in their order, and only while the work is
/// still wanted: each is preceded and followed by that question, a failure ends the
/// run with what was done before it, and the run is complete only after the last.
pub proof fn law_effects_run_one_at_a_time(
    total: usize,
    state: RunState,
    event: RunEvent,
    first: RunState,
    request: RunRequest,
    next: RunState,
)
    requires
        state.wf(total as nat),
        call_ensures(start_run, (total,), first),
        call_ensures(RunState::request, (state,), request),
        call_ensures(next_state, (total, state, event), next),
    ensures
        first is Complete <==> total == 0,
        total > 0 ==> first == (RunState::Before { done: 0 }),
        request is Stop <==> state is Complete || state is Stale || state is Failed,
        request matches RunRequest::Perform(index) ==> state == (RunState::Performing {
            done: index,
        }),
        request is CheckActive <==> state is Before || state is After,
        next is Performing && state != next ==> (state matches RunState::Before { done } && event
            == RunEvent::Active(true) && next == (RunState::Performing { done })),
        state matches RunState::Performing { done } ==> (event matches RunEvent::Performed(ok)
            ==> (ok ==> next is After && next->After_done == done + 1) && (!ok ==> next == (
        RunState::Failed { done }))),
        next is Complete && !(state is Complete) ==> (state matches RunState::After { done } && done
            == total && event == RunEvent::Active(true)),
        state matches RunState::After { done } ==> (event == RunEvent::Active(true) && done < total
            ==> next == (RunState::Before { done })),
        (state is Before || state is After) && event == RunEvent::Active(false) ==> next is Stale,
        state matches RunState::Before { done } ==> (event == RunEvent::Active(false) ==> next == (
        RunState::Stale { done })),
        state matches RunState::After { done } ==> (event == RunEvent::Active(false) ==> next == (
        RunState::Stale { done })),
        state is Complete || state is Stale || state is Failed ==> next == state,
{
}

} // verus!
