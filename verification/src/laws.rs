//! What holds of the lifecycle commands taken together.
//!
//! Each statement is made over the predicates by which the slot and the
//! commands state their own results, so it holds of every run of them,
//! whatever the spawn and signal actions come to.

use crate::error::SupervisorError;
use crate::slot::ProcessSlot;
use crate::supervisor::{confirmed, restarted_text, signalled, stopped, Started};
use vstd::prelude::*;

verus! {

/// One change of the slot under the guard: the occupant is taken out, the
/// slot is asked for, or a spawn outcome is recorded.
pub open spec fn step<H>(pre: ProcessSlot<H>, post: ProcessSlot<H>) -> bool {
    ||| ProcessSlot::taken(pre, post)
    ||| exists|res: Result<(), SupervisorError>| #[trigger] ProcessSlot::reserved(pre, post, res)
    ||| exists|outcome: Result<(H, ()), String>, res: Result<(), SupervisorError>| #[trigger]
        ProcessSlot::settled(pre, outcome, post, res)
}

/// The states of one slot through a sequence of commands: it begins well
/// formed, and each next state comes from the one before by one step.
pub open spec fn history<H>(states: Seq<ProcessSlot<H>>) -> bool {
    &&& states.len() > 0
    &&& states[0].wf()
    &&& forall|i: int| #![trigger states[i]] 0 < i < states.len() ==> step(states[i - 1], states[i])
}

/// Through any sequence of starts and stops the slot holds at most one
/// worker at every point, and a handle is stored only in a slot that holds
/// none.
pub proof fn single_occupancy_throughout<H>(states: Seq<ProcessSlot<H>>, at: int)
    requires
        history(states),
        0 <= at < states.len(),
    ensures
        states[at].wf(),
        states[at].held() == (if states[at]@ is Some { 1int } else { 0int }),
        at > 0 && states[at].spawned() != states[at - 1].spawned() ==> states[at - 1]@ is None
            && states[at].spawned() == states[at - 1].spawned() + 1,
    decreases at,
{
    if at > 0 {
        single_occupancy_throughout(states, at - 1);
        assert(step(states[at - 1], states[at]));
    }
}

/// A start that is confirmed found a slot that held no handle and leaves it
/// occupied by the worker of its own spawn.
pub proof fn successful_start_occupies<H, R>(
    pre: ProcessSlot<H>,
    outcome: Result<(H, R), String>,
    post: ProcessSlot<H>,
    placed: Result<R, SupervisorError>,
    res: Result<Started<R>, SupervisorError>,
    text: Seq<char>,
)
    requires
        ProcessSlot::settled(pre, outcome, post, placed),
        confirmed(placed, res, text),
        res is Ok,
    ensures
        pre@ is None,
        outcome matches Ok(pair) && post@ == Some(pair.0),
        post.spawned() == pre.spawned() + 1,
        res matches Ok(started) && started.message@ == text,
{
}

/// A start that follows a successful start with no stop between them is
/// refused the slot with `AlreadyRunning`; the slot is as the first start
/// left it, so no second spawn is recorded. The same holds while the first
/// start is still spawning.
pub proof fn second_start_is_rejected<H>(
    between: ProcessSlot<H>,
    after: ProcessSlot<H>,
    ask: Result<(), SupervisorError>,
)
    requires
        between@ is Some || between.starting(),
        ProcessSlot::reserved(between, after, ask),
    ensures
        ask == Err::<(), SupervisorError>(SupervisorError::AlreadyRunning),
        after == between,
{
}

/// Of two starts that ask for the same free slot one after the other, with
/// nothing between them, exactly the first is granted it.
pub proof fn one_of_two_starts_wins<H>(
    free: ProcessSlot<H>,
    first_post: ProcessSlot<H>,
    first: Result<(), SupervisorError>,
    second_post: ProcessSlot<H>,
    second: Result<(), SupervisorError>,
)
    requires
        free.free(),
        ProcessSlot::reserved(free, first_post, first),
        ProcessSlot::reserved(first_post, second_post, second),
    ensures
        first is Ok,
        second == Err::<(), SupervisorError>(SupervisorError::AlreadyRunning),
        second_post == first_post,
{
}

/// A stop that finds the slot empty fails with `NotRunning`, signals
/// nothing that it took, and the slot stays empty.
pub proof fn stop_on_empty_is_rejected<H, K: FnOnce(H) -> Result<(), String>>(
    pre: ProcessSlot<H>,
    post: ProcessSlot<H>,
    kill: K,
    res: Result<String, SupervisorError>,
)
    requires
        pre@ is None,
        ProcessSlot::taken(pre, post),
        stopped(pre@, kill, res),
    ensures
        res == Err::<String, SupervisorError>(SupervisorError::NotRunning),
        post@ is None,
        post.released() == pre.released(),
{
}

/// After a stop on an occupied slot the status is "not running", whether or
/// not the signal was delivered: a handle once taken is never put back.
pub proof fn stop_empties_the_slot<H, K: FnOnce(H) -> Result<(), String>>(
    pre: ProcessSlot<H>,
    post: ProcessSlot<H>,
    kill: K,
    res: Result<String, SupervisorError>,
)
    requires
        pre@ is Some,
        ProcessSlot::taken(pre, post),
        stopped(pre@, kill, res),
    ensures
        post@ is None,
        post.released() == pre.released() + 1,
        signalled(pre@, kill),
        !(res matches Err(SupervisorError::NotRunning)),
{
}

/// A restart that succeeds leaves the slot occupied by a worker spawned
/// during the restart, also where one was running before: the count of
/// workers spawned has grown by one, and the earlier occupant, if any, was
/// released to the signal.
pub proof fn restart_installs_a_new_worker<H, R, K: FnOnce(H) -> Result<(), String>>(
    pre: ProcessSlot<H>,
    kill: K,
    waiting: ProcessSlot<H>,
    asked: ProcessSlot<H>,
    outcome: Result<(H, R), String>,
    post: ProcessSlot<H>,
    placed: Result<R, SupervisorError>,
    res: Result<Started<R>, SupervisorError>,
)
    requires
        pre.wf(),
        ProcessSlot::taken(pre, waiting),
        signalled(pre@, kill),
        ProcessSlot::reserved(waiting, asked, Ok::<(), SupervisorError>(())),
        ProcessSlot::settled(asked, outcome, post, placed),
        confirmed(placed, res, restarted_text()),
        res is Ok,
    ensures
        post@ is Some,
        post.wf(),
        post.spawned() == pre.spawned() + 1,
        post.released() == pre.released() + (if pre@ is Some { 1nat } else { 0nat }),
        pre@ matches Some(handle) ==> exists|outcome: Result<(), String>| #[trigger]
            call_ensures(kill, (handle,), outcome),
        res matches Ok(started) && started.message@ == restarted_text(),
{
}

} // verus!
