//! The shared state: one slot behind a mutual-exclusion guard, and the
//! lifecycle commands as any number of triggers may issue them at once.
//!
//! The guard is held only while the slot itself is read or changed: to ask
//! for it, to take the occupant out, to record a spawn, to read the status.
//! Resolving, spawning, signalling and waiting run with the guard released,
//! so a closure may call back into the same state. What the slot holds when a
//! command gets the guard depends on the commands that ran before it, so a
//! command's contract speaks of some slot state before and after.

use crate::error::SupervisorError;
use crate::slot::ProcessSlot;
use crate::supervisor::{
    auto_start_outcome, auto_started, begin_restart, confirm, confirmed, quit, restarted_text,
    signalled, started_text, status, stop, stopped, AutoStarted, Started, EXIT_CODE,
    GRACE_DELAY_MS,
};
use std::sync::Mutex;
use std::sync::MutexGuard;
use vstd::prelude::*;

verus! {

#[verifier::external_type_specification]
#[verifier::external_body]
#[verifier::reject_recursive_types(T)]
pub struct ExMutex<T: ?Sized>(Mutex<T>);

#[verifier::external_type_specification]
#[verifier::external_body]
#[verifier::reject_recursive_types(T)]
pub struct ExMutexGuard<'a, T: ?Sized + 'a>(MutexGuard<'a, T>);

/// The backend process state shared by all triggers.
#[verifier::reject_recursive_types(H)]
pub struct GoProcess<H> {
    child: Mutex<ProcessSlot<H>>,
}

/// Calls `Mutex::new` on the slot. Nothing is claimed of the mutex.
#[verifier::external_body]
fn guard_slot<H>(slot: ProcessSlot<H>) -> (mutex: Mutex<ProcessSlot<H>>) {
    Mutex::new(slot)
}

/// Calls `Mutex::lock`, which waits for the guard. A poisoned mutex comes
/// back as `None`. Nothing is claimed of which of the two happens. The
/// library calls it only where it holds no guard of the same mutex: every
/// guard is dropped before the function that took it runs a closure or
/// returns.
#[verifier::external_body]
fn lock_slot<'a, H>(mutex: &'a Mutex<ProcessSlot<H>>) -> (guard: Option<
    MutexGuard<'a, ProcessSlot<H>>,
>) {
    mutex.lock().ok()
}

/// Calls `DerefMut::deref_mut` on the guard: the slot that the guard
/// protects. Nothing is claimed of what the slot holds.
#[verifier::external_body]
fn guarded<'a, 'b, H>(guard: &'a mut MutexGuard<'b, ProcessSlot<H>>) -> (slot: &'a mut ProcessSlot<
    H,
>) {
    &mut **guard
}

/// Whether `kill` may be called on every handle.
pub open spec fn always_killable<H, K: FnOnce(H) -> Result<(), String>>(kill: K) -> bool {
    forall|handle: H| #[trigger] call_requires(kill, (handle,))
}

/// What the two actions of a start must allow: the resolver can be called,
/// and the spawn can be called on whatever command the resolver yields.
pub open spec fn resolvable<
    H,
    R,
    C,
    Q: FnOnce() -> Result<C, String>,
    S: FnOnce(C) -> Result<(H, R), String>,
>(resolve: Q, spawn: S) -> bool {
    &&& call_requires(resolve, ())
    &&& forall|command: C| #[trigger]
        call_ensures(resolve, (), Ok::<C, String>(command)) ==> call_requires(spawn, (command,))
}

/// What asking for the slot under the guard answers: `LockCorrupted` on a
/// poisoned guard, and otherwise what [`ProcessSlot::reserved`] says of some
/// well-formed slot.
pub open spec fn asked<H>(res: Result<(), SupervisorError>) -> bool {
    res == Err::<(), SupervisorError>(SupervisorError::LockCorrupted) || exists|
        pre: ProcessSlot<H>,
        post: ProcessSlot<H>,
    |
        pre.wf() && post.wf() && #[trigger] ProcessSlot::reserved(pre, post, res)
}

/// What taking the occupant out under the guard answers: `LockCorrupted` on
/// a poisoned guard, and otherwise the occupant of some well-formed slot,
/// which is empty afterwards.
pub open spec fn handed_out<H>(res: Result<Option<H>, SupervisorError>) -> bool {
    match res {
        Err(error) => error == SupervisorError::LockCorrupted,
        Ok(taken) => exists|pre: ProcessSlot<H>, post: ProcessSlot<H>|
            pre.wf() && post.wf() && pre@ == taken && #[trigger] ProcessSlot::taken(pre, post),
    }
}

/// What recording a spawn outcome under the guard answers: `LockCorrupted`
/// on a poisoned guard, and otherwise what [`ProcessSlot::settled`] says of
/// some well-formed slot.
pub open spec fn recorded<H, R>(
    outcome: Result<(H, R), String>,
    res: Result<R, SupervisorError>,
) -> bool {
    res == Err::<R, SupervisorError>(SupervisorError::LockCorrupted) || exists|
        pre: ProcessSlot<H>,
        post: ProcessSlot<H>,
    |
        pre.wf() && post.wf() && #[trigger] ProcessSlot::settled(pre, outcome, post, res)
}

/// The answer of a start once the resolver came back with `resolved`. A
/// failed resolution is reported before the slot is asked for. Otherwise the
/// slot is asked for under the guard; if that fails, its failure is the
/// answer and nothing is spawned; if it succeeds, the command is spawned once
/// with the guard released, the outcome is recorded under the guard, and the
/// answer confirms what was recorded.
pub open spec fn launch_resolved<H, R, C, S: FnOnce(C) -> Result<(H, R), String>>(
    resolved: Result<C, String>,
    spawn: S,
    res: Result<Started<R>, SupervisorError>,
    text: Seq<char>,
) -> bool {
    match resolved {
        Err(reason) => res == Err::<Started<R>, SupervisorError>(
            SupervisorError::ResolutionFailed(reason),
        ),
        Ok(command) => exists|ask: Result<(), SupervisorError>|
            #![trigger asked::<H>(ask)]
            asked::<H>(ask) && match ask {
                Err(error) => res == Err::<Started<R>, SupervisorError>(error),
                Ok(_) => exists|
                    outcome: Result<(H, R), String>,
                    placed: Result<R, SupervisorError>,
                |
                    {
                        &&& #[trigger] call_ensures(spawn, (command,), outcome)
                        &&& #[trigger] recorded(outcome, placed)
                        &&& confirmed(placed, res, text)
                    },
            },
    }
}

/// The answer of a start: the resolver ran once, and what followed is
/// [`launch_resolved`] of what it returned.
pub open spec fn launched<
    H,
    R,
    C,
    Q: FnOnce() -> Result<C, String>,
    S: FnOnce(C) -> Result<(H, R), String>,
>(resolve: Q, spawn: S, res: Result<Started<R>, SupervisorError>, text: Seq<char>) -> bool {
    exists|resolved: Result<C, String>|
        #[trigger] call_ensures(resolve, (), resolved) && launch_resolved::<H, R, C, S>(
            resolved,
            spawn,
            res,
            text,
        )
}

/// The answer of a stop: `LockCorrupted` on a poisoned guard; otherwise the
/// occupant was taken out under the guard, and the answer is that of
/// [`stopped`] on what was taken.
pub open spec fn stop_answer<H, K: FnOnce(H) -> Result<(), String>>(
    kill: K,
    res: Result<String, SupervisorError>,
) -> bool {
    exists|taken: Result<Option<H>, SupervisorError>|
        #![trigger handed_out(taken)]
        handed_out(taken) && match taken {
            Err(error) => res == Err::<String, SupervisorError>(error),
            Ok(handle) => stopped(handle, kill, res),
        }
}

impl<H> GoProcess<H> {
    /// The state at application start: an empty slot.
    pub fn new() -> Self {
        GoProcess { child: guard_slot(ProcessSlot::new()) }
    }

    /// Asks for the slot under the guard, and lets the guard go.
    fn ask(&self) -> (res: Result<(), SupervisorError>)
        ensures
            asked::<H>(res),
    {
        match lock_slot(&self.child) {
            None => Err(SupervisorError::LockCorrupted),
            Some(mut guard) => {
                let slot = guarded(&mut guard);
                proof {
                    use_type_invariant(&*slot);
                }
                let ghost pre = *slot;
                let res = slot.reserve();
                proof {
                    assert(ProcessSlot::reserved(pre, *slot, res));
                }
                res
            },
        }
    }

    /// Takes the occupant out under the guard, and lets the guard go.
    fn hand_out(&self) -> (res: Result<Option<H>, SupervisorError>)
        ensures
            handed_out(res),
    {
        match lock_slot(&self.child) {
            None => Err(SupervisorError::LockCorrupted),
            Some(mut guard) => {
                let slot = guarded(&mut guard);
                proof {
                    use_type_invariant(&*slot);
                }
                let ghost pre = *slot;
                let taken = slot.take();
                proof {
                    assert(ProcessSlot::taken(pre, *slot));
                }
                Ok(taken)
            },
        }
    }

    /// Records a spawn outcome under the guard, and lets the guard go. On a
    /// poisoned guard nothing is recorded.
    fn record<R>(&self, outcome: Result<(H, R), String>) -> (res: Result<R, SupervisorError>)
        ensures
            recorded(outcome, res),
    {
        match lock_slot(&self.child) {
            None => Err(SupervisorError::LockCorrupted),
            Some(mut guard) => {
                let slot = guarded(&mut guard);
                proof {
                    use_type_invariant(&*slot);
                }
                let ghost pre = *slot;
                let res = slot.settle(outcome);
                proof {
                    assert(ProcessSlot::settled(pre, outcome, *slot, res));
                }
                res
            },
        }
    }

    fn launch<R, C, Q, S>(&self, resolve: Q, spawn: S, text: &str) -> (res: Result<
        Started<R>,
        SupervisorError,
    >) where Q: FnOnce() -> Result<C, String>, S: FnOnce(C) -> Result<(H, R), String>
        requires
            resolvable(resolve, spawn),
        ensures
            launched::<H, R, C, Q, S>(resolve, spawn, res, text@),
    {
        let resolved = resolve();
        match resolved {
            Err(reason) => {
                let res = Err(SupervisorError::ResolutionFailed(reason));
                proof {
                    assert(launch_resolved::<H, R, C, S>(resolved, spawn, res, text@));
                }
                res
            },
            Ok(command) => {
                let ask = self.ask();
                match ask {
                    Err(error) => {
                        let res = Err(error);
                        proof {
                            assert(launch_resolved::<H, R, C, S>(resolved, spawn, res, text@));
                        }
                        res
                    },
                    Ok(_) => {
                        let outcome = spawn(command);
                        let placed = self.record(outcome);
                        let res = confirm(placed, text);
                        proof {
                            assert(call_ensures(spawn, (command,), outcome) && recorded(
                                outcome,
                                placed,
                            ) && confirmed(placed, res, text@));
                            assert(launch_resolved::<H, R, C, S>(resolved, spawn, res, text@));
                        }
                        res
                    },
                }
            },
        }
    }

    /// Starts the worker: resolves the invocation, asks for the slot, spawns
    /// with the guard released, and records the outcome.
    pub fn start_go_backend<R, C, Q, S>(&self, resolve: Q, spawn: S) -> (res: Result<
        Started<R>,
        SupervisorError,
    >) where Q: FnOnce() -> Result<C, String>, S: FnOnce(C) -> Result<(H, R), String>
        requires
            resolvable(resolve, spawn),
        ensures
            launched::<H, R, C, Q, S>(resolve, spawn, res, started_text()),
    {
        self.launch(resolve, spawn, "Backend started successfully")
    }

    /// Stops the worker: takes the occupant out under the guard, and signals
    /// it with the guard released.
    pub fn stop_go_backend<K>(&self, kill: K) -> (res: Result<String, SupervisorError>) where
        K: FnOnce(H) -> Result<(), String>,

        requires
            always_killable::<H, K>(kill),
        ensures
            stop_answer::<H, K>(kill, res),
    {
        let taken = self.hand_out();
        match taken {
            Err(error) => Err(error),
            Ok(handle) => stop(handle, kill),
        }
    }

    /// First half of a restart: takes the occupant out under the guard,
    /// signals it with the guard released, whatever comes of that, and
    /// returns the milliseconds to wait before the second half.
    pub fn begin_restart<K>(&self, kill: K) -> (res: Result<u64, SupervisorError>) where
        K: FnOnce(H) -> Result<(), String>,

        requires
            always_killable::<H, K>(kill),
        ensures
            match res {
                Ok(delay_ms) => delay_ms == GRACE_DELAY_MS && exists|taken: Option<H>|
                    #![trigger signalled(taken, kill)]
                    handed_out(Ok::<Option<H>, SupervisorError>(taken)) && signalled(taken, kill),
                Err(error) => error == SupervisorError::LockCorrupted,
            },
    {
        let taken = self.hand_out();
        match taken {
            Err(error) => Err(error),
            Ok(handle) => Ok(begin_restart(handle, kill)),
        }
    }

    /// Second half of a restart: a start, confirmed as a restart. A slot
    /// filled or asked for during the wait answers `AlreadyRunning`, and the
    /// stop is not tried again.
    pub fn finish_restart<R, C, Q, S>(&self, resolve: Q, spawn: S) -> (res: Result<
        Started<R>,
        SupervisorError,
    >) where Q: FnOnce() -> Result<C, String>, S: FnOnce(C) -> Result<(H, R), String>
        requires
            resolvable(resolve, spawn),
        ensures
            launched::<H, R, C, Q, S>(resolve, spawn, res, restarted_text()),
    {
        self.launch(resolve, spawn, "Backend restarted successfully")
    }

    /// Restarts the worker: the first half, then `wait` on the grace delay,
    /// then the second half. A poisoned guard in the first half ends the
    /// restart there.
    pub fn do_restart<R, C, K, W, Q, S>(&self, kill: K, wait: W, resolve: Q, spawn: S) -> (res:
        Result<Started<R>, SupervisorError>) where
        K: FnOnce(H) -> Result<(), String>,
        W: FnOnce(u64),
        Q: FnOnce() -> Result<C, String>,
        S: FnOnce(C) -> Result<(H, R), String>,

        requires
            always_killable::<H, K>(kill),
            call_requires(wait, (GRACE_DELAY_MS,)),
            resolvable(resolve, spawn),
        ensures
            res == Err::<Started<R>, SupervisorError>(SupervisorError::LockCorrupted) || {
                &&& exists|taken: Option<H>|
                    #![trigger signalled(taken, kill)]
                    handed_out(Ok::<Option<H>, SupervisorError>(taken)) && signalled(taken, kill)
                &&& call_ensures(wait, (GRACE_DELAY_MS,), ())
                &&& launched::<H, R, C, Q, S>(resolve, spawn, res, restarted_text())
            },
    {
        match self.begin_restart(kill) {
            Err(error) => Err(error),
            Ok(delay_ms) => {
                wait(delay_ms);
                self.finish_restart(resolve, spawn)
            },
        }
    }

    /// Whether the worker is running when the guard is had. Fails only on a
    /// poisoned guard.
    pub fn get_backend_status(&self) -> (res: Result<bool, SupervisorError>)
        ensures
            res matches Err(error) ==> error == SupervisorError::LockCorrupted,
    {
        match lock_slot(&self.child) {
            None => Err(SupervisorError::LockCorrupted),
            Some(mut guard) => {
                let slot = guarded(&mut guard);
                Ok(status(slot))
            },
        }
    }

    /// The start after application launch, to be called once the grace delay
    /// has passed: a start whose failure is logged and not passed on.
    pub fn auto_start<R, C, Q, S>(&self, resolve: Q, spawn: S) -> (outcome: AutoStarted<R>) where
        Q: FnOnce() -> Result<C, String>,
        S: FnOnce(C) -> Result<(H, R), String>,

        requires
            resolvable(resolve, spawn),
        ensures
            exists|res: Result<Started<R>, SupervisorError>|
                #![trigger auto_started(res, outcome)]
                launched::<H, R, C, Q, S>(resolve, spawn, res, started_text()) && auto_started(
                    res,
                    outcome,
                ),
    {
        let res = self.start_go_backend(resolve, spawn);
        auto_start_outcome(res)
    }

    /// The quit sequence: takes the occupant out under the guard, signals it
    /// with the guard released, ignoring what comes of it, and returns the
    /// exit code to request. On a poisoned guard there is nothing to signal.
    pub fn quit<K>(&self, kill: K) -> (code: i32) where K: FnOnce(H) -> Result<(), String>
        requires
            always_killable::<H, K>(kill),
        ensures
            code == EXIT_CODE,
            exists|taken: Result<Option<H>, SupervisorError>|
                #![trigger handed_out(taken)]
                handed_out(taken) && (taken matches Ok(handle) ==> signalled(handle, kill)),
    {
        let taken = self.hand_out();
        match taken {
            Ok(handle) => quit(handle, kill),
            Err(_) => EXIT_CODE,
        }
    }
}

impl<H> Default for GoProcess<H> {
    fn default() -> Self {
        GoProcess::new()
    }
}

} // verus!
