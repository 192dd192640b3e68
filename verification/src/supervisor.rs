//! The lifecycle decisions that need no guard: what to do with a handle
//! taken out of the slot, how a placed worker is confirmed, what a failure
//! logs, and the constants of the restart and quit sequences.
//!
//! The outside work is handed in as closures. None of these functions holds
//! the slot while a closure runs.

use crate::error::SupervisorError;
use crate::slot::ProcessSlot;
use vstd::prelude::*;
use vstd::string::StringExecFns;

verus! {

/// Milliseconds to wait between the two halves of a restart, and before the
/// start that follows application launch.
pub const GRACE_DELAY_MS: u64 = 500;

/// The exit code requested at the end of the quit sequence.
pub const EXIT_CODE: i32 = 0;

/// What a successful start hands back: the worker's output channel, to be
/// drained by the caller, and the confirmation text.
pub struct Started<R> {
    pub output: R,
    pub message: String,
}

/// What the start after application launch came to: a running worker, or the
/// line to log. A failure is never passed on.
pub enum AutoStarted<R> {
    Running(Started<R>),
    Logged(String),
}

/// The trigger on whose behalf a command ran; it selects the log text of a
/// failure.
#[derive(Debug, Clone, Copy, PartialEq, Eq)]
pub enum Trigger {
    Start,
    Stop,
    Restart,
    AutoStart,
}

pub open spec fn started_text() -> Seq<char> {
    "Backend started successfully"@
}

pub open spec fn restarted_text() -> Seq<char> {
    "Backend restarted successfully"@
}

pub open spec fn stopped_text() -> Seq<char> {
    "Backend stopped successfully"@
}

/// The prefix of the line logged when a command of `trigger` fails.
pub open spec fn failure_prefix(trigger: Trigger) -> Seq<char> {
    match trigger {
        Trigger::Start => "Failed to start backend: "@,
        Trigger::Stop => "Failed to stop backend: "@,
        Trigger::Restart => "Failed to restart backend: "@,
        Trigger::AutoStart => "Failed to auto-start backend: "@,
    }
}

/// The answer of a start whose spawn outcome was recorded as `placed`: the
/// channel with the confirmation `text`, or the failure as it is.
pub open spec fn confirmed<R>(
    placed: Result<R, SupervisorError>,
    res: Result<Started<R>, SupervisorError>,
    text: Seq<char>,
) -> bool {
    match placed {
        Ok(channel) => res matches Ok(started) && started.output == channel && started.message@
            == text,
        Err(error) => res == Err::<Started<R>, SupervisorError>(error),
    }
}

/// The result of a stop once the signal came back with `signalled`.
pub open spec fn stop_settled(
    signalled: Result<(), String>,
    res: Result<String, SupervisorError>,
) -> bool {
    match signalled {
        Ok(_) => res matches Ok(message) && message@ == stopped_text(),
        Err(reason) => res == Err::<String, SupervisorError>(SupervisorError::KillFailed(reason)),
    }
}

/// Whether `kill` may be called on what was taken out of the slot.
pub open spec fn killable<H, K: FnOnce(H) -> Result<(), String>>(
    taken: Option<H>,
    kill: K,
) -> bool {
    taken matches Some(handle) ==> call_requires(kill, (handle,))
}

/// The handle that was taken out, if there was one, went to `kill`, whatever
/// the signal came to.
pub open spec fn signalled<H, K: FnOnce(H) -> Result<(), String>>(
    taken: Option<H>,
    kill: K,
) -> bool {
    taken matches Some(handle) ==> exists|outcome: Result<(), String>| #[trigger]
        call_ensures(kill, (handle,), outcome)
}

/// The answer of a stop that took `taken` out of the slot: `NotRunning` if
/// there was nothing to take; otherwise the handle went to `kill`, and the
/// answer is [`stop_settled`] of what the signal came to.
pub open spec fn stopped<H, K: FnOnce(H) -> Result<(), String>>(
    taken: Option<H>,
    kill: K,
    res: Result<String, SupervisorError>,
) -> bool {
    match taken {
        None => res == Err::<String, SupervisorError>(SupervisorError::NotRunning),
        Some(handle) => exists|outcome: Result<(), String>|
            #[trigger] call_ensures(kill, (handle,), outcome) && stop_settled(outcome, res),
    }
}

/// Confirms a start from the recorded outcome of its spawn.
pub fn confirm<R>(placed: Result<R, SupervisorError>, text: &str) -> (res: Result<
    Started<R>,
    SupervisorError,
>)
    ensures
        confirmed(placed, res, text@),
{
    match placed {
        Ok(output) => Ok(Started { output, message: text.to_owned() }),
        Err(error) => Err(error),
    }
}

/// Turns what the termination signal came to into the answer of a stop.
pub fn stop_outcome(signalled: Result<(), String>) -> (res: Result<String, SupervisorError>)
    ensures
        stop_settled(signalled, res),
{
    match signalled {
        Ok(_) => Ok("Backend stopped successfully".to_owned()),
        Err(reason) => Err(SupervisorError::KillFailed(reason)),
    }
}

/// Stops the worker whose handle was taken out of the slot. A handle once
/// taken is never put back, also where the signal failed.
pub fn stop<H, K>(taken: Option<H>, kill: K) -> (res: Result<String, SupervisorError>) where
    K: FnOnce(H) -> Result<(), String>,

    requires
        killable(taken, kill),
    ensures
        stopped(taken, kill, res),
{
    match taken {
        Some(handle) => stop_outcome(kill(handle)),
        None => Err(SupervisorError::NotRunning),
    }
}

/// Signals the worker whose handle was taken out, if there was one, and
/// reports whether there was. Neither an empty slot nor a failed signal is an
/// error here.
pub fn stop_best_effort<H, K>(taken: Option<H>, kill: K) -> (had_worker: bool) where
    K: FnOnce(H) -> Result<(), String>,

    requires
        killable(taken, kill),
    ensures
        signalled(taken, kill),
        had_worker == (taken is Some),
{
    match taken {
        Some(handle) => {
            let _ = kill(handle);
            true
        },
        None => false,
    }
}

/// First half of a restart, on what was taken out of the slot: signals the
/// worker if there was one, and returns the milliseconds to wait before the
/// second half.
pub fn begin_restart<H, K>(taken: Option<H>, kill: K) -> (delay_ms: u64) where
    K: FnOnce(H) -> Result<(), String>,

    requires
        killable(taken, kill),
    ensures
        signalled(taken, kill),
        delay_ms == GRACE_DELAY_MS,
{
    let _ = stop_best_effort(taken, kill);
    GRACE_DELAY_MS
}

/// The quit sequence, on what was taken out of the slot: signals the worker
/// if there was one, ignoring what the signal came to, and then returns the
/// exit code to request.
pub fn quit<H, K>(taken: Option<H>, kill: K) -> (code: i32) where
    K: FnOnce(H) -> Result<(), String>,

    requires
        killable(taken, kill),
    ensures
        signalled(taken, kill),
        code == EXIT_CODE,
{
    let _ = stop_best_effort(taken, kill);
    EXIT_CODE
}

/// Whether the worker is running: the slot's occupancy.
pub fn status<H>(slot: &ProcessSlot<H>) -> (running: bool)
    ensures
        running == (slot@ is Some),
{
    slot.is_occupied()
}

/// The line logged when a command of `trigger` failed with `error`.
pub fn failure_log(trigger: Trigger, error: &SupervisorError) -> (line: String)
    ensures
        line@ == failure_prefix(trigger) + error.message_spec(),
{
    let prefix = match trigger {
        Trigger::Start => "Failed to start backend: ",
        Trigger::Stop => "Failed to stop backend: ",
        Trigger::Restart => "Failed to restart backend: ",
        Trigger::AutoStart => "Failed to auto-start backend: ",
    };
    let text = error.message();
    prefix.to_owned().concat(text.as_str())
}

/// What is kept of the answer of the start after application launch.
pub open spec fn auto_started<R>(
    res: Result<Started<R>, SupervisorError>,
    outcome: AutoStarted<R>,
) -> bool {
    match res {
        Ok(started) => outcome == AutoStarted::Running(started),
        Err(error) => outcome matches AutoStarted::Logged(line) && line@ == failure_prefix(
            Trigger::AutoStart,
        ) + error.message_spec(),
    }
}

/// Turns the answer of the start after application launch into what is kept:
/// the running worker, or the line to log.
pub fn auto_start_outcome<R>(res: Result<Started<R>, SupervisorError>) -> (outcome: AutoStarted<R>)
    ensures
        auto_started(res, outcome),
{
    match res {
        Ok(started) => AutoStarted::Running(started),
        Err(error) => AutoStarted::Logged(failure_log(Trigger::AutoStart, &error)),
    }
}

/// The running flag that the menu must show once a command of `trigger` has
/// come back, or `None` where the command changed nothing that the menu
/// shows. `failure` is the command's error, if it failed.
pub open spec fn running_after_spec(trigger: Trigger, failure: Option<SupervisorError>) -> Option<
    bool,
> {
    match failure {
        None => Some(!(trigger is Stop)),
        Some(SupervisorError::AlreadyRunning) => Some(true),
        Some(SupervisorError::NotRunning) => Some(false),
        Some(SupervisorError::KillFailed(_)) => Some(false),
        Some(SupervisorError::SpawnFailed(_)) => Some(false),
        Some(SupervisorError::ResolutionFailed(_)) => if trigger is Restart {
            Some(false)
        } else {
            None
        },
        Some(SupervisorError::LockCorrupted) => None,
    }
}

/// Decides the menu rebuild that follows a command, failures included: a
/// worker that was stopped, or taken out for a restart that then failed, is
/// shown as stopped even where the command reports an error.
pub fn running_after(trigger: Trigger, failure: Option<&SupervisorError>) -> (running: Option<
    bool,
>)
    ensures
        running == running_after_spec(
            trigger,
            match failure {
                Some(error) => Some(*error),
                None => None,
            },
        ),
{
    match failure {
        None => match trigger {
            Trigger::Stop => Some(false),
            _ => Some(true),
        },
        Some(SupervisorError::AlreadyRunning) => Some(true),
        Some(SupervisorError::NotRunning) => Some(false),
        Some(SupervisorError::KillFailed(_)) => Some(false),
        Some(SupervisorError::SpawnFailed(_)) => Some(false),
        Some(SupervisorError::ResolutionFailed(_)) => match trigger {
            Trigger::Restart => Some(false),
            _ => None,
        },
        Some(SupervisorError::LockCorrupted) => None,
    }
}

} // verus!
