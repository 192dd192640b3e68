use backend_supervisor::error::SupervisorError;
use backend_supervisor::state::GoProcess;
use backend_supervisor::supervisor::AutoStarted;
use std::cell::Cell;
use std::cell::RefCell;

#[test]
fn state_starts_stopped() {
    let state: GoProcess<u32> = GoProcess::default();
    assert_eq!(state.get_backend_status(), Ok(false));
}

#[test]
fn start_status_stop_status_start_again() {
    let state: GoProcess<u32> = GoProcess::new();
    let first = state.start_go_backend(|| Ok(()), |_| Ok((1u32, ())));
    assert_eq!(first.ok().map(|s| s.message), Some("Backend started successfully".to_string()));
    assert_eq!(state.get_backend_status(), Ok(true));
    assert_eq!(state.stop_go_backend(|_| Ok(())), Ok("Backend stopped successfully".to_string()));
    assert_eq!(state.get_backend_status(), Ok(false));
    let again = state.start_go_backend(|| Ok(()), |_| Ok((2u32, ())));
    assert!(again.is_ok());
    assert_eq!(state.get_backend_status(), Ok(true));
}

#[test]
fn two_starts_on_shared_state_spawn_one_worker() {
    let spawns = Cell::new(0u32);
    let state: GoProcess<u32> = GoProcess::new();
    let first = &state;
    let second = &state;
    let one = first.start_go_backend(|| Ok(()), |_| {
        spawns.set(spawns.get() + 1);
        Ok((1u32, ()))
    });
    let two = second.start_go_backend(|| Ok(()), |_| {
        spawns.set(spawns.get() + 1);
        Ok((2u32, ()))
    });
    assert!(one.is_ok());
    assert_eq!(two.err(), Some(SupervisorError::AlreadyRunning));
    assert_eq!(spawns.get(), 1);
}

#[test]
fn second_start_fails_with_already_running() {
    let spawns = Cell::new(0u32);
    let state: GoProcess<u32> = GoProcess::new();
    assert!(state.start_go_backend(|| Ok(()), |_| Ok((1u32, ()))).is_ok());
    let second = state.start_go_backend(|| Ok(()), |_| {
        spawns.set(spawns.get() + 1);
        Ok((2u32, ()))
    });
    assert_eq!(second.err(), Some(SupervisorError::AlreadyRunning));
    assert_eq!(spawns.get(), 0);
    let mut killed = Vec::new();
    assert!(state.stop_go_backend(|handle| {
        killed.push(handle);
        Ok(())
    })
    .is_ok());
    assert_eq!(killed, vec![1u32]);
}

#[test]
fn start_during_a_spawn_is_rejected_and_status_reads_stopped() {
    let state: GoProcess<u32> = GoProcess::new();
    let seen = Cell::new(None);
    let nested = RefCell::new(None);
    let res = state.start_go_backend(
        || Ok(()),
        |_| {
            seen.set(state.get_backend_status().ok());
            *nested.borrow_mut() =
                state.start_go_backend(|| Ok(()), |_| Ok((2u32, ()))).err();
            Ok((1u32, "rx"))
        },
    );
    assert_eq!(res.ok().map(|s| s.output), Some("rx"));
    assert_eq!(seen.get(), Some(false));
    assert_eq!(*nested.borrow(), Some(SupervisorError::AlreadyRunning));
    assert_eq!(state.get_backend_status(), Ok(true));
}

#[test]
fn signal_may_call_back_into_the_state() {
    let state: GoProcess<u32> = GoProcess::new();
    assert!(state.start_go_backend(|| Ok(()), |_| Ok((1u32, ()))).is_ok());
    let seen = Cell::new(None);
    let res = state.stop_go_backend(|_| {
        seen.set(state.get_backend_status().ok());
        Ok(())
    });
    assert_eq!(res, Ok("Backend stopped successfully".to_string()));
    assert_eq!(seen.get(), Some(false));
}

#[test]
fn resolution_failure_is_reported_before_the_slot_is_asked() {
    let spawns = Cell::new(0u32);
    let state: GoProcess<u32> = GoProcess::new();
    let res = state.start_go_backend(|| Err::<(), String>("sidecar missing".to_string()), |_| {
        spawns.set(spawns.get() + 1);
        Ok((1u32, ()))
    });
    assert_eq!(res.err(), Some(SupervisorError::ResolutionFailed("sidecar missing".to_string())));
    assert_eq!(spawns.get(), 0);
    assert_eq!(state.get_backend_status(), Ok(false));
    assert!(state.start_go_backend(|| Ok(()), |_| Ok((1u32, ()))).is_ok());
    let occupied = state
        .start_go_backend(|| Err::<(), String>("sidecar missing".to_string()), |_| Ok((2u32, ())));
    assert_eq!(
        occupied.err(),
        Some(SupervisorError::ResolutionFailed("sidecar missing".to_string()))
    );
}

#[test]
fn spawn_failure_frees_the_slot_again() {
    let state: GoProcess<u32> = GoProcess::new();
    let res = state.start_go_backend(|| Ok(()), |_| Err::<(u32, ()), String>("denied".to_string()));
    assert_eq!(res.err(), Some(SupervisorError::SpawnFailed("denied".to_string())));
    assert_eq!(state.get_backend_status(), Ok(false));
    assert!(state.start_go_backend(|| Ok(()), |_| Ok((1u32, ()))).is_ok());
}

#[test]
fn failed_kill_still_empties_the_slot() {
    let state: GoProcess<u32> = GoProcess::new();
    assert!(state.start_go_backend(|| Ok(()), |_| Ok((9u32, ()))).is_ok());
    let res = state.stop_go_backend(|_| Err("no such process".to_string()));
    assert_eq!(res, Err(SupervisorError::KillFailed("no such process".to_string())));
    assert_eq!(state.get_backend_status(), Ok(false));
    assert_eq!(state.stop_go_backend(|_| Ok(())), Err(SupervisorError::NotRunning));
}

#[test]
fn restart_losing_the_race_fails_without_retrying_stop() {
    let kills = Cell::new(0u32);
    let state: GoProcess<u32> = GoProcess::new();
    assert!(state.start_go_backend(|| Ok(()), |_| Ok((1u32, ()))).is_ok());
    let res = state.do_restart(
        |_| {
            kills.set(kills.get() + 1);
            Ok(())
        },
        |_| {
            assert!(state.start_go_backend(|| Ok(()), |_| Ok((2u32, ()))).is_ok());
        },
        || Ok(()),
        |_| Ok((3u32, ())),
    );
    assert_eq!(res.err(), Some(SupervisorError::AlreadyRunning));
    assert_eq!(kills.get(), 1);
    let mut last = Vec::new();
    assert!(state.stop_go_backend(|handle| {
        last.push(handle);
        Ok(())
    })
    .is_ok());
    assert_eq!(last, vec![2u32]);
}

#[test]
fn any_sequence_of_commands_keeps_one_worker_at_most() {
    let live = RefCell::new(Vec::new());
    let next = Cell::new(0u32);
    let state: GoProcess<u32> = GoProcess::new();
    let script = [0u8, 0, 1, 1, 0, 2, 0, 1, 2, 2, 0, 0, 1];
    for step in script {
        match step {
            0 => {
                let _ = state.start_go_backend(|| Ok(()), |_| {
                    next.set(next.get() + 1);
                    live.borrow_mut().push(next.get());
                    Ok((next.get(), ()))
                });
            }
            1 => {
                let _ = state.stop_go_backend(|handle| {
                    live.borrow_mut().retain(|id| *id != handle);
                    Ok(())
                });
            }
            _ => {
                let _ = state.do_restart(
                    |handle| {
                        live.borrow_mut().retain(|id| *id != handle);
                        Ok(())
                    },
                    |_| (),
                    || Ok(()),
                    |_| {
                        next.set(next.get() + 1);
                        live.borrow_mut().push(next.get());
                        Ok((next.get(), ()))
                    },
                );
            }
        }
        assert!(live.borrow().len() <= 1);
        assert_eq!(state.get_backend_status(), Ok(live.borrow().len() == 1));
    }
}

#[test]
fn stop_on_stopped_state_fails_with_not_running() {
    let state: GoProcess<u32> = GoProcess::new();
    assert_eq!(state.stop_go_backend(|_| Ok(())), Err(SupervisorError::NotRunning));
    assert_eq!(state.get_backend_status(), Ok(false));
}

#[test]
fn restart_while_stopped_waits_then_starts() {
    let waited = RefCell::new(Vec::new());
    let kills = Cell::new(0u32);
    let state: GoProcess<u32> = GoProcess::new();
    let res = state.do_restart(
        |_| {
            kills.set(kills.get() + 1);
            Ok(())
        },
        |delay_ms| waited.borrow_mut().push(delay_ms),
        || Ok(()),
        |_| Ok((1u32, ())),
    );
    assert_eq!(res.ok().map(|s| s.message), Some("Backend restarted successfully".to_string()));
    assert_eq!(kills.get(), 0);
    assert_eq!(*waited.borrow(), vec![500u64]);
    assert_eq!(state.get_backend_status(), Ok(true));
}

#[test]
fn restart_while_running_releases_the_guard_during_the_wait() {
    let killed = RefCell::new(Vec::new());
    let seen_during_wait = Cell::new(None);
    let state: GoProcess<u32> = GoProcess::new();
    assert!(state.start_go_backend(|| Ok(()), |_| Ok((1u32, ()))).is_ok());
    let res = state.do_restart(
        |handle| {
            killed.borrow_mut().push(handle);
            Ok(())
        },
        |_| seen_during_wait.set(state.get_backend_status().ok()),
        || Ok(()),
        |_| Ok((2u32, "rx")),
    );
    assert_eq!(res.ok().map(|s| s.output), Some("rx"));
    assert_eq!(*killed.borrow(), vec![1u32]);
    assert_eq!(seen_during_wait.get(), Some(false));
    assert_eq!(state.get_backend_status(), Ok(true));
    let mut last = Vec::new();
    assert!(state.stop_go_backend(|handle| {
        last.push(handle);
        Ok(())
    })
    .is_ok());
    assert_eq!(last, vec![2u32]);
}

#[test]
fn restart_in_two_halves() {
    let state: GoProcess<u32> = GoProcess::new();
    assert!(state.start_go_backend(|| Ok(()), |_| Ok((1u32, ()))).is_ok());
    assert_eq!(state.begin_restart(|_| Err("gone".to_string())), Ok(500));
    assert_eq!(state.get_backend_status(), Ok(false));
    let res = state.finish_restart(|| Ok(()), |_| Ok((2u32, ())));
    assert_eq!(res.ok().map(|s| s.message), Some("Backend restarted successfully".to_string()));
    assert_eq!(state.get_backend_status(), Ok(true));
}

#[test]
fn quit_on_shared_state() {
    let killed = RefCell::new(Vec::new());
    let state: GoProcess<u32> = GoProcess::new();
    assert_eq!(state.quit(|_| Ok(())), 0);
    assert!(state.start_go_backend(|| Ok(()), |_| Ok((8u32, ()))).is_ok());
    let code = state.quit(|handle| {
        killed.borrow_mut().push(handle);
        Ok(())
    });
    assert_eq!(code, 0);
    assert_eq!(*killed.borrow(), vec![8u32]);
    assert_eq!(state.get_backend_status(), Ok(false));
}

#[test]
fn auto_start_on_shared_state() {
    let state: GoProcess<u32> = GoProcess::new();
    match state.auto_start(|| Err::<(), String>("no sidecar".to_string()), |_| Ok((1u32, ()))) {
        AutoStarted::Logged(line) => assert_eq!(
            line,
            "Failed to auto-start backend: Failed to create sidecar command: no sidecar"
        ),
        AutoStarted::Running(_) => panic!("nothing was resolved"),
    }
    assert_eq!(state.get_backend_status(), Ok(false));
    match state.auto_start(|| Ok(()), |_| Ok((1u32, ()))) {
        AutoStarted::Running(started) => {
            assert_eq!(started.message, "Backend started successfully")
        }
        AutoStarted::Logged(line) => panic!("{}", line),
    }
    assert_eq!(state.get_backend_status(), Ok(true));
}
