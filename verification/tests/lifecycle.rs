use adskip::error::{IoError, SpawnError, SupervisorError, TimeoutError};
use adskip::lifecycle::{
    Completed, Goal, Progress, Step, RESTART_READY_TIMEOUT_MS, STARTUP_READY_TIMEOUT_MS,
};
use adskip::prober::{probe_verdict, ProbeVerdict, PROBE_INTERVAL_MS};
use adskip::remote::{CallError, RemoteMethod};
use adskip::supervisor::{Action, Event, OwnerLossPolicy, SupervisorState};
use adskip::notification::{PropertyChange, Value};

fn succeed(step: Step, elapsed_ms: u64) -> Completed {
    match step {
        Step::KillAndWait => Completed::Killed(Ok(())),
        Step::Spawn => Completed::Spawned(Ok(())),
        Step::Probe { .. } => Completed::Probed { answered: true, elapsed_ms },
        Step::Play => Completed::Played(Ok(())),
        Step::Next => Completed::Skipped(Ok(())),
    }
}

fn steps_to_done(goal: Goal) -> Vec<Step> {
    let mut steps = vec![goal.first_step()];
    loop {
        let last = *steps.last().unwrap();
        match goal.next_step(succeed(last, 0)) {
            Progress::Proceed(step) => steps.push(step),
            Progress::Done => return steps,
            Progress::Failed(e) => panic!("failed: {:?}", e),
        }
        assert!(steps.len() < 10);
    }
}

#[test]
fn restart_order() {
    assert_eq!(
        steps_to_done(Goal::Restart),
        vec![Step::KillAndWait, Step::Spawn, Step::Probe { delay_ms: 0 }, Step::Play, Step::Next]
    );
}

#[test]
fn startup_order() {
    assert_eq!(
        steps_to_done(Goal::Startup),
        vec![Step::Spawn, Step::Probe { delay_ms: 0 }, Step::Play]
    );
}

#[test]
fn ready_timeouts() {
    assert_eq!(Goal::Restart.ready_timeout_ms(), 2000);
    assert_eq!(Goal::Startup.ready_timeout_ms(), 5000);
    assert_eq!(RESTART_READY_TIMEOUT_MS, 2000);
    assert_eq!(STARTUP_READY_TIMEOUT_MS, 5000);
    assert_eq!(PROBE_INTERVAL_MS, 100);
}

#[test]
fn probe_is_repeated_until_answered() {
    let goal = Goal::Restart;
    assert_eq!(
        goal.next_step(Completed::Probed { answered: false, elapsed_ms: 0 }),
        Progress::Proceed(Step::Probe { delay_ms: 100 })
    );
    assert_eq!(
        goal.next_step(Completed::Probed { answered: false, elapsed_ms: 2000 }),
        Progress::Proceed(Step::Probe { delay_ms: 100 })
    );
    assert_eq!(
        goal.next_step(Completed::Probed { answered: true, elapsed_ms: 1999 }),
        Progress::Proceed(Step::Play)
    );
}

#[test]
fn restart_times_out_after_two_seconds() {
    assert_eq!(
        Goal::Restart.next_step(Completed::Probed { answered: false, elapsed_ms: 2001 }),
        Progress::Failed(SupervisorError::NotReady(TimeoutError { timeout_ms: 2000 }))
    );
}

#[test]
fn startup_times_out_after_five_seconds() {
    assert_eq!(
        Goal::Startup.next_step(Completed::Probed { answered: false, elapsed_ms: 2001 }),
        Progress::Proceed(Step::Probe { delay_ms: 100 })
    );
    assert_eq!(
        Goal::Startup.next_step(Completed::Probed { answered: false, elapsed_ms: 5000 }),
        Progress::Proceed(Step::Probe { delay_ms: 100 })
    );
    assert_eq!(
        Goal::Startup.next_step(Completed::Probed { answered: false, elapsed_ms: 5001 }),
        Progress::Failed(SupervisorError::NotReady(TimeoutError { timeout_ms: 5000 }))
    );
}

#[test]
fn answer_after_the_bound_still_counts() {
    assert_eq!(
        Goal::Restart.next_step(Completed::Probed { answered: true, elapsed_ms: u64::MAX }),
        Progress::Proceed(Step::Play)
    );
}

#[test]
fn probe_that_never_answers_fails_the_restart_and_the_loop() {
    let goal = Goal::Restart;
    let mut step = goal.first_step();
    let mut elapsed_ms = 0;
    let mut probes = 0;
    let mut trace = Vec::new();
    let outcome = loop {
        trace.push(step);
        let completed = match step {
            Step::Probe { delay_ms } => {
                elapsed_ms += delay_ms + 7;
                probes += 1;
                Completed::Probed { answered: false, elapsed_ms }
            }
            other => succeed(other, 0),
        };
        match goal.next_step(completed) {
            Progress::Proceed(next) => step = next,
            Progress::Done => break Ok(()),
            Progress::Failed(e) => break Err(e),
        }
        assert!(trace.len() < 100);
    };
    let error = SupervisorError::NotReady(TimeoutError { timeout_ms: 2000 });
    assert_eq!(outcome, Err(error));
    assert_eq!(trace[0], Step::KillAndWait);
    assert_eq!(trace[1], Step::Spawn);
    assert!(trace[2..].iter().all(|s| matches!(s, Step::Probe { .. })));
    assert!(probes <= 2000 / 100 + 2);
    assert!(elapsed_ms > 2000);

    let ad = Event::PropertyChanged(PropertyChange {
        interface: String::new(),
        changed: vec![(
            "Metadata".to_string(),
            Value::Dict(vec![("mpris:trackid".to_string(), Value::Text("/x/ad/2".to_string()))]),
        )],
        invalidated: Vec::new(),
    });
    let mut state = SupervisorState::new();
    assert_eq!(state.on_event(&ad), Action::Restart);
    assert_eq!(state.restart_finished(outcome), Err(error));
    assert_eq!(state.policy, OwnerLossPolicy::ExitOnLoss);
    assert_eq!(error.describe(), "the player was not ready within 2000 ms");
}

#[test]
fn kill_failure_ends_the_sequence() {
    let e = IoError { os_code: Some(3) };
    assert_eq!(
        Goal::Restart.next_step(Completed::Killed(Err(e))),
        Progress::Failed(SupervisorError::Kill(e))
    );
}

#[test]
fn spawn_failure_ends_the_sequence() {
    let e = SpawnError { os_code: Some(2) };
    for goal in [Goal::Startup, Goal::Restart] {
        assert_eq!(
            goal.next_step(Completed::Spawned(Err(e))),
            Progress::Failed(SupervisorError::Spawn(e))
        );
    }
}

#[test]
fn play_failure_ends_the_sequence() {
    for e in [CallError::Unreachable, CallError::Remote] {
        for goal in [Goal::Startup, Goal::Restart] {
            assert_eq!(
                goal.next_step(Completed::Played(Err(e))),
                Progress::Failed(SupervisorError::Call(RemoteMethod::Play, e))
            );
        }
    }
}

#[test]
fn next_failure_ends_the_sequence() {
    for e in [CallError::Unreachable, CallError::Remote] {
        assert_eq!(
            Goal::Restart.next_step(Completed::Skipped(Err(e))),
            Progress::Failed(SupervisorError::Call(RemoteMethod::Next, e))
        );
    }
}

#[test]
fn spawn_only_after_kill() {
    assert_eq!(Goal::Restart.first_step(), Step::KillAndWait);
    assert_eq!(Goal::Startup.first_step(), Step::Spawn);
    assert_eq!(Goal::Restart.next_step(Completed::Killed(Ok(()))), Progress::Proceed(Step::Spawn));
    let others = [
        Completed::Spawned(Ok(())),
        Completed::Probed { answered: true, elapsed_ms: 0 },
        Completed::Probed { answered: false, elapsed_ms: 0 },
        Completed::Played(Ok(())),
        Completed::Skipped(Ok(())),
    ];
    for goal in [Goal::Startup, Goal::Restart] {
        for c in others {
            assert_ne!(goal.next_step(c), Progress::Proceed(Step::Spawn));
        }
    }
}

#[test]
fn remote_method_of_each_step() {
    assert_eq!(Step::KillAndWait.remote_method(), None);
    assert_eq!(Step::Spawn.remote_method(), None);
    assert_eq!(Step::Probe { delay_ms: 0 }.remote_method(), Some(RemoteMethod::Ping));
    assert_eq!(Step::Probe { delay_ms: 100 }.remote_method(), Some(RemoteMethod::Ping));
    assert_eq!(Step::Play.remote_method(), Some(RemoteMethod::Play));
    assert_eq!(Step::Next.remote_method(), Some(RemoteMethod::Next));
}

#[test]
fn verdict_on_a_probe() {
    assert_eq!(probe_verdict(true, 0, 2000), ProbeVerdict::Ready);
    assert_eq!(probe_verdict(true, 3000, 2000), ProbeVerdict::Ready);
    assert_eq!(probe_verdict(false, 0, 2000), ProbeVerdict::Retry { delay_ms: 100 });
    assert_eq!(probe_verdict(false, 2000, 2000), ProbeVerdict::Retry { delay_ms: 100 });
    assert_eq!(
        probe_verdict(false, 2001, 2000),
        ProbeVerdict::TimedOut(TimeoutError { timeout_ms: 2000 })
    );
    assert_eq!(probe_verdict(false, 0, 0), ProbeVerdict::Retry { delay_ms: 100 });
    assert_eq!(probe_verdict(false, 1, 0), ProbeVerdict::TimedOut(TimeoutError { timeout_ms: 0 }));
    assert_eq!(
        probe_verdict(false, u64::MAX, u64::MAX),
        ProbeVerdict::Retry { delay_ms: 100 }
    );
}

#[test]
fn unanswered_wait_is_bounded() {
    for timeout_ms in [0u64, 1, 99, 100, 101, 2000, 5000] {
        let mut elapsed_ms = 0;
        let mut attempts = 1;
        while let ProbeVerdict::Retry { delay_ms } = probe_verdict(false, elapsed_ms, timeout_ms) {
            elapsed_ms += delay_ms;
            attempts += 1;
        }
        assert!(attempts <= timeout_ms / PROBE_INTERVAL_MS + 2);
        assert_eq!(
            probe_verdict(false, elapsed_ms, timeout_ms),
            ProbeVerdict::TimedOut(TimeoutError { timeout_ms })
        );
    }
}
