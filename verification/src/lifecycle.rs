//! The order in which the player is started and restarted.

use vstd::prelude::*;
use crate::error::{IoError, SpawnError, SupervisorError, TimeoutError};
use crate::remote::{CallError, RemoteMethod};
use crate::prober::{probe_verdict, verdict_for, ProbeVerdict};

verus! {

/// The bound on the wait for a restarted player, in milliseconds.
pub const RESTART_READY_TIMEOUT_MS: u64 = 2000;

/// The bound on the wait for the player at first start, in milliseconds.
pub const STARTUP_READY_TIMEOUT_MS: u64 = 5000;

/// What a sequence of steps is to achieve.
#[derive(Clone, Copy, Debug, PartialEq, Eq, Structural)]
pub enum Goal {
    /// Launch the player and start playback.
    Startup,
    /// Retire the running player, launch a new one, resume playback and
    /// skip the track that would play.
    Restart,
}

/// One operation on the player process or over the bus.
#[derive(Clone, Copy, Debug, PartialEq, Eq, Structural)]
pub enum Step {
    /// Terminate the player process and wait until it has exited.
    KillAndWait,
    /// Launch the player process, minimised.
    Spawn,
    /// Pause for `delay_ms` milliseconds, then call the liveness probe.
    Probe { delay_ms: u64 },
    /// Call the method that resumes playback.
    Play,
    /// Call the method that skips to the next track.
    Next,
}

/// A step that was carried out, with its outcome.
#[derive(Clone, Copy, Debug, PartialEq, Eq)]
pub enum Completed {
    /// `KillAndWait` returned.
    Killed(Result<(), IoError>),
    /// `Spawn` returned.
    Spawned(Result<(), SpawnError>),
    /// `Probe` returned: whether the player answered, and how many
    /// milliseconds have passed since the wait for it began.
    Probed { answered: bool, elapsed_ms: u64 },
    /// `Play` returned.
    Played(Result<(), CallError>),
    /// `Next` returned.
    Skipped(Result<(), CallError>),
}

/// How a sequence goes on after a step.
#[derive(Clone, Copy, Debug, PartialEq, Eq, Structural)]
pub enum Progress {
    /// Carry out this step next.
    Proceed(Step),
    /// The goal is reached.
    Done,
    /// The sequence has failed and is not continued.
    Failed(SupervisorError),
}

impl Goal {
    /// The bound on the wait for the player to become ready.
    pub open spec fn ready_timeout(self) -> u64 {
        match self {
            Goal::Startup => STARTUP_READY_TIMEOUT_MS,
            Goal::Restart => RESTART_READY_TIMEOUT_MS,
        }
    }

    /// The step that a sequence begins with.
    pub open spec fn first(self) -> Step {
        match self {
            Goal::Startup => Step::Spawn,
            Goal::Restart => Step::KillAndWait,
        }
    }

    /// How the sequence goes on after `completed`. A step that succeeded is
    /// followed by the next one in the order kill, spawn, probe, play, next;
    /// a startup ends after play. The probe is repeated until the player
    /// answers or the wait has lasted longer than the bound. A step that
    /// failed ends the sequence with its error.
    pub open spec fn after(self, completed: Completed) -> Progress {
        match completed {
            Completed::Killed(Ok(_)) => Progress::Proceed(Step::Spawn),
            Completed::Killed(Err(e)) => Progress::Failed(SupervisorError::Kill(e)),
            Completed::Spawned(Ok(_)) => Progress::Proceed(Step::Probe { delay_ms: 0 }),
            Completed::Spawned(Err(e)) => Progress::Failed(SupervisorError::Spawn(e)),
            Completed::Probed { answered, elapsed_ms } => match verdict_for(
                answered,
                elapsed_ms,
                self.ready_timeout(),
            ) {
                ProbeVerdict::Ready => Progress::Proceed(Step::Play),
                ProbeVerdict::Retry { delay_ms } => Progress::Proceed(Step::Probe { delay_ms }),
                ProbeVerdict::TimedOut(e) => Progress::Failed(SupervisorError::NotReady(e)),
            },
            Completed::Played(Ok(_)) => match self {
                Goal::Startup => Progress::Done,
                Goal::Restart => Progress::Proceed(Step::Next),
            },
            Completed::Played(Err(e)) => Progress::Failed(
                SupervisorError::Call(RemoteMethod::Play, e),
            ),
            Completed::Skipped(Ok(_)) => Progress::Done,
            Completed::Skipped(Err(e)) => Progress::Failed(
                SupervisorError::Call(RemoteMethod::Next, e),
            ),
        }
    }

    /// The bound on the wait for the player to become ready, in
    /// milliseconds: two seconds after a restart, five at first start.
    pub fn ready_timeout_ms(self) -> (timeout_ms: u64)
        ensures
            timeout_ms == self.ready_timeout(),
    {
        match self {
            Goal::Startup => STARTUP_READY_TIMEOUT_MS,
            Goal::Restart => RESTART_READY_TIMEOUT_MS,
        }
    }

    /// The step to begin with: a restart first retires the running player,
    /// a startup launches one at once.
    pub fn first_step(self) -> (step: Step)
        ensures
            step == self.first(),
    {
        match self {
            Goal::Startup => Step::Spawn,
            Goal::Restart => Step::KillAndWait,
        }
    }

    /// Says how the sequence goes on after the step that was carried out.
    pub fn next_step(self, completed: Completed) -> (progress: Progress)
        ensures
            progress == self.after(completed),
    {
        match completed {
            Completed::Killed(Ok(_)) => Progress::Proceed(Step::Spawn),
            Completed::Killed(Err(e)) => Progress::Failed(SupervisorError::Kill(e)),
            Completed::Spawned(Ok(_)) => Progress::Proceed(Step::Probe { delay_ms: 0 }),
            Completed::Spawned(Err(e)) => Progress::Failed(SupervisorError::Spawn(e)),
            Completed::Probed { answered, elapsed_ms } => match probe_verdict(
                answered,
                elapsed_ms,
                self.ready_timeout_ms(),
            ) {
                ProbeVerdict::Ready => Progress::Proceed(Step::Play),
                ProbeVerdict::Retry { delay_ms } => Progress::Proceed(Step::Probe { delay_ms }),
                ProbeVerdict::TimedOut(e) => Progress::Failed(SupervisorError::NotReady(e)),
            },
            Completed::Played(Ok(_)) => match self {
                Goal::Startup => Progress::Done,
                Goal::Restart => Progress::Proceed(Step::Next),
            },
            Completed::Played(Err(e)) => Progress::Failed(
                SupervisorError::Call(RemoteMethod::Play, e),
            ),
            Completed::Skipped(Ok(_)) => Progress::Done,
            Completed::Skipped(Err(e)) => Progress::Failed(
                SupervisorError::Call(RemoteMethod::Next, e),
            ),
        }
    }
}

/// The outcome `completed` is that of the step `step`.
pub open spec fn answers(completed: Completed, step: Step) -> bool {
    match step {
        Step::KillAndWait => completed is Killed,
        Step::Spawn => completed is Spawned,
        Step::Probe { .. } => completed is Probed,
        Step::Play => completed is Played,
        Step::Next => completed is Skipped,
    }
}

/// The steps behind `done` were carried out as the goal prescribes: the
/// first is the goal's first step, and each further one is the step that the
/// one before was to be followed by.
pub open spec fn follows_plan(goal: Goal, done: Seq<Completed>) -> bool {
    &&& done.len() > 0 ==> answers(done[0], goal.first())
    &&& forall|k: int|
        0 <= k < done.len() - 1 ==> ((#[trigger] goal.after(done[k])) matches Progress::Proceed(
            step,
        ) && answers(done[k + 1], step))
}

/// From `from` up to `until`, every step is a probe that was not answered.
pub open spec fn probes_unanswered(done: Seq<Completed>, from: int, until: int) -> bool {
    forall|j: int|
        from <= j < until ==> ((#[trigger] done[j]) matches Completed::Probed { answered, .. }
            && !answered)
}

/// The step with index `k` is the probe that was answered, after nothing
/// but unanswered probes from `from` on.
pub open spec fn ready_at(done: Seq<Completed>, from: int, k: int) -> bool {
    &&& from <= k < done.len()
    &&& done[k] matches Completed::Probed { answered, .. } && answered
    &&& probes_unanswered(done, from, k)
}

/// Where the steps have reached after the launch: the step with index `k`
/// is one more unanswered probe, the probe that was answered, the call of
/// `Play` right after that probe, or the call of `Next` right after `Play`.
spec fn phase_at(goal: Goal, done: Seq<Completed>, from: int, k: int) -> bool {
    ||| probes_unanswered(done, from, k + 1)
    ||| ready_at(done, from, k)
    ||| (done[k] is Played && ready_at(done, from, k - 1))
    ||| (goal is Restart && done[k] is Skipped && (done[k - 1] matches Completed::Played(Ok(_)))
        && ready_at(done, from, k - 2))
}

proof fn lemma_phase(goal: Goal, done: Seq<Completed>, from: int, k: int)
    requires
        follows_plan(goal, done),
        1 <= from <= k < done.len(),
        done[from - 1] matches Completed::Spawned(Ok(_)),
    ensures
        phase_at(goal, done, from, k),
    decreases k,
{
    let before = goal.after(done[k - 1]);
    assert(before matches Progress::Proceed(step) && answers(done[k], step));
    if k > from {
        lemma_phase(goal, done, from, k - 1);
    }
}

/// A restart that reaches its goal is one pass through kill, spawn, wait
/// until ready, play, next: the player was retired and a new one launched,
/// the probe was repeated until its first answer, then `Play` and `Next`
/// were called, each once and with success, and nothing else was done.
pub proof fn lemma_restart_is_one_pass(done: Seq<Completed>)
    requires
        follows_plan(Goal::Restart, done),
        done.len() > 0,
        Goal::Restart.after(done.last()) is Done,
    ensures
        done.len() >= 5,
        done[0] matches Completed::Killed(Ok(_)),
        done[1] matches Completed::Spawned(Ok(_)),
        ready_at(done, 2, done.len() - 3),
        done[done.len() - 2] matches Completed::Played(Ok(_)),
        done[done.len() - 1] matches Completed::Skipped(Ok(_)),
{
    let n = done.len() as int;
    let goal = Goal::Restart;
    assert(done.last() matches Completed::Skipped(Ok(_)));
    assert(n >= 2) by {
        if n == 1 {
            assert(answers(done[0], goal.first()));
        }
    }
    let first = goal.after(done[0]);
    assert(first matches Progress::Proceed(step) && answers(done[1], step));
    assert(n >= 3) by {
        if n == 2 {
            assert(done[1] is Spawned);
        }
    }
    let second = goal.after(done[1]);
    assert(second matches Progress::Proceed(step) && answers(done[2], step));
    lemma_phase(goal, done, 2, n - 1);
    lemma_phase(goal, done, 2, n - 2);
}

/// A startup that reaches its goal launched the player, repeated the probe
/// until its first answer and called `Play`, and did nothing else.
pub proof fn lemma_startup_is_one_pass(done: Seq<Completed>)
    requires
        follows_plan(Goal::Startup, done),
        done.len() > 0,
        Goal::Startup.after(done.last()) is Done,
    ensures
        done.len() >= 3,
        done[0] matches Completed::Spawned(Ok(_)),
        ready_at(done, 1, done.len() - 2),
        done[done.len() - 1] matches Completed::Played(Ok(_)),
{
    let n = done.len() as int;
    let goal = Goal::Startup;
    assert(answers(done[0], goal.first()));
    assert(n >= 2);
    let first = goal.after(done[0]);
    assert(first matches Progress::Proceed(step) && answers(done[1], step));
    lemma_phase(goal, done, 1, n - 1);
}

/// A new player is launched only after the old one was retired with
/// success, or as the first step of a startup: the steps never ask for two
/// players at a time.
pub proof fn lemma_spawn_follows_kill(goal: Goal, completed: Completed)
    ensures
        goal.after(completed) == Progress::Proceed(Step::Spawn) <==> (completed matches
            Completed::Killed(Ok(_))),
        goal.first() == Step::Spawn <==> goal is Startup,
{
}

/// A step that fails ends the sequence, and the error is the one that the
/// step gave. A probe that is not answered fails the sequence exactly when
/// the wait has lasted longer than the goal's bound, with an error that
/// names the bound.
pub proof fn lemma_failure_is_passed_on(goal: Goal, completed: Completed)
    ensures
        completed matches Completed::Killed(Err(e)) ==> goal.after(completed) == Progress::Failed(
            SupervisorError::Kill(e),
        ),
        completed matches Completed::Spawned(Err(e)) ==> goal.after(completed) == Progress::Failed(
            SupervisorError::Spawn(e),
        ),
        completed matches Completed::Played(Err(e)) ==> goal.after(completed) == Progress::Failed(
            SupervisorError::Call(RemoteMethod::Play, e),
        ),
        completed matches Completed::Skipped(Err(e)) ==> goal.after(completed) == Progress::Failed(
            SupervisorError::Call(RemoteMethod::Next, e),
        ),
        completed matches Completed::Probed { answered, elapsed_ms } ==> (goal.after(completed)
            is Failed <==> !answered && elapsed_ms > goal.ready_timeout()),
        completed matches Completed::Probed { answered, elapsed_ms } ==> (!answered && elapsed_ms
            > goal.ready_timeout() ==> goal.after(completed) == Progress::Failed(
            SupervisorError::NotReady(TimeoutError { timeout_ms: goal.ready_timeout() }),
        )),
{
}

impl Step {
    /// The remote method that the step calls, if it calls one.
    pub fn remote_method(self) -> (method: Option<RemoteMethod>)
        ensures
            method == (match self {
                Step::Probe { .. } => Some(RemoteMethod::Ping),
                Step::Play => Some(RemoteMethod::Play),
                Step::Next => Some(RemoteMethod::Next),
                _ => None,
            }),
    {
        match self {
            Step::Probe { .. } => Some(RemoteMethod::Ping),
            Step::Play => Some(RemoteMethod::Play),
            Step::Next => Some(RemoteMethod::Next),
            _ => None,
        }
    }
}

} // verus!
