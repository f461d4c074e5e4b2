//! The supervision loop as a whole: what a sequence of events leads to when
//! each is handled in turn, and what holds of every such run.

use vstd::prelude::*;
use crate::error::SupervisorError;
use crate::notification::{
    has_entry, lemma_lookup_finds_existing, lookup, metadata_key, track_id_key, PropertyChange,
    Value,
};
use crate::supervisor::{
    action_for, is_ad_event, policy_after, policy_after_restart, Action, Event, OwnerLossPolicy,
    OwnershipEvent,
};

verus! {

/// Whether the loop is still going.
pub enum Status {
    /// The loop waits for the next event.
    Running,
    /// The loop has ended without an error.
    Exited,
    /// A restart failed and the loop has ended with its error.
    Failed(SupervisorError),
}

/// Where the loop stands after some events.
pub struct LoopState {
    /// How the next loss of ownership is treated.
    pub policy: OwnerLossPolicy,
    /// Whether the loop is still going.
    pub status: Status,
    /// How many restart sequences were begun.
    pub restarts: nat,
}

/// One pass through the loop: the event that arrives and, for the case that
/// it calls for a restart, how that restart goes.
pub struct Turn {
    pub event: Event,
    pub restart: Result<(), SupervisorError>,
}

/// The loop after one more pass. A loop that has ended stays as it is. A
/// running loop handles the event as `SupervisorState::on_event` does and,
/// where a restart is called for, takes its outcome as
/// `SupervisorState::restart_finished` does.
pub open spec fn turn(state: LoopState, t: Turn) -> LoopState {
    if !(state.status is Running) {
        state
    } else {
        let policy = policy_after(state.policy, t.event);
        match action_for(state.policy, t.event) {
            Action::Continue => LoopState { policy, ..state },
            Action::Exit => LoopState { policy, status: Status::Exited, ..state },
            Action::Restart => LoopState {
                policy: policy_after_restart(policy, t.restart),
                status: match t.restart {
                    Ok(_) => Status::Running,
                    Err(e) => Status::Failed(e),
                },
                restarts: state.restarts + 1,
            },
        }
    }
}

/// The loop after all of `turns`, from `state` on.
pub open spec fn run(state: LoopState, turns: Seq<Turn>) -> LoopState
    decreases turns.len(),
{
    if turns.len() == 0 {
        state
    } else {
        turn(run(state, turns.drop_last()), turns.last())
    }
}

/// How many of the events are notifications of an advertisement.
pub open spec fn ad_events(turns: Seq<Turn>) -> nat
    decreases turns.len(),
{
    if turns.len() == 0 {
        0
    } else {
        ad_events(turns.drop_last()) + if is_ad_event(turns.last().event) {
            1nat
        } else {
            0nat
        }
    }
}

/// A run of one more turn is the run so far, followed by that turn.
pub proof fn lemma_run_step(state: LoopState, turns: Seq<Turn>, i: int)
    requires
        0 <= i < turns.len(),
    ensures
        run(state, turns.take(i + 1)) == turn(run(state, turns.take(i)), turns[i]),
{
    assert(turns.take(i + 1).drop_last() =~= turns.take(i));
}

/// A notification without a `Metadata` entry, or whose metadata has no
/// `mpris:trackid` entry, carries no track identifier and is passed over:
/// no restart is asked for and the policy stays as it is.
pub proof fn lemma_notification_without_track_is_ignored(
    policy: OwnerLossPolicy,
    change: PropertyChange,
)
    requires
        !has_entry(change.changed@, metadata_key()) || (lookup(
            change.changed@,
            metadata_key(),
        ) matches Some(Value::Dict(metadata)) && !has_entry(metadata@, track_id_key())),
    ensures
        change.track_identifier() is None,
        !is_ad_event(Event::PropertyChanged(change)),
        action_for(policy, Event::PropertyChanged(change)) == Action::Continue,
        policy_after(policy, Event::PropertyChanged(change)) == policy,
{
    lemma_lookup_finds_existing(change.changed@, metadata_key());
    match lookup(change.changed@, metadata_key()) {
        Some(Value::Dict(metadata)) => lemma_lookup_finds_existing(metadata@, track_id_key()),
        _ => {},
    }
}

/// A restart is asked for exactly when the event is a notification of an
/// advertisement, whatever the policy.
pub proof fn lemma_restart_only_for_ads(policy: OwnerLossPolicy, event: Event)
    ensures
        action_for(policy, event) == Action::Restart <==> is_ad_event(event),
{
}

/// The loss of ownership that follows the supervisor's own restart does not
/// end the loop. In any run, where a notification of an advertisement
/// arrives while the loop is running, the restart succeeds and the next
/// event is a loss of ownership: the policy is `IgnoreNextLoss` when the
/// loss arrives, the loss sets it back to `ExitOnLoss`, and the loop is
/// still running and handles whatever comes next.
pub proof fn lemma_own_restart_survives_loss(state: LoopState, turns: Seq<Turn>, i: int)
    requires
        0 <= i,
        i + 1 < turns.len(),
        run(state, turns.take(i)).status is Running,
        is_ad_event(turns[i].event),
        turns[i].restart is Ok,
        turns[i + 1].event == Event::OwnershipChanged(OwnershipEvent::Lost),
    ensures
        run(state, turns.take(i + 1)).status is Running,
        run(state, turns.take(i + 1)).policy == OwnerLossPolicy::IgnoreNextLoss,
        run(state, turns.take(i + 2)).status is Running,
        run(state, turns.take(i + 2)).policy == OwnerLossPolicy::ExitOnLoss,
        run(state, turns.take(i + 2)).restarts == run(state, turns.take(i)).restarts + 1,
{
    lemma_run_step(state, turns, i);
    lemma_run_step(state, turns, i + 1);
}

/// A loss of ownership under `ExitOnLoss` ends the loop, without an error
/// and without a restart.
pub proof fn lemma_unexpected_loss_exits(state: LoopState, turns: Seq<Turn>, i: int)
    requires
        0 <= i < turns.len(),
        run(state, turns.take(i)).status is Running,
        run(state, turns.take(i)).policy == OwnerLossPolicy::ExitOnLoss,
        turns[i].event == Event::OwnershipChanged(OwnershipEvent::Lost),
    ensures
        run(state, turns.take(i + 1)).status is Exited,
        run(state, turns.take(i + 1)).restarts == run(state, turns.take(i)).restarts,
        run(state, turns) == run(state, turns.take(i + 1)),
{
    lemma_run_step(state, turns, i);
    lemma_ended_loop_stays(state, turns, i + 1);
}

/// Gains of ownership change nothing: after any number of them the loop is
/// where it was.
pub proof fn lemma_gains_change_nothing(state: LoopState, turns: Seq<Turn>)
    requires
        forall|k: int|
            0 <= k < turns.len() ==> (#[trigger] turns[k]).event == Event::OwnershipChanged(
                OwnershipEvent::Gained,
            ),
    ensures
        run(state, turns) == state,
    decreases turns.len(),
{
    if turns.len() > 0 {
        lemma_gains_change_nothing(state, turns.drop_last());
        assert(turns.last() == turns[turns.len() - 1]);
    }
}

/// A loss of ownership under `ExitOnLoss` ends the loop however many gains
/// of ownership came before it.
pub proof fn lemma_loss_after_gains_exits(state: LoopState, gains: Seq<Turn>, loss: Turn)
    requires
        state.status is Running,
        state.policy == OwnerLossPolicy::ExitOnLoss,
        forall|k: int|
            0 <= k < gains.len() ==> (#[trigger] gains[k]).event == Event::OwnershipChanged(
                OwnershipEvent::Gained,
            ),
        loss.event == Event::OwnershipChanged(OwnershipEvent::Lost),
    ensures
        run(state, gains.push(loss)).status is Exited,
        run(state, gains.push(loss)).restarts == state.restarts,
{
    lemma_gains_change_nothing(state, gains);
    assert(gains.push(loss).drop_last() =~= gains);
}

/// After a loss of ownership the policy is `ExitOnLoss`, whatever it was:
/// `IgnoreNextLoss` never outlasts one loss.
pub proof fn lemma_loss_resets_policy(state: LoopState, turns: Seq<Turn>, i: int)
    requires
        0 <= i < turns.len(),
        run(state, turns.take(i)).status is Running,
        turns[i].event == Event::OwnershipChanged(OwnershipEvent::Lost),
    ensures
        run(state, turns.take(i + 1)).policy == OwnerLossPolicy::ExitOnLoss,
{
    lemma_run_step(state, turns, i);
}

/// Of two losses of ownership in a row the second ends the loop, if the
/// first has not: a restart excuses one loss only.
pub proof fn lemma_second_loss_exits(state: LoopState, turns: Seq<Turn>, i: int)
    requires
        0 <= i,
        i + 1 < turns.len(),
        run(state, turns.take(i)).status is Running,
        turns[i].event == Event::OwnershipChanged(OwnershipEvent::Lost),
        turns[i + 1].event == Event::OwnershipChanged(OwnershipEvent::Lost),
    ensures
        run(state, turns.take(i + 2)).status is Exited,
{
    lemma_run_step(state, turns, i);
    lemma_run_step(state, turns, i + 1);
}

/// A loop that has ended takes no further turn.
pub proof fn lemma_ended_loop_stays(state: LoopState, turns: Seq<Turn>, i: int)
    requires
        0 <= i <= turns.len(),
        !(run(state, turns.take(i)).status is Running),
    ensures
        run(state, turns) == run(state, turns.take(i)),
    decreases turns.len() - i,
{
    if i < turns.len() {
        lemma_run_step(state, turns, i);
        lemma_ended_loop_stays(state, turns, i + 1);
    } else {
        assert(turns.take(i) =~= turns);
    }
}

/// One restart sequence is begun for each notification of an advertisement
/// and none for any other event: a run never begins more restarts than it
/// saw such notifications, and a run that is still going has begun exactly
/// as many.
pub proof fn lemma_one_restart_per_ad(state: LoopState, turns: Seq<Turn>)
    ensures
        run(state, turns).restarts <= state.restarts + ad_events(turns),
        run(state, turns).status is Running ==> state.status is Running && run(
            state,
            turns,
        ).restarts == state.restarts + ad_events(turns),
    decreases turns.len(),
{
    if turns.len() > 0 {
        lemma_one_restart_per_ad(state, turns.drop_last());
    }
}

/// Events that are no notifications of an advertisement never lead to a
/// restart.
pub proof fn lemma_no_ad_no_restart(state: LoopState, turns: Seq<Turn>)
    requires
        forall|k: int| 0 <= k < turns.len() ==> !is_ad_event((#[trigger] turns[k]).event),
    ensures
        run(state, turns).restarts == state.restarts,
        !(run(state, turns).status is Failed) || state.status is Failed,
    decreases turns.len(),
{
    if turns.len() > 0 {
        lemma_no_ad_no_restart(state, turns.drop_last());
        assert(turns.last() == turns[turns.len() - 1]);
    }
}

/// A restart that fails ends the loop with the error of the restart, as it
/// came.
pub proof fn lemma_failed_restart_is_fatal(
    state: LoopState,
    turns: Seq<Turn>,
    i: int,
    e: SupervisorError,
)
    requires
        0 <= i < turns.len(),
        run(state, turns.take(i)).status is Running,
        is_ad_event(turns[i].event),
        turns[i].restart == Err::<(), SupervisorError>(e),
    ensures
        run(state, turns) == run(state, turns.take(i + 1)),
        run(state, turns).status == Status::Failed(e),
{
    lemma_run_step(state, turns, i);
    lemma_ended_loop_stays(state, turns, i + 1);
}

} // verus!
